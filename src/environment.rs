//! The reply to an environment lookup: an owned string that the boundary can
//! hand out as a NUL-terminated C string, never a missing one.
use vstd::prelude::*;

verus! {

/// The reply for a lookup that found `found` (`None`: the variable is not set,
/// or its value is not Unicode). A value holding a NUL character cannot be a
/// C string, so it is answered like a miss, with the empty string.
pub open spec fn env_reply(found: Option<Seq<char>>) -> Seq<char> {
    match found {
        Some(value) => if value.contains('\0') {
            Seq::empty()
        } else {
            value
        },
        None => Seq::empty(),
    }
}

/// Whether `s` holds a NUL character.
fn contains_nul(s: &str) -> (r: bool)
    ensures
        r == s@.contains('\0'),
{
    let n = s.unicode_len();
    let mut i: usize = 0;
    while i < n
        invariant
            n == s@.len(),
            i <= n,
            forall|j: int| 0 <= j < i ==> s@[j] != '\0',
        decreases n - i,
    {
        if s.get_char(i) == '\0' {
            assert(s@[i as int] == '\0');
            return true;
        }
        i = i + 1;
    }
    false
}

/// Turns the outcome of an environment lookup into the string to hand out:
/// the value when it was found and holds no NUL, else the empty string.
pub fn env_value_or_empty(found: Option<String>) -> (r: String)
    ensures
        r@ == env_reply(
            match found {
                Some(v) => Some(v@),
                None => None,
            },
        ),
        !r@.contains('\0'),
{
    match found {
        Some(value) => {
            if contains_nul(value.as_str()) {
                String::new()
            } else {
                value
            }
        },
        None => String::new(),
    }
}

} // verus!
