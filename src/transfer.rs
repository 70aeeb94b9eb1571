//! The transfer buffer: bytes owned on the native side until they are handed
//! across the boundary, then given back once by `free_decoded_data`.
use crate::codec::{base64_decoded, decoded_content, standard_decode};
use vstd::prelude::*;

verus! {

/// A decoded byte buffer, or no buffer at all.
///
/// At the boundary it collapses to a pointer and a length. Its invariant is the
/// one the boundary relies on: there is an allocation exactly when the length
/// is not zero, so an empty result never carries memory that would need
/// releasing. The type is neither `Copy` nor `Clone`: a buffer is given back
/// by moving it into `free_decoded_data`, which can happen only once.
pub struct DecodedData {
    data: Option<Vec<u8>>,
}

impl DecodedData {
    #[verifier::type_invariant]
    spec fn inv(self) -> bool {
        match self.data {
            Some(v) => v@.len() > 0,
            None => true,
        }
    }

    /// The bytes the buffer holds; empty when there is no allocation.
    pub closed spec fn view(&self) -> Seq<u8> {
        match self.data {
            Some(v) => v@,
            None => Seq::empty(),
        }
    }

    /// Whether an allocation stands behind the buffer.
    pub closed spec fn is_allocated(&self) -> bool {
        self.data is Some
    }

    /// The empty result: no pointer, zero length.
    pub fn empty() -> (r: DecodedData)
        ensures
            r@ == Seq::<u8>::empty(),
            !r.is_allocated(),
    {
        DecodedData { data: None }
    }

    /// Takes ownership of `bytes`; an empty vector becomes the empty result.
    pub fn from_bytes(bytes: Vec<u8>) -> (r: DecodedData)
        ensures
            r@ == bytes@,
            r.is_allocated() == (bytes@.len() > 0),
    {
        if bytes.len() == 0 {
            DecodedData { data: None }
        } else {
            DecodedData { data: Some(bytes) }
        }
    }

    /// Number of valid bytes; zero exactly when there is no allocation.
    pub fn len(&self) -> (r: usize)
        ensures
            r == self@.len(),
            (r == 0) == !self.is_allocated(),
    {
        proof {
            use_type_invariant(self);
        }
        match &self.data {
            Some(v) => v.len(),
            None => 0,
        }
    }

    /// Whether this is the empty result (a null pointer at the boundary).
    pub fn is_null(&self) -> (r: bool)
        ensures
            r == !self.is_allocated(),
            r == (self@.len() == 0),
    {
        proof {
            use_type_invariant(self);
        }
        self.data.is_none()
    }

    /// Hands the allocation out, for the boundary to expose as pointer and
    /// length; `None` for the empty result.
    pub fn into_bytes(self) -> (r: Option<Vec<u8>>)
        ensures
            match r {
                Some(v) => self.is_allocated() && v@ == self@ && v@.len() > 0,
                None => !self.is_allocated() && self@.len() == 0,
            },
    {
        proof {
            use_type_invariant(&self);
        }
        self.data
    }
}

/// Decodes standard padded Base64 text into a transfer buffer.
///
/// Text the decoder rejects is no failure of the call: it gives the empty
/// result, as does text that decodes to no bytes. Otherwise the buffer is
/// sized exactly to the decoded bytes and holds them.
pub fn decode_base64(encoded: &str) -> (r: DecodedData)
    ensures
        r@ == decoded_content(encoded@),
        r.is_allocated() == (r@.len() > 0),
        base64_decoded(encoded@) is None ==> !r.is_allocated(),
{
    match standard_decode(encoded) {
        Ok(bytes) => DecodedData::from_bytes(bytes),
        Err(_) => DecodedData::empty(),
    }
}

/// Gives a buffer back and returns how many bytes were reclaimed.
///
/// The empty result reclaims nothing. Otherwise the whole allocation, of the
/// size that was handed out, is dropped here. Since the buffer is moved in,
/// the same value cannot be released twice.
pub fn free_decoded_data(data: DecodedData) -> (freed: usize)
    ensures
        freed == data@.len(),
        !data.is_allocated() ==> freed == 0,
        data.is_allocated() ==> freed > 0,
{
    proof {
        use_type_invariant(&data);
    }
    match data.data {
        // The vector goes out of scope at the end of this arm.
        Some(bytes) => bytes.len(),
        None => 0,
    }
}

} // verus!
