use mokt_native::env_value_or_empty;

#[test]
fn found_value_is_returned() {
    assert_eq!(env_value_or_empty(Some("bar".to_string())), "bar");
}

#[test]
fn missing_value_gives_empty_string() {
    assert_eq!(env_value_or_empty(None), "");
}

#[test]
fn value_with_nul_gives_empty_string() {
    assert_eq!(env_value_or_empty(Some("a\0b".to_string())), "");
    assert_eq!(env_value_or_empty(Some("\0".to_string())), "");
}

#[test]
fn empty_value_stays_empty() {
    assert_eq!(env_value_or_empty(Some(String::new())), "");
}

#[test]
fn non_ascii_value_is_kept() {
    assert_eq!(env_value_or_empty(Some("héllo wörld".to_string())), "héllo wörld");
}
