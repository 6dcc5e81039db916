use break_stack::utils::askama::filters::{some_matches, string_if_true, string_or_empty};

#[test]
fn test_string_or_empty() {
    assert_eq!(string_or_empty(&None::<String>).unwrap(), "");
    assert_eq!(string_or_empty(&Some("abc".to_string())).unwrap(), "abc");
    assert_eq!(string_or_empty(&None::<&str>).unwrap(), "");
    assert_eq!(string_or_empty(&Some("abc")).unwrap(), "abc");
}

#[test]
fn test_with_some_matches() {
    assert_eq!(some_matches(&None::<u8>, &1).unwrap().to_string(), "false");
    assert_eq!(some_matches(&Some(2u8), &1).unwrap().to_string(), "false");
    assert_eq!(some_matches(&Some(1u8), &1).unwrap().to_string(), "true");
}

#[test]
fn test_string_if_true() {
    assert_eq!(string_if_true(&false, "abc").unwrap(), "");
    assert_eq!(string_if_true(&true, "abc").unwrap(), "abc");
}

#[test]
fn string_or_empty_formats_numbers() {
    assert_eq!(string_or_empty(&Some(42u8)).unwrap(), "42");
    assert_eq!(string_or_empty(&Some(-7i64)).unwrap(), "-7");
}
