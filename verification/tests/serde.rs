use break_stack::utils::serde::{
    empty_string_as_none, from_string, from_string_empty_string_as_none, vec_from_string,
};

fn texts(items: &[&str]) -> Vec<String> {
    items.iter().map(|s| s.to_string()).collect()
}

#[test]
fn test_empty_string_as_none() {
    assert_eq!(empty_string_as_none(Some("".to_string())), None);
    assert_eq!(empty_string_as_none(Some("abc".to_string())), Some("abc".to_string()));
}

#[test]
fn test_from_string_empty_string_as_none() {
    assert_eq!(
        from_string_empty_string_as_none(Some("".to_string()), |s: &String| s.parse::<u8>()),
        Ok(None)
    );
    assert_eq!(
        from_string_empty_string_as_none(Some("2".to_string()), |s: &String| s.parse::<u8>()),
        Ok(Some(2))
    );
}

#[test]
fn test_from_string() {
    assert_eq!(from_string("2".to_string(), |s: &String| s.parse::<u8>()), Ok(2));
}

#[test]
fn test_vec_from_string() {
    assert_eq!(
        vec_from_string(texts(&["1", "2", "3", "4", "5"]), |s: &String| s.parse::<u8>()),
        Ok(vec![1, 2, 3, 4, 5])
    );
}

#[test]
fn test_f64_vec_from_string() {
    assert_eq!(
        vec_from_string(texts(&["7", "1", "2", "3.", "4.0", "5.5"]), |s: &String| s
            .parse::<f64>()),
        Ok(vec![7.0, 1.0, 2.0, 3.0, 4.0, 5.5])
    );
}

#[test]
fn a_missing_field_is_no_value() {
    assert_eq!(empty_string_as_none(None), None);
    assert_eq!(
        from_string_empty_string_as_none(None, |s: &String| s.parse::<u8>()),
        Ok(None)
    );
}

#[test]
fn a_blank_field_does_not_reach_the_parser() {
    let r = from_string_empty_string_as_none(Some(String::new()), |_: &String| {
        Err::<u8, &str>("asked")
    });
    assert_eq!(r, Ok(None));
}

#[test]
fn a_text_of_blanks_is_a_value() {
    assert_eq!(empty_string_as_none(Some(" ".to_string())), Some(" ".to_string()));
    assert!(from_string_empty_string_as_none(Some(" ".to_string()), |s: &String| s
        .parse::<u8>())
    .is_err());
}

#[test]
fn a_refused_text_is_the_parsers_error() {
    assert!(from_string("x".to_string(), |s: &String| s.parse::<u8>()).is_err());
    assert!(from_string("256".to_string(), |s: &String| s.parse::<u8>()).is_err());
    assert!(
        from_string_empty_string_as_none(Some("x".to_string()), |s: &String| s.parse::<u8>())
            .is_err()
    );
}

#[test]
fn the_first_refused_text_ends_the_list() {
    let seen = std::cell::RefCell::new(Vec::new());
    let r = vec_from_string(texts(&["1", "b", "3", "d"]), |s: &String| {
        seen.borrow_mut().push(s.clone());
        s.parse::<u8>().map_err(|_| s.clone())
    });
    assert_eq!(r, Err("b".to_string()));
    assert_eq!(*seen.borrow(), ["1", "b"]);
}

#[test]
fn an_empty_list_parses_to_an_empty_list() {
    assert_eq!(vec_from_string(Vec::new(), |s: &String| s.parse::<u8>()), Ok(vec![]));
}
