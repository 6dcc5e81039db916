use break_stack::codegen::{
    capitalize, component_ref_field_setter, component_ref_field_type, field_is_generic,
    field_is_primitive, ident_type_is_primitive, input_needs_lifetime, same_text,
    snake_case_to_pascal_case, FieldDecl, RefForm, SetterForm,
};

/// A field whose type is a path beginning with `head`.
fn field(head: &str, first_argument_is_type: bool) -> FieldDecl {
    FieldDecl {
        head: Some(head.to_string()),
        first_argument_is_type,
        ref_type_given: false,
        setter_given: false,
    }
}

/// The fields `A`, `bool`, `String`, `usize`, `Option<Abc>`, `Result<A, B>`
/// and `Vec<Abc>`.
fn sample() -> Vec<FieldDecl> {
    vec![
        field("A", false),
        field("bool", false),
        field("String", false),
        field("usize", false),
        field("Option", true),
        field("Result", true),
        field("Vec", true),
    ]
}

#[test]
fn texts_are_compared_by_content() {
    assert!(same_text("", ""));
    assert!(same_text("abc", "abc"));
    assert!(!same_text("abc", "abd"));
    assert!(!same_text("abc", "ab"));
    assert!(!same_text("", "a"));
    assert!(same_text("caf\u{e9}", "caf\u{e9}"));
    assert!(!same_text("caf\u{e9}", "cafe"));
}

#[test]
fn the_primitive_names() {
    for name in [
        "u8", "u16", "u32", "u64", "u128", "usize", "i8", "i16", "i32", "i64", "i128", "isize",
        "f32", "f64", "char", "bool", "()",
    ] {
        assert!(ident_type_is_primitive(name), "{}", name);
    }
    for name in ["String", "str", "Option", "Vec", "U8", "u", "u88", "", "Bool"] {
        assert!(!ident_type_is_primitive(name), "{}", name);
    }
}

#[test]
fn the_form_of_each_field() {
    let forms: Vec<RefForm> =
        sample().iter().map(|f| component_ref_field_type(f, false)).collect();
    assert_eq!(
        forms,
        [
            RefForm::Borrowed,
            RefForm::Value,
            RefForm::Str,
            RefForm::Value,
            RefForm::OptionOfRef,
            RefForm::Borrowed,
            RefForm::Borrowed,
        ]
    );
}

#[test]
fn a_primitive_can_be_asked_for_by_reference() {
    assert_eq!(component_ref_field_type(&field("bool", false), true), RefForm::Borrowed);
    assert_eq!(component_ref_field_type(&field("String", false), true), RefForm::Str);
}

#[test]
fn an_option_without_a_type_in_it_is_borrowed() {
    assert_eq!(component_ref_field_type(&field("Option", false), false), RefForm::Borrowed);
}

#[test]
fn a_type_that_is_no_path_is_borrowed() {
    let tuple = FieldDecl {
        head: None,
        first_argument_is_type: false,
        ref_type_given: false,
        setter_given: false,
    };
    assert_eq!(component_ref_field_type(&tuple, false), RefForm::Borrowed);
    assert_eq!(component_ref_field_setter(&tuple), SetterForm::Borrowed);
    assert!(!field_is_primitive(&tuple));
    assert!(!field_is_generic(&tuple));
}

#[test]
fn what_the_declaration_says_goes_first() {
    let mut given = field("bool", false);
    given.ref_type_given = true;
    given.setter_given = true;
    assert_eq!(component_ref_field_type(&given, false), RefForm::Given);
    assert_eq!(component_ref_field_setter(&given), SetterForm::Given);

    let mut list = field("Vec", true);
    assert!(field_is_generic(&list));
    list.ref_type_given = true;
    assert!(!field_is_generic(&list));
}

#[test]
fn the_setter_of_each_field() {
    let setters: Vec<SetterForm> = sample().iter().map(component_ref_field_setter).collect();
    assert_eq!(
        setters,
        [
            SetterForm::Borrowed,
            SetterForm::Copied,
            SetterForm::Borrowed,
            SetterForm::Copied,
            SetterForm::AsRef,
            SetterForm::Borrowed,
            SetterForm::Borrowed,
        ]
    );
}

#[test]
fn only_a_vec_of_a_type_is_generic() {
    let generic: Vec<bool> = sample().iter().map(field_is_generic).collect();
    assert_eq!(generic, [false, false, false, false, false, false, true]);
    assert!(!field_is_generic(&field("Vec", false)));
}

#[test]
fn a_lifetime_is_needed_once_a_field_is_borrowed() {
    assert!(!input_needs_lifetime(&vec![]));
    assert!(!input_needs_lifetime(&vec![field("bool", false), field("usize", false)]));
    assert!(input_needs_lifetime(&vec![field("bool", false), field("String", false)]));
    assert!(input_needs_lifetime(&sample()));
}

#[test]
fn capitalize_raises_the_first_character() {
    assert_eq!(capitalize(""), "");
    assert_eq!(capitalize("a"), "A");
    assert_eq!(capitalize("abc"), "Abc");
    assert_eq!(capitalize("Abc"), "Abc");
    assert_eq!(capitalize("aBC"), "ABC");
    assert_eq!(capitalize("1abc"), "1abc");
    assert_eq!(capitalize("\u{e9}t\u{e9}"), "\u{c9}t\u{e9}");
    assert_eq!(capitalize("\u{df}a"), "SSa");
}

#[test]
fn pascal_case_of_snake_case() {
    assert_eq!(snake_case_to_pascal_case("field_g"), "FieldG");
    assert_eq!(snake_case_to_pascal_case("field"), "Field");
    assert_eq!(snake_case_to_pascal_case("vec_with_attr"), "VecWithAttr");
    assert_eq!(snake_case_to_pascal_case(""), "");
    assert_eq!(snake_case_to_pascal_case("_"), "");
    assert_eq!(snake_case_to_pascal_case("_a"), "A");
    assert_eq!(snake_case_to_pascal_case("a_"), "A");
    assert_eq!(snake_case_to_pascal_case("a__b"), "AB");
    assert_eq!(snake_case_to_pascal_case("already_Upper"), "AlreadyUpper");
}
