//! The rules by which the borrowed form of a component is laid out.
//!
//! A component is a struct with named fields. Its borrowed form has the same
//! fields; how each of them is held there depends on the field's declared
//! type alone, and the functions here say how. They work on the names that
//! occur in a declaration, as text, and leave the building of code to their
//! caller.

use vstd::prelude::*;
use vstd::slice::slice_index_get;
use vstd::string::StringSliceAdditionalSpecFns;
use vstd::utf8::{decode_utf8, encode_utf8, encode_utf8_decode_utf8};

verus! {

/// Whether two texts are the same.
pub fn same_text(a: &str, b: &str) -> (r: bool)
    ensures
        r == (a@ == b@),
{
    let x = a.as_bytes();
    let y = b.as_bytes();
    proof {
        encode_utf8_decode_utf8(a@);
        encode_utf8_decode_utf8(b@);
    }
    if x.len() != y.len() {
        return false;
    }
    let mut i: usize = 0;
    while i < x.len()
        invariant
            i <= x.len(),
            x.len() == y.len(),
            x@ == encode_utf8(a@),
            y@ == encode_utf8(b@),
            forall|k: int| 0 <= k < i ==> x@[k] == y@[k],
        decreases x.len() - i,
    {
        if *slice_index_get(x, i) != *slice_index_get(y, i) {
            return false;
        }
        i += 1;
    }
    assert(x@ =~= y@);
    true
}

/// The names of the types that are held by value in a borrowed form.
pub open spec fn is_primitive_name(name: Seq<char>) -> bool {
    name == "u8"@ || name == "u16"@ || name == "u32"@ || name == "u64"@ || name == "u128"@ || name
        == "usize"@ || name == "i8"@ || name == "i16"@ || name == "i32"@ || name == "i64"@ || name
        == "i128"@ || name == "isize"@ || name == "f32"@ || name == "f64"@ || name == "char"@
        || name == "bool"@ || name == "()"@
}

/// Whether a type of this name is held by value in a borrowed form: the
/// integers, the floating-point numbers, `char`, `bool` and the unit.
pub fn ident_type_is_primitive(ident: &str) -> (r: bool)
    ensures
        r == is_primitive_name(ident@),
{
    same_text(ident, "u8") || same_text(ident, "u16") || same_text(ident, "u32") || same_text(
        ident,
        "u64",
    ) || same_text(ident, "u128") || same_text(ident, "usize") || same_text(ident, "i8")
        || same_text(ident, "i16") || same_text(ident, "i32") || same_text(ident, "i64")
        || same_text(ident, "i128") || same_text(ident, "isize") || same_text(ident, "f32")
        || same_text(ident, "f64") || same_text(ident, "char") || same_text(ident, "bool")
        || same_text(ident, "()")
}

/// What the layout needs to know of a field's declaration.
pub struct FieldDecl {
    /// The first name in the path of the field's type, `None` where the type
    /// is not a path.
    pub head: Option<String>,
    /// Whether that name is followed by arguments in angle brackets of which
    /// the first is a type.
    pub first_argument_is_type: bool,
    /// Whether the declaration itself names the type of the borrowed field.
    pub ref_type_given: bool,
    /// Whether the declaration itself says how the borrowed field is set.
    pub setter_given: bool,
}

/// How a field is held in the borrowed form.
#[derive(Debug, Clone, Copy, PartialEq, Eq, Structural)]
pub enum RefForm {
    /// With the type that the declaration names.
    Given,
    /// As an `Option` of a reference to what the option holds.
    OptionOfRef,
    /// As a string slice.
    Str,
    /// By value.
    Value,
    /// As a reference to the field.
    Borrowed,
}

/// How a field of the borrowed form is set from the component.
#[derive(Debug, Clone, Copy, PartialEq, Eq, Structural)]
pub enum SetterForm {
    /// As the declaration says.
    Given,
    /// By copying the field.
    Copied,
    /// By `as_ref` on the field.
    AsRef,
    /// By borrowing the field.
    Borrowed,
}

impl FieldDecl {
    /// Whether the type's first name is `name`.
    pub open spec fn head_is(self, name: Seq<char>) -> bool {
        self.head is Some && self.head->Some_0@ == name
    }

    /// Whether the field's type is one that is held by value.
    pub open spec fn is_primitive(self) -> bool {
        self.head is Some && is_primitive_name(self.head->Some_0@)
    }

    /// The form of the field in the borrowed form. A type named by the
    /// declaration goes first. Then the type itself decides: an `Option` of
    /// a type is an option of a reference, a `String` is a string slice, a
    /// primitive is held by value unless `ref_primitive` asks for a
    /// reference, and everything else is borrowed.
    pub open spec fn ref_form(self, ref_primitive: bool) -> RefForm {
        if self.ref_type_given {
            RefForm::Given
        } else if self.head_is("Option"@) && self.first_argument_is_type {
            RefForm::OptionOfRef
        } else if self.head_is("Option"@) {
            RefForm::Borrowed
        } else if self.head_is("String"@) {
            RefForm::Str
        } else if self.is_primitive() && !ref_primitive {
            RefForm::Value
        } else {
            RefForm::Borrowed
        }
    }

    /// The way the borrowed field is set. What the declaration says goes
    /// first; a primitive is copied, an `Option` is taken by `as_ref`, and
    /// everything else is borrowed.
    pub open spec fn setter_form(self) -> SetterForm {
        if self.setter_given {
            SetterForm::Given
        } else if self.is_primitive() {
            SetterForm::Copied
        } else if self.head_is("Option"@) {
            SetterForm::AsRef
        } else {
            SetterForm::Borrowed
        }
    }

    /// Whether the field becomes a type parameter of the borrowed form: it
    /// does when it is a `Vec` of a type and the declaration names no type
    /// for it.
    pub open spec fn is_generic(self) -> bool {
        !self.ref_type_given && self.head_is("Vec"@) && self.first_argument_is_type
    }

    fn head_matches(&self, name: &str) -> (r: bool)
        ensures
            r == self.head_is(name@),
    {
        match &self.head {
            Some(head) => same_text(head.as_str(), name),
            None => false,
        }
    }
}

/// Whether the field's type is one that is held by value.
pub fn field_is_primitive(field: &FieldDecl) -> (r: bool)
    ensures
        r == field.is_primitive(),
{
    match &field.head {
        Some(head) => ident_type_is_primitive(head.as_str()),
        None => false,
    }
}

/// The form of the field in the borrowed form.
pub fn component_ref_field_type(field: &FieldDecl, ref_primitive: bool) -> (r: RefForm)
    ensures
        r == field.ref_form(ref_primitive),
{
    if field.ref_type_given {
        return RefForm::Given;
    }
    if field.head_matches("Option") {
        if field.first_argument_is_type {
            RefForm::OptionOfRef
        } else {
            RefForm::Borrowed
        }
    } else if field.head_matches("String") {
        RefForm::Str
    } else if field_is_primitive(field) && !ref_primitive {
        RefForm::Value
    } else {
        RefForm::Borrowed
    }
}

/// The way the borrowed field is set from the component.
pub fn component_ref_field_setter(field: &FieldDecl) -> (r: SetterForm)
    ensures
        r == field.setter_form(),
{
    if field.setter_given {
        SetterForm::Given
    } else if field_is_primitive(field) {
        SetterForm::Copied
    } else if field.head_matches("Option") {
        SetterForm::AsRef
    } else {
        SetterForm::Borrowed
    }
}

/// Whether the field becomes a type parameter of the borrowed form.
pub fn field_is_generic(field: &FieldDecl) -> (r: bool)
    ensures
        r == field.is_generic(),
{
    !field.ref_type_given && field.first_argument_is_type && field.head_matches("Vec")
}

/// Whether the borrowed form borrows anything, and so needs a lifetime: it
/// does exactly when some field is not held by value.
pub fn input_needs_lifetime(fields: &Vec<FieldDecl>) -> (r: bool)
    ensures
        r == exists|i: int| 0 <= i < fields.len() && !(#[trigger] fields[i]).is_primitive(),
{
    let mut i: usize = 0;
    while i < fields.len()
        invariant
            i <= fields.len(),
            forall|k: int| 0 <= k < i ==> (#[trigger] fields[k]).is_primitive(),
        decreases fields.len() - i,
    {
        if !field_is_primitive(&fields[i]) {
            return true;
        }
        i += 1;
    }
    false
}

/// The upper case of a character, which may be more than one character.
pub uninterp spec fn uppercase_of(c: char) -> Seq<char>;

/// Calls `char::to_uppercase` and collects the characters it yields.
/// Trusted: they are the character's [`uppercase_of`].
#[verifier::external_body]
fn uppercase(c: char) -> (r: Vec<char>)
    ensures
        r@ == uppercase_of(c),
{
    c.to_uppercase().collect()
}

/// Collects characters into a `String` by `String::from_iter`. Trusted: the
/// string holds the characters given, in their order.
#[verifier::external_body]
fn text_of(chars: Vec<char>) -> (r: String)
    ensures
        r@ == chars@,
{
    String::from_iter(chars)
}

/// A text with its first character in upper case; the empty text is left as
/// it is.
pub open spec fn capitalized(s: Seq<char>) -> Seq<char> {
    if s.len() == 0 {
        s
    } else {
        uppercase_of(s[0]) + s.subrange(1, s.len() as int)
    }
}

/// A text in which `_` separates words, with the separators dropped and the
/// first character of each word in upper case. `at_start` says whether the
/// text begins a word.
pub open spec fn pascal_from(s: Seq<char>, at_start: bool) -> Seq<char>
    decreases s.len(),
{
    if s.len() == 0 {
        s
    } else if s[0] == '_' {
        pascal_from(s.drop_first(), true)
    } else if at_start {
        uppercase_of(s[0]) + pascal_from(s.drop_first(), false)
    } else {
        seq![s[0]] + pascal_from(s.drop_first(), false)
    }
}

/// Appends all of `more` to `out`.
fn extend(out: &mut Vec<char>, more: Vec<char>)
    ensures
        final(out)@ == old(out)@ + more@,
{
    let mut i: usize = 0;
    while i < more.len()
        invariant
            i <= more.len(),
            out@ == old(out)@ + more@.subrange(0, i as int),
        decreases more.len() - i,
    {
        out.push(more[i]);
        i += 1;
    }
    assert(more@.subrange(0, more.len() as int) =~= more@);
}

/// Puts the first character of a text in upper case.
pub fn capitalize(s: &str) -> (r: String)
    ensures
        r@ == capitalized(s@),
{
    let mut out: Vec<char> = Vec::new();
    let mut first = true;
    for c in it: s.chars()
        invariant
            it.seq() == s@,
            first == (it.index() == 0),
            out@ == capitalized(s@.subrange(0, it.index() as int)),
    {
        let ghost before = s@.subrange(0, it.index() as int);
        let ghost after = s@.subrange(0, it.index() + 1);
        if first {
            extend(&mut out, uppercase(c));
            first = false;
            assert(after.subrange(1, after.len() as int) =~= Seq::<char>::empty());
        } else {
            out.push(c);
            assert(after.subrange(1, after.len() as int) =~= before.subrange(
                1,
                before.len() as int,
            ).push(c));
        }
        assert(out@ =~= capitalized(after));
    }
    assert(s@.subrange(0, s@.len() as int) =~= s@);
    text_of(out)
}

/// Turns a name written in snake case into Pascal case: the underscores are
/// dropped and every word begins in upper case.
pub fn snake_case_to_pascal_case(s: &str) -> (r: String)
    ensures
        r@ == pascal_from(s@, true),
{
    let mut out: Vec<char> = Vec::new();
    let mut at_start = true;
    assert(s@.subrange(0, s@.len() as int) =~= s@);
    for c in it: s.chars()
        invariant
            it.seq() == s@,
            out@ + pascal_from(s@.subrange(it.index() as int, s@.len() as int), at_start)
                == pascal_from(s@, true),
    {
        let ghost rest = s@.subrange(it.index() as int, s@.len() as int);
        let ghost done = out@;
        assert(rest.drop_first() =~= s@.subrange(it.index() + 1, s@.len() as int));
        assert(rest[0] == c);
        if c == '_' {
            at_start = true;
        } else if at_start {
            extend(&mut out, uppercase(c));
            at_start = false;
            assert(out@ + pascal_from(rest.drop_first(), false) =~= done + pascal_from(
                rest,
                true,
            ));
        } else {
            out.push(c);
            assert(out@ + pascal_from(rest.drop_first(), false) =~= done + pascal_from(
                rest,
                false,
            ));
        }
    }
    assert(s@.subrange(s@.len() as int, s@.len() as int) =~= Seq::<char>::empty());
    assert(out@ + Seq::<char>::empty() =~= out@);
    text_of(out)
}

/// A word, that is a text without `_`, is left as it is when it continues a
/// word, and is capitalized when it begins one.
pub proof fn lemma_pascal_of_word(s: Seq<char>)
    requires
        forall|i: int| 0 <= i < s.len() ==> s[i] != '_',
    ensures
        pascal_from(s, false) == s,
        pascal_from(s, true) == capitalized(s),
    decreases s.len(),
{
    if s.len() > 0 {
        lemma_pascal_of_word(s.drop_first());
        assert(seq![s[0]] + s.drop_first() =~= s);
        assert(s.drop_first() =~= s.subrange(1, s.len() as int));
    }
}

/// Pascal case goes word by word: of two texts joined by `_`, the first is
/// converted as it stands and the second as the beginning of a word.
pub proof fn lemma_pascal_splits(a: Seq<char>, b: Seq<char>, at_start: bool)
    ensures
        pascal_from(a + seq!['_'] + b, at_start) == pascal_from(a, at_start) + pascal_from(
            b,
            true,
        ),
    decreases a.len(),
{
    let joined = a + seq!['_'] + b;
    if a.len() == 0 {
        assert(joined.drop_first() =~= b);
        assert(pascal_from(a, at_start) + pascal_from(b, true) =~= pascal_from(b, true));
    } else {
        assert(joined.drop_first() =~= a.drop_first() + seq!['_'] + b);
        assert(joined[0] == a[0]);
        if a[0] == '_' {
            lemma_pascal_splits(a.drop_first(), b, true);
        } else {
            lemma_pascal_splits(a.drop_first(), b, false);
            if at_start {
                assert((uppercase_of(a[0]) + pascal_from(a.drop_first(), false)) + pascal_from(
                    b,
                    true,
                ) =~= uppercase_of(a[0]) + (pascal_from(a.drop_first(), false) + pascal_from(
                    b,
                    true,
                )));
            } else {
                assert((seq![a[0]] + pascal_from(a.drop_first(), false)) + pascal_from(b, true)
                    =~= seq![a[0]] + (pascal_from(a.drop_first(), false) + pascal_from(b, true)));
            }
        }
    }
}

} // verus!
