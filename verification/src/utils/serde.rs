//! Decoding of request fields that arrive as text.
//!
//! A form sends every field as text and sends an empty text for a field that
//! was left blank. The functions here take the text as it was decoded from
//! the request and, where the field is to hold something other than text, the
//! parser for it. A parser is any function from a text to a `Result`.

use vstd::prelude::*;

verus! {

/// Whether a field holds something: it is there and its text is not empty.
pub open spec fn is_filled(field: Option<String>) -> bool {
    field is Some && field->Some_0@.len() > 0
}

/// Takes a field that was left blank as no value: `None` for a missing field
/// and for an empty text, the text itself otherwise.
pub fn empty_string_as_none(field: Option<String>) -> (r: Option<String>)
    ensures
        is_filled(field) ==> r == field,
        !is_filled(field) ==> r is None,
{
    match field {
        None => None,
        Some(text) => {
            if text.as_str().is_empty() {
                None
            } else {
                Some(text)
            }
        },
    }
}

/// Parses a field that may have been left blank: no value for a missing
/// field and for an empty text, without asking the parser; otherwise what
/// the parser makes of the text.
pub fn from_string_empty_string_as_none<T, E, F: Fn(&String) -> Result<T, E>>(
    field: Option<String>,
    parse: F,
) -> (r: Result<Option<T>, E>)
    requires
        is_filled(field) ==> call_requires(parse, (&field->Some_0,)),
    ensures
        !is_filled(field) ==> r == Ok::<Option<T>, E>(None),
        is_filled(field) ==> match r {
            Ok(Some(value)) => call_ensures(parse, (&field->Some_0,), Ok::<T, E>(value)),
            Ok(None) => false,
            Err(e) => call_ensures(parse, (&field->Some_0,), Err::<T, E>(e)),
        },
{
    match field {
        None => Ok(None),
        Some(text) => {
            if text.as_str().is_empty() {
                Ok(None)
            } else {
                match parse(&text) {
                    Ok(value) => Ok(Some(value)),
                    Err(e) => Err(e),
                }
            }
        },
    }
}

/// Parses a field: what the parser makes of the text.
pub fn from_string<T, E, F: Fn(&String) -> Result<T, E>>(field: String, parse: F) -> (r: Result<
    T,
    E,
>)
    requires
        call_requires(parse, (&field,)),
    ensures
        call_ensures(parse, (&field,), r),
{
    parse(&field)
}

/// Whether the parser may accept the text.
pub open spec fn accepts<T, E, F: Fn(&String) -> Result<T, E>>(parse: F, text: String) -> bool {
    exists|value: T| call_ensures(parse, (&text,), Ok::<T, E>(value))
}

/// Parses a field that holds a list, text by text and in order. The result
/// holds what the parser made of each text, at the same position. The first
/// text that the parser refuses ends the parsing, and its error is the
/// result; the texts behind it are not parsed.
pub fn vec_from_string<T, E, F: Fn(&String) -> Result<T, E>>(fields: Vec<String>, parse: F) -> (r:
    Result<Vec<T>, E>)
    requires
        forall|i: int| 0 <= i < fields.len() ==> call_requires(parse, (&#[trigger] fields[i],)),
    ensures
        match r {
            Ok(values) => values.len() == fields.len() && forall|i: int|
                0 <= i < fields.len() ==> call_ensures(
                    parse,
                    (&fields[i],),
                    Ok::<T, E>(#[trigger] values[i]),
                ),
            Err(e) => exists|k: int|
                0 <= k < fields.len() && call_ensures(parse, (&#[trigger] fields[k],), Err::<T, E>(e))
                    && forall|j: int| 0 <= j < k ==> #[trigger] accepts::<T, E, F>(parse, fields[j]),
        },
{
    let mut values: Vec<T> = Vec::new();
    let mut i: usize = 0;
    while i < fields.len()
        invariant
            i <= fields.len(),
            values.len() == i,
            forall|k: int| 0 <= k < fields.len() ==> call_requires(parse, (&#[trigger] fields[k],)),
            forall|k: int|
                0 <= k < i ==> call_ensures(parse, (&fields[k],), Ok::<T, E>(#[trigger] values[k])),
        decreases fields.len() - i,
    {
        match parse(&fields[i]) {
            Ok(value) => {
                values.push(value);
            },
            Err(e) => {
                proof {
                    assert forall|j: int| 0 <= j < i implies #[trigger] accepts::<T, E, F>(
                        parse,
                        fields[j],
                    ) by {
                        assert(call_ensures(parse, (&fields[j],), Ok::<T, E>(values[j])));
                    }
                }
                return Err(e);
            },
        }
        i += 1;
    }
    Ok(values)
}

} // verus!
