//! Template filters. Each takes the filtered value first and returns the
//! template engine's `Result`, as a filter must; none of them ever fails.

use std::fmt::Display;
use vstd::prelude::*;
use vstd::std_specs::cmp::PartialEqSpec;
use vstd::string::to_string_from_display_ensures;

verus! {

#[verifier::external_type_specification]
#[verifier::external_body]
pub struct ExTemplateError(::askama::Error);

/// The text of the value if there is one, the empty string otherwise.
pub fn string_or_empty<T: Display>(t: &Option<T>) -> (r: ::askama::Result<String>)
    ensures
        r is Ok,
        match t {
            Some(v) => to_string_from_display_ensures::<T>(v, r->Ok_0),
            None => r->Ok_0@ == Seq::<char>::empty(),
        },
{
    match t {
        Some(v) => Ok(v.to_string()),
        None => Ok(String::new()),
    }
}

/// Whether there is a value and it equals `a`.
pub fn some_matches<T: PartialEq>(t: &Option<T>, a: &T) -> (r: ::askama::Result<bool>)
    ensures
        r is Ok,
        t is None ==> r->Ok_0 == false,
        T::obeys_eq_spec() ==> r->Ok_0 == (t is Some && t->Some_0.eq_spec(a)),
{
    match t {
        Some(v) => Ok(*v == *a),
        None => Ok(false),
    }
}

/// `s` if `b` holds, the empty string otherwise.
pub fn string_if_true<'a>(b: &'a bool, s: &'a str) -> (r: ::askama::Result<&'a str>)
    ensures
        r is Ok,
        *b ==> r->Ok_0@ == s@,
        !*b ==> r->Ok_0@ == Seq::<char>::empty(),
{
    if *b {
        Ok(s)
    } else {
        proof {
            reveal_strlit("");
        }
        Ok("")
    }
}

} // verus!
