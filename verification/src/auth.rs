//! The caller's identity as the pipeline sees it.

use vstd::prelude::*;

verus! {

/// Identifier of an authenticated caller. An anonymous caller is represented
/// by `Option::<UserId>::None` wherever an identity is expected.
#[derive(Debug, Copy, Clone)]
pub struct UserId(pub i64);

impl std::ops::Deref for UserId {
    type Target = i64;

    fn deref(&self) -> (r: &i64)
        ensures
            *r == self.0,
    {
        &self.0
    }
}

} // verus!
