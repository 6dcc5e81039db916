//! What a renderable component is.

use vstd::prelude::*;

verus! {

/// Conversion of a component into its borrowed form, the form that is
/// rendered. A borrowed form converts into itself.
pub trait ComponentAsRef {
    type Ref;

    fn as_ref(self) -> Self::Ref;
}

/// Marks a type as a component: a value that can be rendered as the body of a
/// response.
pub trait Component {
}

} // verus!
