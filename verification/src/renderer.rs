//! What an overlay needs to know of the backend that draws it.

use vstd::prelude::*;

verus! {

/// A drawing backend. An overlay is generic over it and hands its values
/// through untouched.
pub trait Renderer: Sized {
    /// What drawing produces.
    type Output;

    /// The style that is drawn with where nothing else is asked for.
    type Defaults;
}

} // verus!
