//! Read access to the text that the system clipboard holds.

use vstd::prelude::*;

verus! {

/// Something that text can be pasted from.
///
/// What it holds is not in the hands of whoever reads it: another program
/// may change it at any time. So nothing is promised of what is read, not
/// even that reading twice gives the same.
pub trait Clipboard {
    /// Reads the text that can be pasted, if there is any.
    fn content(&self) -> Option<String>;
}

} // verus!
