//! Why a command can fail.

use vstd::prelude::*;

verus! {

/// The failure of a commit. The canvas is as it was before the call.
#[derive(Clone, Copy, Debug, PartialEq, Eq, Structural)]
pub enum CommitError {
    /// The current layer is not a layer of the document: `index` is the
    /// current layer and `layers` the number of layers, with `index >= layers`.
    InvalidLayer { index: usize, layers: usize },
}

} // verus!
