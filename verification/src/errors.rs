//! The two failure kinds of the view operations.

use vstd::prelude::*;

verus! {

/// Everything else in this crate is total: an operation either cannot fail
/// at all, or fails with one of these two kinds.
#[derive(Clone, Copy, Debug, PartialEq, Eq, Structural)]
pub enum InOutError {
    /// An element view was requested at a position at or past the end of
    /// the underlying buffers.
    BoundsViolation,
    /// A bulk transform was invoked with buffers whose lengths (or, for the
    /// nested shape, row lengths) do not all agree.
    ShapeMismatch,
}

} // verus!
