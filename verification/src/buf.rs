//! Hand-off to the variable-length counterpart of the view.

use vstd::prelude::*;
use crate::dual::InOut;

verus! {

/// The variable-length counterpart of [`InOut`]: the same two storages,
/// with the length a run-time value rather than part of the pointed-to
/// type. This crate only hands views off to it and defines no operations
/// on it.
pub struct InOutBuf<T> {
    pub(crate) in_vals: Option<Vec<T>>,
    pub(crate) out_vals: Vec<T>,
}

impl<T> InOutBuf<T> {
    /// True when input and output are one and the same storage.
    pub open(crate) spec fn is_in_place(self) -> bool {
        self.in_vals is None
    }

    /// The sequence of values at the input location.
    pub open(crate) spec fn input(self) -> Seq<T> {
        match self.in_vals {
            Some(v) => v@,
            None => self.out_vals@,
        }
    }

    /// The sequence of values at the output location.
    pub open(crate) spec fn output(self) -> Seq<T> {
        self.out_vals@
    }

    /// The number of elements the buffers hold.
    pub fn len(&self) -> (n: usize)
        ensures
            n == self.output().len(),
    {
        self.out_vals.len()
    }
}

impl<T> InOut<Vec<T>> {
    /// Convert a view over a buffer into the variable-length form, with the
    /// length fixed to the buffer's length. Pure hand-off: the storages and
    /// their contents are unchanged.
    pub fn into_buf(self) -> (r: InOutBuf<T>)
        ensures
            r.is_in_place() == self.is_in_place(),
            r.input() == self.input()@,
            r.output() == self.output()@,
            r.output().len() == self.output()@.len(),
    {
        InOutBuf { in_vals: self.in_val, out_vals: self.out_val }
    }
}

} // verus!
