//! The dual-location view itself: construction, accessors, reborrowing,
//! and decomposition into raw parts.

use vstd::prelude::*;
use vstd::pervasive::cloned;
use crate::errors::InOutError;

verus! {

/// A pair of one readable input location and one writable output location
/// of the same type, which are either the same storage or two separate,
/// non-overlapping storages.
///
/// The view owns its storage outright, so for as long as it exists the
/// output location cannot be observed or mutated through anything else,
/// and in the in-place case the single shared storage is held exclusively.
/// An in-place view stores nothing in `in_val`: its one storage plays both
/// roles, so a write to the output is immediately visible through the
/// input accessors, exactly as with a single memory location.
pub struct InOut<T> {
    pub(crate) in_val: Option<T>,
    pub(crate) out_val: T,
}

impl<T> InOut<T> {
    /// True when input and output are one and the same storage.
    pub open(crate) spec fn is_in_place(self) -> bool {
        self.in_val is None
    }

    /// The value currently at the input location.
    pub open(crate) spec fn input(self) -> T {
        match self.in_val {
            Some(v) => v,
            None => self.out_val,
        }
    }

    /// The value currently at the output location.
    pub open(crate) spec fn output(self) -> T {
        self.out_val
    }

    /// The in-place view over one storage holding `val`.
    pub open(crate) spec fn spec_in_place(val: T) -> InOut<T> {
        InOut { in_val: None, out_val: val }
    }

    /// The out-of-place view over two separate storages.
    pub open(crate) spec fn spec_out_of_place(input: T, output: T) -> InOut<T> {
        InOut { in_val: Some(input), out_val: output }
    }

    /// The raw parts of a view: its input storage, absent for an in-place
    /// view, and its output storage.
    pub open(crate) spec fn spec_raw(self) -> (Option<T>, T) {
        (self.in_val, self.out_val)
    }

    /// The view built over the given raw parts.
    pub open(crate) spec fn spec_from_raw(in_part: Option<T>, out_part: T) -> InOut<T> {
        InOut { in_val: in_part, out_val: out_part }
    }

    /// Get an immutable reference to the input value.
    pub fn get_in(&self) -> (r: &T)
        ensures
            *r == self.input(),
    {
        match &self.in_val {
            Some(v) => v,
            None => &self.out_val,
        }
    }

    /// Get a mutable reference to the output value.
    ///
    /// In the in-place case the returned reference leads to the single
    /// shared storage, so whatever is written through it is what the input
    /// accessors observe afterwards.
    pub fn get_out(&mut self) -> (r: &mut T)
        ensures
            *r == old(self).output(),
            final(self).output() == *final(r),
            final(self).is_in_place() == old(self).is_in_place(),
            final(self).input() == (if old(self).is_in_place() {
                *final(r)
            } else {
                old(self).input()
            }),
    {
        &mut self.out_val
    }

    /// Reborrow `self`: a shorter-lived view over the same two storages.
    ///
    /// The original view is untouchable until the returned borrow ends,
    /// and afterwards shows every change that was made through it.
    pub fn reborrow(&mut self) -> (r: &mut InOut<T>)
        ensures
            *r == *old(self),
            *final(self) == *final(r),
    {
        self
    }

    /// Consume the view and yield its raw parts. From here on nothing ties
    /// the two storages together any more; [`InOut::from_raw`] rebuilds the
    /// view from them.
    pub fn into_raw(self) -> (r: (Option<T>, T))
        ensures
            r == self.spec_raw(),
            (r.0 is None) == self.is_in_place(),
            r.0 matches Some(v) ==> v == self.input(),
            r.1 == self.output(),
    {
        (self.in_val, self.out_val)
    }

    /// Create a view from raw parts, as yielded by [`InOut::into_raw`]:
    /// an input storage, absent when input and output are to be one, and
    /// an output storage.
    pub fn from_raw(in_part: Option<T>, out_part: T) -> (r: InOut<T>)
        ensures
            r == InOut::spec_from_raw(in_part, out_part),
            r.is_in_place() == (in_part is None),
            in_part matches Some(v) ==> r.input() == v,
            in_part is None ==> r.input() == out_part,
            r.output() == out_part,
    {
        InOut { in_val: in_part, out_val: out_part }
    }
}

impl<T: Clone> InOut<T> {
    /// Clone the input value and return it, leaving the view as it is.
    pub fn clone_in(&self) -> (r: T)
        ensures
            cloned(self.input(), r),
    {
        match &self.in_val {
            Some(v) => v.clone(),
            None => self.out_val.clone(),
        }
    }
}

impl<T: Copy> InOut<Vec<T>> {
    /// The element view at position `pos` of a view over a buffer: a
    /// snapshot of the input element and the output element there, in
    /// place exactly when the whole view is. Writing the element back is
    /// [`InOut::put`]'s job.
    ///
    /// Fails with `BoundsViolation` when `pos` is at or past the end of
    /// either buffer.
    pub fn get(&self, pos: usize) -> (r: Result<InOut<T>, InOutError>)
        ensures
            match r {
                Ok(elem) => {
                    &&& pos < self.input()@.len()
                    &&& pos < self.output()@.len()
                    &&& elem.is_in_place() == self.is_in_place()
                    &&& elem.input() == self.input()@[pos as int]
                    &&& elem.output() == self.output()@[pos as int]
                },
                Err(e) => {
                    &&& e == InOutError::BoundsViolation
                    &&& pos >= self.input()@.len() || pos >= self.output()@.len()
                },
            },
    {
        match &self.in_val {
            None => {
                if pos < self.out_val.len() {
                    Ok(InOut { in_val: None, out_val: self.out_val[pos] })
                } else {
                    Err(InOutError::BoundsViolation)
                }
            },
            Some(inp) => {
                if pos < inp.len() && pos < self.out_val.len() {
                    Ok(InOut { in_val: Some(inp[pos]), out_val: self.out_val[pos] })
                } else {
                    Err(InOutError::BoundsViolation)
                }
            },
        }
    }

    /// Write the output value of an element view back into the buffer at
    /// position `pos` — the converse of [`InOut::get`]. Only the output
    /// buffer is written; when the view is in place that single storage is
    /// what the input accessors read, too.
    ///
    /// Fails with `BoundsViolation`, changing nothing, when `pos` is at or
    /// past the end of the output buffer.
    pub fn put(&mut self, pos: usize, elem: &InOut<T>) -> (r: Result<(), InOutError>)
        ensures
            match r {
                Ok(()) => {
                    &&& pos < old(self).output()@.len()
                    &&& final(self).is_in_place() == old(self).is_in_place()
                    &&& final(self).output()@ == old(self).output()@.update(
                        pos as int,
                        elem.output(),
                    )
                    &&& final(self).input() == (if old(self).is_in_place() {
                        final(self).output()
                    } else {
                        old(self).input()
                    })
                },
                Err(e) => {
                    &&& e == InOutError::BoundsViolation
                    &&& pos >= old(self).output()@.len()
                    &&& *final(self) == *old(self)
                },
            },
    {
        if pos < self.out_val.len() {
            self.out_val[pos] = elem.out_val;
            Ok(())
        } else {
            Err(InOutError::BoundsViolation)
        }
    }
}

impl<T> From<T> for InOut<T> {
    /// Construct the in-place view: the one storage holding `val` plays
    /// both the input and the output role.
    fn from(val: T) -> Self {
        InOut { in_val: None, out_val: val }
    }
}

impl<T> vstd::std_specs::convert::FromSpecImpl<T> for InOut<T> {
    open spec fn obeys_from_spec() -> bool {
        true
    }

    open spec fn from_spec(val: T) -> Self {
        InOut::spec_in_place(val)
    }
}

impl<T> From<(T, T)> for InOut<T> {
    /// Construct the out-of-place view from a pair of separate storages:
    /// the input one first, the output one second.
    fn from(vals: (T, T)) -> Self {
        InOut { in_val: Some(vals.0), out_val: vals.1 }
    }
}

impl<T> vstd::std_specs::convert::FromSpecImpl<(T, T)> for InOut<T> {
    open spec fn obeys_from_spec() -> bool {
        true
    }

    open spec fn from_spec(vals: (T, T)) -> Self {
        InOut::spec_out_of_place(vals.0, vals.1)
    }
}

/// Aliasing identity law: the in-place view over any value is in place,
/// and its two roles observe one and the same storage, holding that value.
pub proof fn lemma_in_place_aliases<T>(val: T)
    ensures
        InOut::spec_in_place(val).is_in_place(),
        InOut::spec_in_place(val).input() == InOut::spec_in_place(val).output(),
        InOut::spec_in_place(val).output() == val,
{
}

/// Aliasing identity, stated of every view: whenever a view is in place,
/// whatever has been written to its output is what its input reads.
pub proof fn lemma_in_place_identity<T>(w: InOut<T>)
    requires
        w.is_in_place(),
    ensures
        w.input() == w.output(),
{
}

/// Non-aliasing law: the out-of-place view over two storages is not in
/// place — it reads the one and writes the other, and no write to the
/// output is ever seen through the input.
pub proof fn lemma_out_of_place_separate<T>(input: T, output: T)
    ensures
        !InOut::spec_out_of_place(input, output).is_in_place(),
        InOut::spec_out_of_place(input, output).input() == input,
        InOut::spec_out_of_place(input, output).output() == output,
{
}

/// Decompose round-trip law: rebuilding a view from the raw parts of a
/// decomposed one yields that very view back.
pub proof fn lemma_raw_round_trip<T>(w: InOut<T>)
    ensures
        InOut::spec_from_raw(w.spec_raw().0, w.spec_raw().1) == w,
{
}

} // verus!
