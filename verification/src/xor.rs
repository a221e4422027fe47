//! Bulk XOR transforms over byte-buffer views: the flat one-dimensional
//! shape and the nested two-dimensional shape.

use vstd::prelude::*;
use crate::dual::InOut;
use crate::errors::InOutError;

verus! {

/// Two sequences of rows have the same shape: equally many rows, and row
/// for row equally many bytes.
pub open spec fn same_shape(a: Seq<Vec<u8>>, b: Seq<Vec<u8>>) -> bool {
    &&& a.len() == b.len()
    &&& forall|i: int| 0 <= i < a.len() ==> (#[trigger] a[i])@.len() == b[i]@.len()
}

impl InOut<Vec<u8>> {
    /// XOR `data` with the bytes at the input location and write the result
    /// to the output location.
    ///
    /// The result is what the input held when the call was made, XORed byte
    /// for byte with `data` — also in the in-place case, where the write
    /// lands in the very storage the input was read from. The bytes are
    /// processed in increasing index order, each input byte read immediately
    /// before its output byte is written, which is exactly what makes the
    /// aliased case safe at this flat shape.
    ///
    /// Fails with `ShapeMismatch`, leaving everything unchanged, unless
    /// `data` and both buffers all have the same length.
    pub fn xor_in2out(&mut self, data: &Vec<u8>) -> (r: Result<(), InOutError>)
        ensures
            match r {
                Ok(()) => {
                    &&& old(self).input()@.len() == data@.len()
                    &&& old(self).output()@.len() == data@.len()
                    &&& final(self).is_in_place() == old(self).is_in_place()
                    &&& final(self).output()@.len() == data@.len()
                    &&& forall|i: int|
                        0 <= i < data@.len() ==> final(self).output()@[i] == (
                        old(self).input()@[i] ^ data@[i])
                    &&& final(self).input() == (if old(self).is_in_place() {
                        final(self).output()
                    } else {
                        old(self).input()
                    })
                },
                Err(e) => {
                    &&& e == InOutError::ShapeMismatch
                    &&& !(old(self).input()@.len() == data@.len()
                        && old(self).output()@.len() == data@.len())
                    &&& *final(self) == *old(self)
                },
            },
    {
        let n = data.len();
        if self.out_val.len() != n {
            return Err(InOutError::ShapeMismatch);
        }
        match &self.in_val {
            None => {
                let mut i: usize = 0;
                while i < n
                    invariant
                        n == data@.len(),
                        i <= n,
                        self.in_val == old(self).in_val,
                        self.in_val is None,
                        self.out_val@.len() == n,
                        forall|j: int|
                            0 <= j < i ==> self.out_val@[j] == (old(self).out_val@[j] ^ data@[j]),
                        forall|j: int| i <= j < n ==> self.out_val@[j] == old(self).out_val@[j],
                    decreases n - i,
                {
                    let b = self.out_val[i] ^ data[i];
                    self.out_val[i] = b;
                    i += 1;
                }
                Ok(())
            },
            Some(input) => {
                if input.len() != n {
                    return Err(InOutError::ShapeMismatch);
                }
                let mut i: usize = 0;
                while i < n
                    invariant
                        n == data@.len(),
                        i <= n,
                        self.in_val == old(self).in_val,
                        self.in_val matches Some(inp) && inp@.len() == n,
                        self.out_val@.len() == n,
                        forall|j: int|
                            0 <= j < i ==> self.out_val@[j] == (old(self).input()@[j] ^ data@[j]),
                    decreases n - i,
                {
                    let b = match &self.in_val {
                        Some(inp) => inp[i],
                        None => 0u8,
                    };
                    let b2 = b ^ data[i];
                    self.out_val[i] = b2;
                    i += 1;
                }
                Ok(())
            },
        }
    }
}

impl InOut<Vec<Vec<u8>>> {
    /// XOR `data` with the rows at the input location and write the result
    /// to the output location.
    ///
    /// Row for row and byte for byte, the output becomes what the input
    /// held when the call was made, XORed with `data`. At this nested shape
    /// the whole input is first read into a private temporary, the full
    /// result is computed there, and only then is the temporary written to
    /// the output in one piece. With the output written row-wise, a partial
    /// write would clobber input rows that are still to be read when the
    /// two locations are one — the temporary makes the aliased case safe.
    ///
    /// Fails with `ShapeMismatch`, leaving everything unchanged, unless
    /// `data` and both buffers all have the same shape.
    pub fn xor_in2out(&mut self, data: &Vec<Vec<u8>>) -> (r: Result<(), InOutError>)
        ensures
            match r {
                Ok(()) => {
                    &&& same_shape(old(self).input()@, data@)
                    &&& same_shape(old(self).output()@, data@)
                    &&& final(self).is_in_place() == old(self).is_in_place()
                    &&& same_shape(final(self).output()@, data@)
                    &&& forall|i: int, j: int|
                        0 <= i < data@.len() && 0 <= j < data@[i]@.len()
                            ==> final(self).output()@[i]@[j] == (old(self).input()@[i]@[j]
                            ^ data@[i]@[j])
                    &&& final(self).input() == (if old(self).is_in_place() {
                        final(self).output()
                    } else {
                        old(self).input()
                    })
                },
                Err(e) => {
                    &&& e == InOutError::ShapeMismatch
                    &&& !(same_shape(old(self).input()@, data@) && same_shape(
                        old(self).output()@,
                        data@,
                    ))
                    &&& *final(self) == *old(self)
                },
            },
    {
        let m = data.len();
        if self.out_val.len() != m {
            return Err(InOutError::ShapeMismatch);
        }
        match &self.in_val {
            Some(inp) => {
                if inp.len() != m {
                    return Err(InOutError::ShapeMismatch);
                }
            },
            None => {},
        }
        let mut k: usize = 0;
        while k < m
            invariant
                m == data@.len(),
                k <= m,
                self.input()@.len() == m,
                self.out_val@.len() == m,
                forall|a: int| 0 <= a < k ==> (#[trigger] self.input()@[a])@.len() == data@[a]@.len(),
                forall|a: int| 0 <= a < k ==> (#[trigger] self.out_val@[a])@.len() == data@[a]@.len(),
            decreases m - k,
        {
            let in_row_len = match &self.in_val {
                Some(inp) => inp[k].len(),
                None => self.out_val[k].len(),
            };
            if in_row_len != data[k].len() || self.out_val[k].len() != data[k].len() {
                return Err(InOutError::ShapeMismatch);
            }
            k += 1;
        }
        let mut temp: Vec<Vec<u8>> = Vec::new();
        let mut i: usize = 0;
        while i < m
            invariant
                m == data@.len(),
                i <= m,
                *self == *old(self),
                self.input()@.len() == m,
                self.out_val@.len() == m,
                forall|a: int| 0 <= a < m ==> (#[trigger] self.input()@[a])@.len() == data@[a]@.len(),
                forall|a: int| 0 <= a < m ==> (#[trigger] self.out_val@[a])@.len() == data@[a]@.len(),
                temp@.len() == i,
                forall|a: int| 0 <= a < i ==> (#[trigger] temp@[a])@.len() == data@[a]@.len(),
                forall|a: int, b: int|
                    0 <= a < i && 0 <= b < data@[a]@.len() ==> temp@[a]@[b] == (
                    self.input()@[a]@[b] ^ data@[a]@[b]),
            decreases m - i,
        {
            let row_len = data[i].len();
            let mut row: Vec<u8> = Vec::new();
            let mut j: usize = 0;
            while j < row_len
                invariant
                    m == data@.len(),
                    i < m,
                    row_len == data@[i as int]@.len(),
                    j <= row_len,
                    *self == *old(self),
                    self.input()@.len() == m,
                    self.out_val@.len() == m,
                    self.input()@[i as int]@.len() == row_len,
                    row@.len() == j,
                    forall|b: int|
                        0 <= b < j ==> row@[b] == (self.input()@[i as int]@[b] ^ data@[i as
                        int]@[b]),
                decreases row_len - j,
            {
                let x = match &self.in_val {
                    Some(inp) => inp[i][j],
                    None => self.out_val[i][j],
                };
                row.push(x ^ data[i][j]);
                j += 1;
            }
            temp.push(row);
            i += 1;
        }
        self.out_val = temp;
        Ok(())
    }
}

} // verus!
