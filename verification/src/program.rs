//! The program buffer.
//!
//! An immutable snapshot of the encoded instruction bytes for one run,
//! accessed only by offset-based slicing.

use vstd::prelude::*;

verus! {

/// An immutable byte buffer holding one encoded program.
pub struct Program {
    code: Vec<u8>,
}

impl View for Program {
    type V = Seq<u8>;

    /// The program bytes.
    closed spec fn view(&self) -> Seq<u8> {
        self.code@
    }
}

impl Program {
    /// Takes a snapshot of the given program bytes.
    pub fn new(code: &[u8]) -> (p: Self)
        ensures
            p@ == code@,
    {
        Program { code: vstd::slice::slice_to_vec(code) }
    }

    /// The program bytes from `start` to the end.
    pub fn slice_from(&self, start: usize) -> (r: &[u8])
        requires
            start <= self@.len(),
        ensures
            r@ == self@.skip(start as int),
    {
        let r = self.code.as_slice().split_at(start).1;
        proof {
            assert(r@ =~= self@.skip(start as int));
        }
        r
    }

    /// The length of the program in bytes.
    pub fn size(&self) -> (n: usize)
        ensures
            n == self@.len(),
    {
        self.code.len()
    }
}

} // verus!
