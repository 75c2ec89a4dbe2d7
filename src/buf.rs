use vstd::prelude::*;

use crate::error::Error;

verus! {

/// A buffer view: the address and length of a byte range that crosses the
/// boundary without being copied. It owns nothing.
#[derive(Debug, Clone, Copy, PartialEq, Eq, Structural)]
pub struct Buf {
    base: usize,
    len: usize,
}

impl Buf {
    pub closed spec fn spec_base(&self) -> usize {
        self.base
    }

    pub closed spec fn spec_len(&self) -> usize {
        self.len
    }

    /// A view of `len` bytes from address `base`.
    pub fn new(base: usize, len: usize) -> (r: Buf)
        ensures
            r.spec_base() == base,
            r.spec_len() == len,
    {
        Buf { base, len }
    }

    /// A view of `len` bytes from address `base`, on the heap.
    pub fn allocate(base: usize, len: usize) -> (r: Result<Box<Buf>, Error>)
        ensures
            r matches Ok(b) && b.spec_base() == base && b.spec_len() == len,
    {
        Ok(Box::new(Buf { base, len }))
    }

    /// Points the view at another range.
    pub fn realloc(&mut self, base: usize, len: usize)
        ensures
            final(self).spec_base() == base,
            final(self).spec_len() == len,
    {
        self.base = base;
        self.len = len;
    }

    /// The address of the first byte.
    pub fn base(&self) -> (r: usize)
        ensures
            r == self.spec_base(),
    {
        self.base
    }

    /// Moves the view to another address and keeps its length.
    pub fn set_base(&mut self, base: usize)
        ensures
            final(self).spec_base() == base,
            final(self).spec_len() == old(self).spec_len(),
    {
        self.base = base;
    }

    /// Whether the view covers no byte.
    pub fn is_empty(&self) -> (r: bool)
        ensures
            r == (self.spec_len() == 0),
    {
        self.len == 0
    }

    /// The number of bytes in view.
    pub fn len(&self) -> (r: usize)
        ensures
            r == self.spec_len(),
    {
        self.len
    }

    /// Changes the number of bytes in view and keeps the address.
    pub fn set_len(&mut self, len: usize)
        ensures
            final(self).spec_len() == len,
            final(self).spec_base() == old(self).spec_base(),
    {
        self.len = len;
    }
}

/// The engine's name for the buffer view.
#[allow(non_camel_case_types)]
pub type uv_buf_t = Buf;

} // verus!
