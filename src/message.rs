//! A byte buffer with headroom in front, where headers are prepended and stripped.
use vstd::prelude::*;

use crate::bytes::{concat, slice_to_vec};

verus! {

/// A packet under construction or being taken apart: `bytes` is its content and `pad`
/// the free room in front of it, into which headers may be pushed. The buffer is taken
/// to start on an aligned address, so the content is aligned to `n` when `n` divides `pad`.
pub struct Message {
    pub bytes: Vec<u8>,
    pub pad: usize,
}

#[derive(Debug, Clone, Copy, PartialEq, Eq)]
pub enum MessageError {
    /// Not enough room in front of the content.
    NoPadding,
    /// The content is shorter than what was asked for.
    Underflow,
}

impl Message {
    /// Room and content together fit in the address space.
    pub open spec fn wf(&self) -> bool {
        self.pad + self.bytes@.len() <= usize::MAX
    }

    /// An empty message with `padding` bytes of headroom.
    pub fn new(padding: usize) -> (m: Message)
        ensures
            m.wf(),
            m.bytes@ == Seq::<u8>::empty(),
            m.pad == padding,
    {
        Message { bytes: Vec::new(), pad: padding }
    }

    /// A message holding `data`, with `padding` bytes of headroom.
    pub fn from_bytes(padding: usize, data: Vec<u8>) -> (m: Message)
        requires
            padding + data@.len() <= usize::MAX,
        ensures
            m.wf(),
            m.bytes@ == data@,
            m.pad == padding,
    {
        Message { bytes: data, pad: padding }
    }

    pub fn len(&self) -> (r: usize)
        ensures
            r == self.bytes@.len(),
    {
        self.bytes.len()
    }

    pub fn pad(&self) -> (r: usize)
        ensures
            r == self.pad,
    {
        self.pad
    }

    /// Headroom and content together.
    pub fn cap(&self) -> (r: usize)
        requires
            self.wf(),
        ensures
            r == self.pad + self.bytes@.len(),
    {
        self.pad + self.bytes.len()
    }

    pub fn is_aligned_to(&self, n: usize) -> (r: bool)
        requires
            n > 0,
        ensures
            r == (self.pad % n == 0),
    {
        self.pad % n == 0
    }

    pub fn bytes(&self) -> (r: &[u8])
        ensures
            r@ == self.bytes@,
    {
        self.bytes.as_slice()
    }

    /// Prepends `b`, taking its room from the headroom.
    pub fn push_bytes(&mut self, b: &[u8]) -> (r: Result<(), MessageError>)
        requires
            old(self).wf(),
        ensures
            final(self).wf(),
            r is Ok <==> b@.len() <= old(self).pad,
            r is Ok ==> final(self).bytes@ == b@ + old(self).bytes@ && final(self).pad
                == old(self).pad - b@.len(),
            r is Err ==> *final(self) == *old(self) && r == Err::<(), _>(MessageError::NoPadding),
    {
        if b.len() > self.pad {
            return Err(MessageError::NoPadding);
        }
        self.bytes = concat(b, self.bytes.as_slice());
        self.pad = self.pad - b.len();
        Ok(())
    }

    /// Removes the first `n` bytes and returns them; their room joins the headroom.
    pub fn pop_bytes(&mut self, n: usize) -> (r: Result<Vec<u8>, MessageError>)
        requires
            old(self).wf(),
        ensures
            final(self).wf(),
            r is Ok <==> n <= old(self).bytes@.len(),
            r is Ok ==> r->Ok_0@ == old(self).bytes@.subrange(0, n as int) && final(self).bytes@
                == old(self).bytes@.subrange(n as int, old(self).bytes@.len() as int)
                && final(self).pad == old(self).pad + n,
            r is Err ==> *final(self) == *old(self) && r == Err::<Vec<u8>, _>(MessageError::Underflow),
    {
        if n > self.bytes.len() {
            return Err(MessageError::Underflow);
        }
        let head = slice_to_vec(self.bytes.as_slice(), 0, n);
        let len = self.bytes.len();
        self.bytes = slice_to_vec(self.bytes.as_slice(), n, len);
        self.pad = self.pad + n;
        Ok(head)
    }

    /// Replaces the content by `data`, keeping the end of the buffer where it was.
    pub(crate) fn replace(&mut self, data: Vec<u8>)
        requires
            old(self).wf(),
            data@.len() <= old(self).pad + old(self).bytes@.len(),
        ensures
            final(self).wf(),
            final(self).bytes@ == data@,
            final(self).pad + data@.len() == old(self).pad + old(self).bytes@.len(),
    {
        let total = self.pad + self.bytes.len();
        self.pad = total - data.len();
        self.bytes = data;
    }
}

} // verus!
