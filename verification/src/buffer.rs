//! The buffer value: an owned, growable sequence of raw bytes.

use vstd::prelude::*;
use vstd::std_specs::cmp::PartialEqSpecImpl;
use vstd::std_specs::convert::FromSpecImpl;

verus! {

/// A `buffer` value: an owned sequence of raw bytes. Any sequence is valid,
/// the empty one included. Two buffers are equal where their bytes are.
#[derive(Debug, Hash)]
pub struct Buffer(Vec<u8>);

impl View for Buffer {
    type V = Seq<u8>;

    /// The bytes, in order.
    closed spec fn view(&self) -> Seq<u8> {
        self.0@
    }
}

impl Buffer {
    /// Creates a buffer that holds `data`, unchanged.
    pub fn new(data: Vec<u8>) -> (buffer: Buffer)
        ensures
            buffer@ == data@,
    {
        Buffer(data)
    }

    /// Gives up the buffer for its bytes.
    pub fn into_vec(self) -> (data: Vec<u8>)
        ensures
            data@ == self@,
    {
        self.0
    }

    /// Creates a buffer from a source of bytes, which it holds in the source's
    /// order.
    pub fn from_iter(iter: Vec<u8>) -> (buffer: Buffer)
        ensures
            buffer@ == iter@,
    {
        Buffer(iter)
    }

    /// Appends the bytes of `iter` to the buffer, in their order.
    pub fn extend(&mut self, iter: Vec<u8>)
        ensures
            final(self)@ == old(self)@ + iter@,
    {
        let mut more = iter;
        self.0.append(&mut more);
    }
}

impl PartialEq for Buffer {
    fn eq(&self, other: &Buffer) -> (equal: bool) {
        let n = self.0.len();
        if other.0.len() != n {
            return false;
        }
        let mut i: usize = 0;
        while i < n
            invariant
                n == self.0@.len(),
                n == other.0@.len(),
                i <= n,
                forall|j: int| 0 <= j < i ==> self.0@[j] == other.0@[j],
            decreases n - i,
        {
            if self.0[i] != other.0[i] {
                return false;
            }
            i = i + 1;
        }
        assert(self.0@ =~= other.0@);
        true
    }
}

impl PartialEqSpecImpl for Buffer {
    open spec fn obeys_eq_spec() -> bool {
        true
    }

    /// `==` on buffers is equality of their bytes.
    open spec fn eq_spec(&self, other: &Buffer) -> bool {
        self@ == other@
    }
}

impl Eq for Buffer {

}

impl Clone for Buffer {
    fn clone(&self) -> (copy: Buffer)
        ensures
            copy@ == self@,
    {
        Buffer(self.0.clone())
    }
}

impl Default for Buffer {
    /// The empty buffer.
    fn default() -> (buffer: Buffer)
        ensures
            buffer@ == Seq::<u8>::empty(),
    {
        Buffer(Vec::new())
    }
}

impl From<Buffer> for Vec<u8> {
    /// The buffer's bytes, as [`Buffer::into_vec`] gives them.
    fn from(value: Buffer) -> (data: Vec<u8>)
        ensures
            data@ == value@,
    {
        value.0
    }
}

impl FromSpecImpl<Buffer> for Vec<u8> {
    open spec fn obeys_from_spec() -> bool {
        true
    }

    closed spec fn from_spec(value: Buffer) -> Vec<u8> {
        value.0
    }
}

impl AsRef<[u8]> for Buffer {
    /// The bytes, to read.
    fn as_ref(&self) -> (bytes: &[u8])
        ensures
            bytes@ == self@,
    {
        self.0.as_slice()
    }
}

impl AsMut<[u8]> for Buffer {
    /// The bytes, to change in place; what is written through the borrow is
    /// what the buffer holds afterwards.
    fn as_mut(&mut self) -> (bytes: &mut [u8])
        ensures
            bytes@ == old(self)@,
            final(bytes)@ == final(self)@,
    {
        self.0.as_mut_slice()
    }
}

} // verus!
