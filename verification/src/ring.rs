//! The byte queue each UART side owns: a fixed-capacity FIFO from the
//! `circular_buffer` crate, taken on trust at its push/pop interface and
//! viewed as the sequence of bytes it holds, oldest first.

use vstd::prelude::*;

verus! {

/// Capacity, in bytes, of each UART ring buffer.
pub const RING_CAPACITY: usize = 64;

#[verifier::external_type_specification]
#[verifier::external_body]
#[verifier::reject_recursive_types(T)]
pub struct ExFixedCircularBuffer<T, const N: usize>(circular_buffer::FixedCircularBuffer<T, N>);

/// The bytes a fixed ring buffer holds, oldest first.
pub uninterp spec fn ring_contents(b: circular_buffer::FixedCircularBuffer<u8, 64>) -> Seq<u8>;

/// A fixed-capacity FIFO byte queue. The view is the sequence of queued
/// bytes, oldest first; it never exceeds [`RING_CAPACITY`].
pub struct ByteRing {
    pub buf: circular_buffer::FixedCircularBuffer<u8, 64>,
}

impl View for ByteRing {
    type V = Seq<u8>;

    closed spec fn view(&self) -> Seq<u8> {
        ring_contents(self.buf)
    }
}

impl ByteRing {
    /// Relies on `circular_buffer::FixedCircularBuffer::new`: an empty
    /// buffer of capacity 64.
    #[verifier::external_body]
    pub fn new() -> (r: Self)
        ensures
            ring_contents(r.buf) == Seq::<u8>::empty(),
            r@ == Seq::<u8>::empty(),
    {
        ByteRing { buf: circular_buffer::FixedCircularBuffer::new() }
    }

    /// Relies on `circular_buffer::CircularBuffer::len`: the number of
    /// queued elements, at most the capacity.
    #[verifier::external_body]
    pub fn len(&self) -> (n: usize)
        ensures
            n == self@.len(),
            n <= RING_CAPACITY,
    {
        self.buf.len()
    }

    /// Relies on `circular_buffer::CircularBuffer::try_push_back`: appends
    /// at the back when there is room and reports success; when the buffer
    /// is full it is left unchanged (the queued bytes are kept, the new one
    /// is the one lost) and failure is reported.
    #[verifier::external_body]
    pub fn try_push(&mut self, byte: u8) -> (ok: bool)
        ensures
            old(self)@.len() < RING_CAPACITY ==> ok && final(self)@ == old(self)@.push(byte),
            old(self)@.len() >= RING_CAPACITY ==> !ok && final(self)@ == old(self)@,
            final(self)@.len() <= RING_CAPACITY,
    {
        self.buf.try_push_back(byte).is_ok()
    }

    /// Relies on `circular_buffer::CircularBuffer::pop_front`: removes and
    /// returns the oldest element, or nothing when the buffer is empty.
    #[verifier::external_body]
    pub fn pop(&mut self) -> (r: Option<u8>)
        ensures
            old(self)@.len() == 0 ==> r is None && final(self)@ == old(self)@,
            old(self)@.len() > 0 ==> r == Some(old(self)@[0]) && final(self)@ == old(self)@.skip(1),
            final(self)@.len() <= RING_CAPACITY,
    {
        self.buf.pop_front()
    }

    pub fn is_empty(&self) -> (r: bool)
        ensures
            r == (self@.len() == 0),
    {
        self.len() == 0
    }

    /// How many more bytes the queue can take.
    pub fn free_space(&self) -> (n: usize)
        ensures
            n == RING_CAPACITY - self@.len(),
    {
        RING_CAPACITY - self.len()
    }
}

} // verus!
