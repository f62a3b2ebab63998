//! Ownership and borrowing: a buffer has one owner at a time, and is lent out
//! either to many readers or to one writer without changing hands.

use vstd::prelude::*;
use std::time::Duration;
use std::time::Instant;
use crate::clock;
use crate::clock::span_between;
use crate::zeroed;

verus! {

/// The size of the buffer whose ownership the demonstration transfers.
pub const OWNERSHIP_DEMO_SIZE: usize = 100;

/// The size of the buffer that the demonstration lends out.
pub const BORROWING_DEMO_SIZE: usize = 50;

/// The byte that a writer leaves at the front of a borrowed buffer.
pub const MARKER: u8 = 42;

/// A byte sequence with the instant of its creation.
pub struct RustBuffer {
    pub data: Vec<u8>,
    created_at: Instant,
}

/// What a round of lending observed, and the buffer back with its owner.
pub struct BorrowingTrace {
    /// The length that the reader saw.
    pub read_len: usize,
    /// The buffer after the writer has returned it.
    pub buffer: RustBuffer,
}

impl RustBuffer {
    /// The bytes that the buffer holds.
    pub closed spec fn view(&self) -> Seq<u8> {
        self.data@
    }

    /// The instant that the buffer was created at.
    pub closed spec fn created(&self) -> Instant {
        self.created_at
    }

    /// Creates a buffer of `size` zero bytes, stamped with the current instant.
    pub fn new(size: usize) -> (buffer: RustBuffer)
        ensures
            buffer@ == zeroed(size as nat),
    {
        let data = vec![0u8; size];
        assert(data@ =~= zeroed(size as nat));
        RustBuffer { data, created_at: clock::now() }
    }

    /// How long the buffer had lived at the instant `now`: the time from its
    /// creation to `now`.
    pub fn lifetime_at(&self, now: &Instant) -> (lifetime: Duration)
        ensures
            lifetime == span_between(self.created(), *now),
    {
        clock::span(&self.created_at, now)
    }

    /// How long the buffer has lived so far: the time from its creation to the
    /// instant at which the clock is read.
    pub fn lifetime(&self) -> (lifetime: Duration)
        ensures
            exists|now: Instant| lifetime == span_between(self.created(), now),
    {
        let now = clock::now();
        self.lifetime_at(&now)
    }

    /// Creates a buffer under one binding and moves it to a second one, which
    /// is handed to the caller. The first binding cannot be named afterwards:
    /// a use of it does not compile.
    pub fn demonstrate_ownership() -> (buffer2: RustBuffer)
        ensures
            buffer2@ == zeroed(OWNERSHIP_DEMO_SIZE as nat),
    {
        let buffer1 = RustBuffer::new(OWNERSHIP_DEMO_SIZE);
        let buffer2 = buffer1;
        buffer2
    }

    /// Creates a buffer, lends it to a reader and then to a writer, and hands
    /// it back with what the reader saw. The owner keeps the buffer throughout.
    pub fn demonstrate_borrowing() -> (trace: BorrowingTrace)
        ensures
            trace.read_len == BORROWING_DEMO_SIZE,
            trace.buffer@ == zeroed(BORROWING_DEMO_SIZE as nat).update(0, MARKER),
    {
        let mut buffer = RustBuffer::new(BORROWING_DEMO_SIZE);
        let read_len = read_buffer(&buffer);
        modify_buffer(&mut buffer);
        BorrowingTrace { read_len, buffer }
    }
}

/// Reads through a shared borrow: the length of the buffer.
pub fn read_buffer(buffer: &RustBuffer) -> (len: usize)
    ensures
        len == buffer@.len(),
{
    buffer.data.len()
}

/// Writes through an exclusive borrow: the first byte becomes `MARKER`, and
/// nothing else about the buffer changes.
pub fn modify_buffer(buffer: &mut RustBuffer)
    requires
        old(buffer)@.len() > 0,
    ensures
        final(buffer)@ == old(buffer)@.update(0, MARKER),
        final(buffer)@.len() == old(buffer)@.len(),
        final(buffer).created() == old(buffer).created(),
{
    buffer.data[0] = MARKER;
}

} // verus!
