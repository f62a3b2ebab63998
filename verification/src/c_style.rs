//! Manual memory management: a block is acquired and released by explicit
//! calls, and a released handle can no longer reach any byte.

use vstd::prelude::*;
use crate::zeroed;

verus! {

/// The address that a handle holds once its block has been released.
pub const EMPTY_ADDRESS: usize = 0;

/// How many leading offsets the demonstration pattern covers.
pub const PATTERN_LEN: usize = 10;

/// The size of the block that the demonstration acquires.
pub const DEMO_SIZE: usize = 100;

/// What one acquire, write, release cycle observed, step by step.
pub struct ManualTrace {
    /// The size that was asked for.
    pub requested: usize,
    /// The address that the block was acquired at.
    pub address: usize,
    /// The start of the block as read back after the pattern was written.
    pub head: Vec<u8>,
    /// The address that the release reported.
    pub released: Option<usize>,
    /// The handle's address once released. Nothing is read through it.
    pub address_after_release: usize,
}

/// A handle to an explicitly managed block: where it starts and how long it is.
pub struct Buffer {
    address: usize,
    size: usize,
    block: Vec<u8>,
}

/// Calls `Vec::as_ptr` and turns the pointer into its address. Trusted: the
/// pointer of a `Vec` is documented never to be null, whether or not the
/// vector has allocated.
#[verifier::external_body]
fn block_address(block: &Vec<u8>) -> (address: usize)
    ensures
        address != EMPTY_ADDRESS,
{
    block.as_ptr() as usize
}

/// `bytes` with the pattern written over its first `PATTERN_LEN` offsets, or
/// over all of them where it is shorter: the byte at offset `i` is `i`.
pub open spec fn with_pattern(bytes: Seq<u8>) -> Seq<u8> {
    Seq::new(bytes.len(), |i: int| if i < PATTERN_LEN { i as u8 } else { bytes[i] })
}

impl Buffer {
    /// The handle's address: `EMPTY_ADDRESS` once released.
    pub closed spec fn spec_address(&self) -> usize {
        self.address
    }

    /// The size that was asked for when the block was acquired.
    pub closed spec fn spec_size(&self) -> usize {
        self.size
    }

    /// The bytes that the handle can reach: none once released.
    pub closed spec fn bytes(&self) -> Seq<u8> {
        self.block@
    }

    /// Whether the handle still owns its block.
    pub open spec fn allocated(&self) -> bool {
        self.spec_address() != EMPTY_ADDRESS
    }

    /// A live handle reaches exactly `size` bytes, a released one none.
    pub open spec fn wf(&self) -> bool {
        self.bytes().len() == if self.allocated() { self.spec_size() as nat } else { 0 }
    }

    /// Acquires a zeroed block of `size` bytes. If the allocator cannot satisfy
    /// the request the process stops and no handle is produced.
    pub fn malloc(size: usize) -> (buffer: Buffer)
        ensures
            buffer.wf(),
            buffer.allocated(),
            buffer.spec_size() == size,
            buffer.bytes() == zeroed(size as nat),
    {
        let block = vec![0u8; size];
        let address = block_address(&block);
        assert(block@ =~= zeroed(size as nat));
        Buffer { address, size, block }
    }

    /// The handle's address.
    pub fn address(&self) -> (address: usize)
        ensures
            address == self.spec_address(),
    {
        self.address
    }

    /// The size that the block was acquired with.
    pub fn size(&self) -> (size: usize)
        ensures
            size == self.spec_size(),
    {
        self.size
    }

    /// Whether the handle still owns its block.
    pub fn is_allocated(&self) -> (live: bool)
        ensures
            live == self.allocated(),
    {
        self.address != EMPTY_ADDRESS
    }

    /// Reads the byte at `offset`. Only a live handle can be read.
    pub fn read(&self, offset: usize) -> (byte: u8)
        requires
            self.wf(),
            self.allocated(),
            offset < self.spec_size(),
        ensures
            byte == self.bytes()[offset as int],
    {
        self.block[offset]
    }

    /// Writes `byte` at `offset`. Only a live handle can be written.
    pub fn write(&mut self, offset: usize, byte: u8)
        requires
            old(self).wf(),
            old(self).allocated(),
            offset < old(self).spec_size(),
        ensures
            final(self).wf(),
            final(self).spec_address() == old(self).spec_address(),
            final(self).spec_size() == old(self).spec_size(),
            final(self).bytes() == old(self).bytes().update(offset as int, byte),
    {
        self.block[offset] = byte;
    }

    /// Writes the pattern over the start of the block.
    pub fn fill_pattern(&mut self)
        requires
            old(self).wf(),
            old(self).allocated(),
        ensures
            final(self).wf(),
            final(self).spec_address() == old(self).spec_address(),
            final(self).spec_size() == old(self).spec_size(),
            final(self).bytes() == with_pattern(old(self).bytes()),
    {
        let count: usize = if self.size < PATTERN_LEN { self.size } else { PATTERN_LEN };
        let mut i: usize = 0;
        while i < count
            invariant
                self.wf(),
                self.spec_address() == old(self).spec_address(),
                self.spec_size() == old(self).spec_size(),
                self.allocated(),
                i <= count <= PATTERN_LEN,
                count <= self.spec_size(),
                self.bytes().len() == old(self).bytes().len(),
                forall|j: int| 0 <= j < i ==> self.bytes()[j] == j as u8,
                forall|j: int| i <= j < self.bytes().len() ==> self.bytes()[j] == old(self).bytes()[j],
            decreases count - i,
        {
            self.write(i, i as u8);
            i += 1;
        }
        assert(self.bytes() =~= with_pattern(old(self).bytes()));
    }

    /// Releases the block and empties the handle. Returns the address that was
    /// released, or `None` where the handle was empty already.
    pub fn free(&mut self) -> (released: Option<usize>)
        requires
            old(self).wf(),
        ensures
            final(self).wf(),
            !final(self).allocated(),
            final(self).spec_address() == EMPTY_ADDRESS,
            final(self).spec_size() == old(self).spec_size(),
            final(self).bytes() == Seq::<u8>::empty(),
            released == if old(self).allocated() {
                Some(old(self).spec_address())
            } else {
                None
            },
    {
        if self.address != EMPTY_ADDRESS {
            let released = self.address;
            self.block = Vec::new();
            self.address = EMPTY_ADDRESS;
            Some(released)
        } else {
            assert(self.bytes() =~= Seq::<u8>::empty());
            None
        }
    }

    /// Acquires a block of `DEMO_SIZE` bytes, writes the pattern, reads the
    /// patterned bytes back, and releases the block. The released handle is
    /// only asked for its address: the hazard of reading through it is told
    /// of, never run.
    pub fn demonstrate_use_after_free() -> (trace: ManualTrace)
        ensures
            trace.requested == DEMO_SIZE,
            trace.address != EMPTY_ADDRESS,
            trace.head@ == Seq::new(PATTERN_LEN as nat, |i: int| i as u8),
            trace.released == Some(trace.address),
            trace.address_after_release == EMPTY_ADDRESS,
    {
        let mut buffer = Buffer::malloc(DEMO_SIZE);
        let address = buffer.address();
        buffer.fill_pattern();
        let mut head: Vec<u8> = Vec::new();
        let mut i: usize = 0;
        while i < PATTERN_LEN
            invariant
                buffer.wf(),
                buffer.allocated(),
                buffer.spec_size() == DEMO_SIZE,
                i <= PATTERN_LEN,
                head@.len() == i,
                forall|j: int| 0 <= j < PATTERN_LEN ==> buffer.bytes()[j] == j as u8,
                forall|j: int| 0 <= j < i ==> head@[j] == j as u8,
            decreases PATTERN_LEN - i,
        {
            head.push(buffer.read(i));
            i += 1;
        }
        assert(head@ =~= Seq::new(PATTERN_LEN as nat, |i: int| i as u8));
        let released = buffer.free();
        let address_after_release = buffer.address();
        ManualTrace { requested: DEMO_SIZE, address, head, released, address_after_release }
    }
}

} // verus!
