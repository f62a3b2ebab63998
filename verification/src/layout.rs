//! Footprints of the handle types that the three disciplines rest on.

use vstd::prelude::*;
use vstd::layout::size_of;

verus! {

/// Byte sizes of a machine word and of the handles built from it.
pub struct MemoryStats {
    /// Size of `usize`.
    pub word: usize,
    /// Size of a pointer-sized value: a reference to a byte.
    pub pointer: usize,
    /// Size of a `Vec<u8>` handle, without the bytes it owns.
    pub sequence_handle: usize,
    /// Size of a `Box<[u8; 1024]>` handle, without the block it owns.
    pub block_handle: usize,
    /// Size of a `String` handle, without the text it owns.
    pub text_handle: usize,
}

impl MemoryStats {
    /// The fields agree with one another: a pointer and a boxed block take one
    /// word, a growable sequence and a text buffer take three.
    pub open spec fn consistent(self) -> bool {
        &&& self.word == size_of::<usize>()
        &&& self.pointer == self.word
        &&& self.block_handle == self.word
        &&& self.sequence_handle == 3 * self.word
        &&& self.text_handle == self.sequence_handle
    }
}

/// Calls `std::mem::size_of::<Vec<u8>>()`. Trusted: a `Vec` is documented to be
/// a (pointer, capacity, length) triplet, so its size is three words.
#[verifier::external_body]
fn sequence_handle_size() -> (n: usize)
    ensures
        n == 3 * size_of::<usize>(),
{
    std::mem::size_of::<Vec<u8>>()
}

/// Calls `std::mem::size_of::<String>()`. Trusted: a `String` is documented to
/// be made of a pointer, a length and a capacity, so its size is three words.
#[verifier::external_body]
fn text_handle_size() -> (n: usize)
    ensures
        n == 3 * size_of::<usize>(),
{
    std::mem::size_of::<String>()
}

/// Calls `std::mem::size_of::<Box<[u8; 1024]>>()`. Trusted: a `Box` of a sized
/// value is documented to be a single non-null pointer, so its size is one word.
#[verifier::external_body]
fn block_handle_size() -> (n: usize)
    ensures
        n == size_of::<usize>(),
{
    std::mem::size_of::<Box<[u8; 1024]>>()
}

/// Measures the word and the four handles on the machine at hand.
pub fn memory_stats() -> (stats: MemoryStats)
    ensures
        stats.consistent(),
        stats.word == 4 || stats.word == 8,
{
    broadcast use {
        vstd::layout::layout_of_primitives,
        vstd::layout::layout_of_references_and_pointers,
        vstd::layout::layout_of_references_and_pointers_for_sized_types,
    };

    let word: usize = std::mem::size_of::<usize>();
    let pointer: usize = std::mem::size_of::<&u8>();
    MemoryStats {
        word,
        pointer,
        sequence_handle: sequence_handle_size(),
        block_handle: block_handle_size(),
        text_handle: text_handle_size(),
    }
}

} // verus!
