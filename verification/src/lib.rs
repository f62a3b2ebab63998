//! Three memory-management disciplines side by side, each as a small verified
//! component: an explicitly released block, a reference-counted shared
//! object, and an owned buffer that is lent out by borrowing. A fourth
//! component reports the in-memory footprint of a few handle types.

use vstd::prelude::*;

pub mod c_style;
pub mod clock;
pub mod gc_style;
pub mod layout;
pub mod rust_style;

verus! {

/// A sequence of `len` zero bytes: what freshly acquired storage holds.
pub open spec fn zeroed(len: nat) -> Seq<u8> {
    Seq::new(len, |i: int| 0u8)
}

} // verus!
