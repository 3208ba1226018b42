//! Raw heap addresses and page-size constants.

use vstd::prelude::*;

verus! {

/// Number of bytes in one heap page.
pub const PAGE_BYTES: usize = 4096;

/// A raw address into the managed heap.
///
/// The engine never dereferences these: they are opaque cursors and table
/// entries that the surrounding runtime interprets.
#[derive(Clone, Copy, PartialEq, Eq, Structural, Debug)]
pub struct Address {
    pub raw: usize,
}

} // verus!
