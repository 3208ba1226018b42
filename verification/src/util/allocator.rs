//! Allocators: the per-mutator strategy objects that service allocation
//! requests by bumping a cursor through a region handed out by a space.

use vstd::prelude::*;
use vstd::arithmetic::div_mod::lemma_fundamental_div_mod;
use vstd::arithmetic::div_mod::lemma_mod_bound;
use vstd::arithmetic::div_mod::lemma_mod_multiples_vanish;
use vstd::arithmetic::div_mod::lemma_mod_self_0;
use vstd::arithmetic::div_mod::lemma_small_mod;
use vstd::arithmetic::mul::lemma_mul_is_distributive_add;
use crate::util::address::Address;
use crate::util::address::PAGE_BYTES;

verus! {

/// Names one allocator instance of a mutator: the `n`-th bump-pointer
/// allocator.
#[derive(Clone, Copy, PartialEq, Eq, Structural, Debug)]
pub enum AllocatorSelector {
    BumpPointer(u8),
}

impl AllocatorSelector {
    /// The allocator slot this selector names.
    pub open spec fn spec_index(self) -> int {
        match self {
            AllocatorSelector::BumpPointer(i) => i as int,
        }
    }

    /// Returns the allocator slot this selector names.
    pub fn index(self) -> (r: usize)
        ensures
            r == self.spec_index(),
    {
        match self {
            AllocatorSelector::BumpPointer(i) => i as usize,
        }
    }
}

/// The failure signal of an allocation request: the bound region cannot
/// hold the request. The runtime reacts by consulting the plan's
/// collection-required policy and retrying once; a second failure is a
/// fatal out-of-memory condition.
#[derive(Clone, Copy, PartialEq, Eq, Structural, Debug)]
pub enum AllocError {
    OutOfMemory,
}

/// The smallest multiple of `align` that is at least `cursor`.
pub open spec fn spec_align_up(cursor: int, align: int) -> int
    recommends
        0 <= cursor,
        1 <= align,
{
    cursor + ((align - cursor % align) % align)
}

/// An aligned-up cursor moves forward by less than one alignment unit and
/// lands on a multiple of the alignment.
pub proof fn lemma_align_up(cursor: int, align: int)
    requires
        0 <= cursor,
        1 <= align,
    ensures
        cursor <= spec_align_up(cursor, align),
        spec_align_up(cursor, align) < cursor + align,
        spec_align_up(cursor, align) % align == 0,
        cursor % align == 0 ==> spec_align_up(cursor, align) == cursor,
        cursor % align != 0 ==> spec_align_up(cursor, align) == cursor + align - cursor % align,
{
    let r = cursor % align;
    let q = cursor / align;
    lemma_mod_bound(cursor, align);
    lemma_fundamental_div_mod(cursor, align);
    lemma_small_mod(0nat, align as nat);
    if r == 0 {
        lemma_mod_self_0(align);
        lemma_mod_multiples_vanish(q, 0, align);
    } else {
        lemma_small_mod((align - r) as nat, align as nat);
        lemma_mul_is_distributive_add(align, q, 1);
        lemma_mod_multiples_vanish(q + 1, 0, align);
    }
}

/// A pointer-bumping allocator: services requests from the region
/// `[cursor, limit)` it was last bound to, one aligned bump at a time.
#[derive(Clone, Copy, PartialEq, Eq, Structural, Debug)]
pub struct BumpAllocator {
    pub cursor: usize,
    pub limit: usize,
}

impl BumpAllocator {
    /// The unconsumed part of the bound region never has negative length.
    pub open spec fn wf(self) -> bool {
        self.cursor <= self.limit
    }

    /// A fresh allocator bound to the empty region: its first request
    /// fails, which is the runtime's cue to hand it pages.
    pub fn new() -> (r: BumpAllocator)
        ensures
            r.cursor == 0,
            r.limit == 0,
            r.wf(),
    {
        BumpAllocator { cursor: 0, limit: 0 }
    }

    /// Rebinds the allocator to a fresh region of `pages` pages starting at
    /// `start`, abandoning whatever was left of the old region.
    pub fn rebind(&mut self, start: Address, pages: usize)
        requires
            start.raw + pages * PAGE_BYTES <= usize::MAX,
        ensures
            final(self).cursor == start.raw,
            final(self).limit == start.raw + pages * PAGE_BYTES,
            final(self).wf(),
    {
        self.cursor = start.raw;
        self.limit = start.raw + pages * PAGE_BYTES;
    }

    /// Serves one request: bumps the cursor to the next `align`-aligned
    /// address and claims `size` bytes there, exactly when the bound region
    /// still holds that many; otherwise reports exhaustion and changes
    /// nothing.
    pub fn allocate(&mut self, size: usize, align: usize) -> (r: Result<Address, AllocError>)
        requires
            old(self).wf(),
            1 <= align,
        ensures
            final(self).wf(),
            final(self).limit == old(self).limit,
            spec_align_up(old(self).cursor as int, align as int) + size <= old(self).limit ==> {
                &&& r == Ok::<Address, AllocError>(Address {
                    raw: spec_align_up(old(self).cursor as int, align as int) as usize,
                })
                &&& final(self).cursor
                    == spec_align_up(old(self).cursor as int, align as int) + size
            },
            spec_align_up(old(self).cursor as int, align as int) + size > old(self).limit ==> {
                &&& r == Err::<Address, AllocError>(AllocError::OutOfMemory)
                &&& final(self).cursor == old(self).cursor
            },
            r matches Ok(a) ==> a.raw as int % align as int == 0,
    {
        proof {
            lemma_align_up(self.cursor as int, align as int);
        }
        let rem = self.cursor % align;
        let pad: usize = if rem == 0 { 0 } else { align - rem };
        assert(self.cursor + pad == spec_align_up(self.cursor as int, align as int));
        if pad <= self.limit - self.cursor && size <= (self.limit - self.cursor) - pad {
            let result = self.cursor + pad;
            self.cursor = result + size;
            Ok(Address { raw: result })
        } else {
            Err(AllocError::OutOfMemory)
        }
    }
}

/// The allocator instances of one mutator, indexed by
/// [`AllocatorSelector`].
pub struct Allocators {
    pub bump: Vec<BumpAllocator>,
}

impl Allocators {
    /// Every allocator keeps its own invariant.
    pub open spec fn wf(self) -> bool {
        forall|i: int| 0 <= i < self.bump@.len() ==> self.bump@[i].wf()
    }

    /// One fresh, empty-bound allocator per requested slot.
    pub fn new(n: usize) -> (r: Allocators)
        ensures
            r.bump@.len() == n,
            forall|i: int| 0 <= i < n ==> r.bump@[i] == (BumpAllocator { cursor: 0, limit: 0 }),
            r.wf(),
    {
        let mut bump: Vec<BumpAllocator> = Vec::new();
        let mut i: usize = 0;
        while i < n
            invariant
                i <= n,
                bump@.len() == i,
                forall|j: int| 0 <= j < i ==> bump@[j] == (BumpAllocator { cursor: 0, limit: 0 }),
            decreases n - i,
        {
            bump.push(BumpAllocator::new());
            i = i + 1;
        }
        Allocators { bump }
    }
}

} // verus!
