//! Side-metadata layout specifications and the construction-time sanity
//! checker.
//!
//! Every space declares where its side metadata (mark bits and the like)
//! lives, as a byte region of the metadata address range. Two spaces whose
//! regions overlap would silently corrupt each other's bookkeeping at run
//! time, so plan construction feeds every declared region through
//! [`SideMetadataSanity`], which rejects the layout eagerly.

use vstd::prelude::*;

verus! {

/// The side-metadata region one space claims: `num_bytes` bytes starting at
/// byte `offset` of the metadata address range.
#[derive(Clone, Copy, PartialEq, Eq, Structural, Debug)]
pub struct SideMetadataSpec {
    pub offset: usize,
    pub num_bytes: usize,
}

/// Why the sanity checker rejected a metadata layout.
#[derive(Clone, Copy, PartialEq, Eq, Structural, Debug)]
pub enum MetadataError {
    /// The region is empty or runs past the end of the address range.
    InvalidSpec,
    /// The region overlaps one that an earlier space already claimed.
    Overlap,
}

/// A region is well formed when it is non-empty and its end does not wrap
/// around the address space.
pub open spec fn spec_valid(s: SideMetadataSpec) -> bool {
    0 < s.num_bytes && s.offset + s.num_bytes <= usize::MAX
}

/// Two regions are disjoint when one ends at or before the other begins.
pub open spec fn spec_disjoint(a: SideMetadataSpec, b: SideMetadataSpec) -> bool {
    a.offset + a.num_bytes <= b.offset || b.offset + b.num_bytes <= a.offset
}

/// `s` is disjoint from every region in `regions`.
pub open spec fn spec_disjoint_from_all(s: SideMetadataSpec, regions: Seq<SideMetadataSpec>) -> bool {
    forall|i: int| 0 <= i < regions.len() ==> spec_disjoint(s, regions[i])
}

/// The process-wide side-metadata regions every plan shares, before any
/// plan-specific ones are added. None are needed here, so the list starts
/// empty; spaces append their own regions during construction.
pub fn new_global_specs() -> (r: Vec<SideMetadataSpec>)
    ensures
        r@ == Seq::<SideMetadataSpec>::empty(),
{
    Vec::new()
}

/// What checking `specs` one after the other against the regions in `acc`
/// leaves behind: the verdict of the first failing region — or acceptance —
/// and the regions accepted along the way.
pub open spec fn spec_verify_all(
    specs: Seq<SideMetadataSpec>,
    acc: Seq<SideMetadataSpec>,
) -> (Result<(), MetadataError>, Seq<SideMetadataSpec>)
    decreases specs.len(),
{
    if specs.len() == 0 {
        (Ok(()), acc)
    } else if !spec_valid(specs[0]) {
        (Err(MetadataError::InvalidSpec), acc)
    } else if !spec_disjoint_from_all(specs[0], acc) {
        (Err(MetadataError::Overlap), acc)
    } else {
        spec_verify_all(specs.drop_first(), acc.push(specs[0]))
    }
}

/// Accumulates the side-metadata regions of the spaces built so far and
/// rejects any new region that is malformed or collides with one of them.
pub struct SideMetadataSanity {
    pub specs: Vec<SideMetadataSpec>,
}

impl SideMetadataSanity {
    /// Every region the checker has accepted is well formed.
    pub open spec fn wf(self) -> bool {
        forall|i: int| 0 <= i < self.specs@.len() ==> spec_valid(self.specs@[i])
    }

    /// A fresh checker that has seen no regions yet.
    pub fn new() -> (r: SideMetadataSanity)
        ensures
            r.specs@ == Seq::<SideMetadataSpec>::empty(),
            r.wf(),
    {
        SideMetadataSanity { specs: Vec::new() }
    }

    /// Checks `s` against every region accepted so far: a malformed region
    /// is rejected outright, an overlapping one is rejected, and an
    /// acceptable one is recorded so later spaces are checked against it.
    pub fn verify_spec(&mut self, s: SideMetadataSpec) -> (r: Result<(), MetadataError>)
        requires
            old(self).wf(),
        ensures
            final(self).wf(),
            !spec_valid(s) ==> r == Err::<(), MetadataError>(MetadataError::InvalidSpec)
                && final(self).specs@ == old(self).specs@,
            spec_valid(s) && !spec_disjoint_from_all(s, old(self).specs@)
                ==> r == Err::<(), MetadataError>(MetadataError::Overlap)
                    && final(self).specs@ == old(self).specs@,
            spec_valid(s) && spec_disjoint_from_all(s, old(self).specs@)
                ==> r == Ok::<(), MetadataError>(())
                    && final(self).specs@ == old(self).specs@.push(s),
    {
        if s.num_bytes == 0 || s.offset > usize::MAX - s.num_bytes {
            return Err(MetadataError::InvalidSpec);
        }
        let mut i: usize = 0;
        while i < self.specs.len()
            invariant
                i <= self.specs@.len(),
                self == old(self),
                old(self).wf(),
                spec_valid(s),
                forall|j: int| 0 <= j < i ==> spec_disjoint(s, self.specs@[j]),
            decreases self.specs@.len() - i,
        {
            let e = self.specs[i];
            if !(s.offset + s.num_bytes <= e.offset || e.offset + e.num_bytes <= s.offset) {
                return Err(MetadataError::Overlap);
            }
            i = i + 1;
        }
        self.specs.push(s);
        Ok(())
    }

    /// Checks a whole list of regions in order, stopping at the first one
    /// rejected; the accepted prefix stays recorded either way.
    pub fn verify_all(&mut self, specs: &Vec<SideMetadataSpec>) -> (r: Result<(), MetadataError>)
        requires
            old(self).wf(),
        ensures
            final(self).wf(),
            (r, final(self).specs@) == spec_verify_all(specs@, old(self).specs@),
    {
        let mut i: usize = 0;
        proof {
            assert(specs@.subrange(0, specs@.len() as int) =~= specs@);
        }
        while i < specs.len()
            invariant
                old(self).wf(),
                self.wf(),
                i <= specs@.len(),
                spec_verify_all(specs@, old(self).specs@) == spec_verify_all(
                    specs@.subrange(i as int, specs@.len() as int),
                    self.specs@,
                ),
            decreases specs@.len() - i,
        {
            let s = specs[i];
            proof {
                let rest = specs@.subrange(i as int, specs@.len() as int);
                assert(rest[0] == specs@[i as int]);
                assert(rest.drop_first()
                    =~= specs@.subrange(i as int + 1, specs@.len() as int));
            }
            match self.verify_spec(s) {
                Ok(()) => {},
                Err(e) => {
                    return Err(e);
                },
            }
            i = i + 1;
        }
        proof {
            assert(specs@.subrange(i as int, specs@.len() as int)
                =~= Seq::<SideMetadataSpec>::empty());
        }
        Ok(())
    }
}

} // verus!
