//! The immortal space policy: a bounded region whose objects are never
//! collected, with page-grained reservation accounting and a declared
//! side-metadata layout.

use vstd::prelude::*;
use vstd::arithmetic::mul::lemma_mul_inequality;
use crate::util::address::Address;
use crate::util::address::PAGE_BYTES;
use crate::util::side_metadata::MetadataError;
use crate::util::side_metadata::SideMetadataSanity;
use crate::util::side_metadata::SideMetadataSpec;
use crate::util::side_metadata::spec_disjoint_from_all;
use crate::util::side_metadata::spec_valid;

verus! {

/// What one space is built from: the per-space slice of the plan's
/// construction arguments.
#[derive(Clone, Copy, PartialEq, Eq, Structural, Debug)]
pub struct CreateSpaceArgs {
    /// The plan-wide identifier of this space.
    pub id: usize,
    /// Whether fresh pages are handed out zeroed.
    pub zeroed: bool,
    /// Whether the space's pages are reserved as one contiguous run.
    pub contiguous: bool,
    /// First address of the space's region.
    pub start: Address,
    /// Size of the region, in pages: the reservation this space must not
    /// grow past.
    pub extent_pages: usize,
    /// The side-metadata region this space claims.
    pub metadata: SideMetadataSpec,
}

/// A space whose objects live until the process ends: pages are only ever
/// reserved, never reclaimed.
#[derive(Clone, Copy, PartialEq, Eq, Structural, Debug)]
pub struct ImmortalSpace {
    pub id: usize,
    pub zeroed: bool,
    pub contiguous: bool,
    pub start: Address,
    pub extent_pages: usize,
    /// Pages handed out so far.
    pub reserved: usize,
    pub metadata: SideMetadataSpec,
}

impl ImmortalSpace {
    /// The reservation is never overrun and the region fits in the address
    /// space.
    pub open spec fn wf(self) -> bool {
        &&& self.reserved <= self.extent_pages
        &&& self.start.raw + self.extent_pages * PAGE_BYTES <= usize::MAX
    }

    /// This space with its reservation count replaced: how one
    /// `acquire_pages` call changes the space and nothing else.
    pub open spec fn with_reserved(self, reserved: usize) -> ImmortalSpace {
        ImmortalSpace {
            id: self.id,
            zeroed: self.zeroed,
            contiguous: self.contiguous,
            start: self.start,
            extent_pages: self.extent_pages,
            reserved,
            metadata: self.metadata,
        }
    }

    /// Builds the space with no pages reserved yet.
    pub fn new(args: CreateSpaceArgs) -> (r: ImmortalSpace)
        requires
            args.start.raw + args.extent_pages * PAGE_BYTES <= usize::MAX,
        ensures
            r == (ImmortalSpace {
                id: args.id,
                zeroed: args.zeroed,
                contiguous: args.contiguous,
                start: args.start,
                extent_pages: args.extent_pages,
                reserved: 0,
                metadata: args.metadata,
            }),
            r.wf(),
    {
        ImmortalSpace {
            id: args.id,
            zeroed: args.zeroed,
            contiguous: args.contiguous,
            start: args.start,
            extent_pages: args.extent_pages,
            reserved: 0,
            metadata: args.metadata,
        }
    }

    /// How many pages this space has handed out.
    pub fn reserved_pages(&self) -> (r: usize)
        ensures
            r == self.reserved,
    {
        self.reserved
    }

    /// Hands out the next `pages` pages of the region — their first
    /// address — exactly when that many are still unreserved; otherwise
    /// reports exhaustion and reserves nothing.
    pub fn acquire_pages(&mut self, pages: usize) -> (r: Option<Address>)
        requires
            old(self).wf(),
        ensures
            final(self).wf(),
            final(self).id == old(self).id,
            final(self).zeroed == old(self).zeroed,
            final(self).contiguous == old(self).contiguous,
            final(self).start == old(self).start,
            final(self).extent_pages == old(self).extent_pages,
            final(self).metadata == old(self).metadata,
            old(self).reserved + pages <= old(self).extent_pages ==> {
                &&& r == Some(Address {
                    raw: (old(self).start.raw + old(self).reserved * PAGE_BYTES) as usize,
                })
                &&& final(self).reserved == old(self).reserved + pages
            },
            old(self).reserved + pages > old(self).extent_pages ==> {
                &&& r == None::<Address>
                &&& final(self).reserved == old(self).reserved
            },
    {
        if pages <= self.extent_pages - self.reserved {
            proof {
                lemma_mul_inequality(
                    self.reserved as int,
                    self.extent_pages as int,
                    PAGE_BYTES as int,
                );
            }
            let first = self.start.raw + self.reserved * PAGE_BYTES;
            self.reserved = self.reserved + pages;
            Some(Address { raw: first })
        } else {
            None
        }
    }

    /// Feeds this space's side-metadata region to the plan's sanity
    /// checker, which rejects it when it is malformed or collides with a
    /// region an earlier space claimed.
    pub fn verify_side_metadata_sanity(
        &self,
        checker: &mut SideMetadataSanity,
    ) -> (r: Result<(), MetadataError>)
        requires
            old(checker).wf(),
        ensures
            final(checker).wf(),
            !spec_valid(self.metadata) ==> r == Err::<(), MetadataError>(
                MetadataError::InvalidSpec,
            ) && final(checker).specs@ == old(checker).specs@,
            spec_valid(self.metadata) && !spec_disjoint_from_all(
                self.metadata,
                old(checker).specs@,
            ) ==> r == Err::<(), MetadataError>(MetadataError::Overlap)
                && final(checker).specs@ == old(checker).specs@,
            spec_valid(self.metadata) && spec_disjoint_from_all(
                self.metadata,
                old(checker).specs@,
            ) ==> r == Ok::<(), MetadataError>(())
                && final(checker).specs@ == old(checker).specs@.push(self.metadata),
    {
        checker.verify_spec(self.metadata)
    }
}

} // verus!
