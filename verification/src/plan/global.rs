//! Plan-wide construction arguments, shared bookkeeping, and the errors a
//! plan's lifecycle hooks report.

use vstd::prelude::*;
use vstd::arithmetic::mul::lemma_mul_inequality;
use vstd::arithmetic::mul::lemma_mul_is_associative;
use vstd::arithmetic::mul::lemma_mul_is_distributive_add_other_way;
use vstd::arithmetic::mul::lemma_mul_nonnegative;
use crate::plan::PlanConstraints;
use crate::policy::immortalspace::CreateSpaceArgs;
use crate::policy::immortalspace::ImmortalSpace;
use crate::util::address::Address;
use crate::util::address::PAGE_BYTES;
use crate::util::side_metadata::MetadataError;
use crate::util::side_metadata::SideMetadataSanity;
use crate::util::side_metadata::SideMetadataSpec;
use crate::util::side_metadata::spec_verify_all;

verus! {

/// Bytes of the side-metadata address range set aside for each space.
pub const SPACE_META_BYTES: usize = 4096;

/// Why a plan refused a lifecycle call.
#[derive(Clone, Copy, PartialEq, Eq, Structural, Debug)]
pub enum PlanError {
    /// The plan has no collection algorithm, so the pause hook must never
    /// be reached; the runtime treats this verdict as fatal and aborts.
    UnsupportedOperation,
}

/// The VM-shared arguments every plan is constructed from, resolved once
/// at process startup.
#[derive(Clone, Copy, PartialEq, Eq, Structural, Debug)]
pub struct CreateGeneralPlanArgs {
    /// First address of the managed heap.
    pub heap_start: Address,
    /// Heap budget, in pages: both each space's reservation bound and the
    /// occupancy threshold of the generic collection-trigger policy.
    pub total_pages: usize,
    /// Whether allocation is laid out over one space per semantics rather
    /// than a single space for everything.
    pub multi_space: bool,
    /// Whether the plan's own space hands out zeroed pages.
    pub zeroing: bool,
}

/// Stage two of plan construction: the general arguments combined with the
/// plan type's constraints and the (initially empty) list of process-wide
/// side-metadata regions.
pub struct CreateSpecificPlanArgs {
    pub global_args: CreateGeneralPlanArgs,
    pub constraints: PlanConstraints,
    pub global_side_metadata_specs: Vec<SideMetadataSpec>,
}

impl CreateSpecificPlanArgs {
    /// The per-space slice of these arguments: space `id` gets the `id`-th
    /// run of `total_pages` heap pages and the `id`-th fixed-size
    /// side-metadata slot, so distinct spaces built from the same
    /// arguments never collide.
    pub fn get_space_args(&self, id: usize, zeroed: bool, contiguous: bool) -> (r: CreateSpaceArgs)
        requires
            self.global_args.heap_start.raw
                + (id + 1) * self.global_args.total_pages * PAGE_BYTES <= usize::MAX,
            (id + 1) * SPACE_META_BYTES <= usize::MAX,
        ensures
            r.id == id,
            r.zeroed == zeroed,
            r.contiguous == contiguous,
            r.start.raw == self.global_args.heap_start.raw
                + id * self.global_args.total_pages * PAGE_BYTES,
            r.extent_pages == self.global_args.total_pages,
            r.metadata == (SideMetadataSpec {
                offset: (id * SPACE_META_BYTES) as usize,
                num_bytes: SPACE_META_BYTES,
            }),
            r.start.raw + r.extent_pages * PAGE_BYTES <= usize::MAX,
    {
        proof {
            let i = id as int;
            let t = self.global_args.total_pages as int;
            let p = PAGE_BYTES as int;
            lemma_mul_nonnegative(t, p);
            lemma_mul_is_associative(i + 1, t, p);
            lemma_mul_is_associative(i, t, p);
            lemma_mul_is_distributive_add_other_way(t * p, i, 1);
            lemma_mul_inequality(1, i + 1, t * p);
        }
        let bytes = self.global_args.total_pages * PAGE_BYTES;
        let off = id * bytes;
        CreateSpaceArgs {
            id,
            zeroed,
            contiguous,
            start: Address { raw: self.global_args.heap_start.raw + off },
            extent_pages: self.global_args.total_pages,
            metadata: SideMetadataSpec {
                offset: id * SPACE_META_BYTES,
                num_bytes: SPACE_META_BYTES,
            },
        }
    }
}

/// Shared bookkeeping every plan owns: the heap budget, the plan-wide
/// configuration, the pages the base itself uses, and the process-wide
/// side-metadata regions.
pub struct BasePlan {
    /// Heap budget, in pages.
    pub total_pages: usize,
    /// Pages the base bookkeeping itself uses, over and above the plan's
    /// spaces.
    pub used_pages: usize,
    /// Whether allocation is laid out over one space per semantics.
    pub multi_space: bool,
    /// The process-wide side-metadata regions, fed to the sanity checker
    /// before any space's own region.
    pub global_specs: Vec<SideMetadataSpec>,
}

impl BasePlan {
    /// Builds the shared bookkeeping; nothing is in use yet.
    pub fn new(args: CreateSpecificPlanArgs) -> (r: BasePlan)
        ensures
            r.total_pages == args.global_args.total_pages,
            r.used_pages == 0,
            r.multi_space == args.global_args.multi_space,
            r.global_specs@ == args.global_side_metadata_specs@,
    {
        BasePlan {
            total_pages: args.global_args.total_pages,
            used_pages: 0,
            multi_space: args.global_args.multi_space,
            global_specs: args.global_side_metadata_specs,
        }
    }

    /// The spaces the base plan itself owns: none in this configuration.
    pub fn get_spaces(&self) -> (r: Vec<ImmortalSpace>)
        ensures
            r@ == Seq::<ImmortalSpace>::empty(),
    {
        Vec::new()
    }

    /// Pages the base bookkeeping uses.
    pub fn get_used_pages(&self) -> (r: usize)
        ensures
            r == self.used_pages,
    {
        self.used_pages
    }

    /// The generic collection-trigger policy: a pause is warranted when a
    /// space reports exhaustion or the plan's occupancy has grown past the
    /// heap budget.
    pub fn collection_required(&self, space_full: bool, plan_used_pages: usize) -> (r: bool)
        ensures
            r == (space_full || plan_used_pages > self.total_pages),
    {
        space_full || plan_used_pages > self.total_pages
    }

    /// Feeds the process-wide side-metadata regions to the sanity checker,
    /// before any space claims its own.
    pub fn verify_side_metadata_sanity(
        &self,
        checker: &mut SideMetadataSanity,
    ) -> (r: Result<(), MetadataError>)
        requires
            old(checker).wf(),
        ensures
            final(checker).wf(),
            (r, final(checker).specs@) == spec_verify_all(
                self.global_specs@,
                old(checker).specs@,
            ),
    {
        checker.verify_all(&self.global_specs)
    }
}

} // verus!
