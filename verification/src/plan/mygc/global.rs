//! The MyGC plan object: its constraints, its three spaces, its
//! heap-accounting and its collection-policy entry points.

use vstd::prelude::*;
use crate::plan::PlanConstraints;
use crate::plan::global::BasePlan;
use crate::plan::global::CreateGeneralPlanArgs;
use crate::plan::global::CreateSpecificPlanArgs;
use crate::plan::global::PlanError;
use crate::plan::global::SPACE_META_BYTES;
use crate::plan::mygc::mutator::create_allocator_mapping;
use crate::plan::mutator_context::AllocatorMapping;
use crate::policy::immortalspace::ImmortalSpace;
use crate::util::address::Address;
use crate::util::address::PAGE_BYTES;
use crate::util::opaque_pointer::VMMutatorThread;
use crate::util::opaque_pointer::VMWorkerThread;
use crate::util::side_metadata::SideMetadataSanity;
use crate::util::side_metadata::SideMetadataSpec;
use crate::util::side_metadata::new_global_specs;
use crate::util::side_metadata::spec_valid;

verus! {

/// Identifier of the plan's own default space.
pub const MYGC_SPACE_ID: usize = 0;

/// Identifier of the immortal-objects space.
pub const IMMORTAL_ID: usize = 1;

/// Identifier of the large-object space.
pub const LOS_ID: usize = 2;

/// The structural properties fixed when the MyGC plan type is defined.
pub open spec fn mygc_constraints() -> PlanConstraints {
    PlanConstraints {
        moves_objects: true,
        gc_header_bits: 2,
        gc_header_words: 0,
        num_specialized_scans: 1,
    }
}

/// The MyGC plan: shared bookkeeping plus its three spaces. Exactly one
/// plan exists for the life of the runtime; the set of spaces never
/// changes after construction.
pub struct MyGC {
    pub base: BasePlan,
    pub mygc_space: ImmortalSpace,
    pub immortal: ImmortalSpace,
    pub los: ImmortalSpace,
}

/// Sum of the reserved pages of a run of spaces.
pub open spec fn spec_sum_reserved(spaces: Seq<ImmortalSpace>) -> int
    decreases spaces.len(),
{
    if spaces.len() == 0 {
        0
    } else {
        spaces[0].reserved + spec_sum_reserved(spaces.drop_first())
    }
}

impl MyGC {
    /// Every space keeps its invariant and the heap accounting can never
    /// overflow: even fully reserved spaces sum within the address space.
    pub open spec fn wf(self) -> bool {
        &&& self.mygc_space.wf()
        &&& self.immortal.wf()
        &&& self.los.wf()
        &&& self.mygc_space.extent_pages + self.immortal.extent_pages + self.los.extent_pages
            + self.base.used_pages <= usize::MAX
    }

    /// The complete set of spaces this plan owns, in construction order:
    /// the base plan's (none here), then the plan's own.
    pub open spec fn spec_spaces(self) -> Seq<ImmortalSpace> {
        seq![self.mygc_space, self.immortal, self.los]
    }

    /// Heap occupancy: every owned space's reserved pages plus the base
    /// plan's own usage.
    pub open spec fn spec_used_pages(self) -> int {
        self.mygc_space.reserved + self.immortal.reserved + self.los.reserved
            + self.base.used_pages
    }

    /// The space with identifier `id`.
    pub open spec fn spec_space_at(self, id: int) -> ImmortalSpace {
        if id == MYGC_SPACE_ID {
            self.mygc_space
        } else if id == IMMORTAL_ID {
            self.immortal
        } else {
            self.los
        }
    }

    /// The fixed constraints of this plan type.
    pub fn constraints(&self) -> (r: PlanConstraints)
        ensures
            r == mygc_constraints(),
    {
        PlanConstraints {
            moves_objects: true,
            gc_header_bits: 2,
            gc_header_words: 0,
            num_specialized_scans: 1,
        }
    }

    /// Enumerates every space owned by this plan plus any inherited from
    /// its base plan: always the same, complete set the plan was
    /// constructed with.
    pub fn get_spaces(&self) -> (r: Vec<ImmortalSpace>)
        ensures
            r@ == self.spec_spaces(),
    {
        let mut ret = self.base.get_spaces();
        ret.push(self.mygc_space);
        ret.push(self.immortal);
        ret.push(self.los);
        proof {
            assert(ret@ =~= self.spec_spaces());
        }
        ret
    }

    /// Whether the exhaustion of a space (or a generic full signal)
    /// warrants a pause, by the base plan's generic threshold policy.
    pub fn collection_required(&self, space_full: bool, _space: Option<&ImmortalSpace>) -> (r:
        bool)
        requires
            self.wf(),
        ensures
            r == (space_full || self.spec_used_pages() > self.base.total_pages),
    {
        let used = self.get_used_pages();
        self.base.collection_required(space_full, used)
    }

    /// The shared bookkeeping.
    pub fn base(&self) -> (r: &BasePlan)
        ensures
            *r == self.base,
    {
        &self.base
    }

    /// Pause hook run before tracing. This plan has no collection
    /// algorithm, so being driven through a pause is an invariant
    /// violation: the verdict is always the fatal refusal, never a silent
    /// no-op that would mask heap exhaustion, and the heap is untouched.
    pub fn prepare(&mut self, _tls: VMWorkerThread) -> (r: Result<(), PlanError>)
        ensures
            *final(self) == *old(self),
            r == Err::<(), PlanError>(PlanError::UnsupportedOperation),
    {
        Err(PlanError::UnsupportedOperation)
    }

    /// Pause hook run after tracing; refused fatally, like [`Self::prepare`].
    pub fn release(&mut self, _tls: VMWorkerThread) -> (r: Result<(), PlanError>)
        ensures
            *final(self) == *old(self),
            r == Err::<(), PlanError>(PlanError::UnsupportedOperation),
    {
        Err(PlanError::UnsupportedOperation)
    }

    /// The semantics-to-allocator table shared by every mutator of this
    /// plan; total by construction.
    pub fn get_allocator_mapping(&self) -> (r: AllocatorMapping)
        ensures
            r == crate::plan::mygc::mutator::spec_allocator_mapping(self.base.multi_space),
    {
        create_allocator_mapping(self.base.multi_space)
    }

    /// Would enqueue this plan's trace work for the external scheduler;
    /// this plan has none, so the verdict is always the fatal refusal,
    /// never a silent success.
    pub fn schedule_collection(&self) -> (r: Result<(), PlanError>)
        ensures
            r == Err::<(), PlanError>(PlanError::UnsupportedOperation),
    {
        Err(PlanError::UnsupportedOperation)
    }

    /// Heap occupancy: the sum of every owned space's reserved pages plus
    /// the base plan's own usage.
    pub fn get_used_pages(&self) -> (r: usize)
        requires
            self.wf(),
        ensures
            r == self.spec_used_pages(),
    {
        self.mygc_space.reserved_pages() + self.immortal.reserved_pages()
            + self.los.reserved_pages() + self.base.get_used_pages()
    }

    /// An explicit, runtime-initiated collection request. This plan cannot
    /// honour it, and the request is optional rather than a correctness
    /// guard, so it degrades gracefully: the plan is untouched (the
    /// receiver is shared) and the `false` verdict tells the runtime to
    /// log a diagnostic and carry on, never to abort.
    pub fn handle_user_collection_request(
        &self,
        _tls: VMMutatorThread,
        _force: bool,
        _exhaustive: bool,
    ) -> (r: bool)
        ensures
            r == false,
    {
        false
    }

    /// Hands out `pages` pages from the space with identifier `space_id`,
    /// exactly when that space's reservation still holds them; the other
    /// spaces and the base bookkeeping are untouched.
    pub fn acquire_pages(&mut self, space_id: usize, pages: usize) -> (r: Option<Address>)
        requires
            old(self).wf(),
            space_id == MYGC_SPACE_ID || space_id == IMMORTAL_ID || space_id == LOS_ID,
        ensures
            final(self).wf(),
            final(self).base == old(self).base,
            space_id != MYGC_SPACE_ID ==> final(self).mygc_space == old(self).mygc_space,
            space_id != IMMORTAL_ID ==> final(self).immortal == old(self).immortal,
            space_id != LOS_ID ==> final(self).los == old(self).los,
            ({
                let s = old(self).spec_space_at(space_id as int);
                &&& (s.reserved + pages <= s.extent_pages ==> {
                    &&& r == Some(Address {
                        raw: (s.start.raw + s.reserved * PAGE_BYTES) as usize,
                    })
                    &&& final(self).spec_space_at(space_id as int)
                        == s.with_reserved((s.reserved + pages) as usize)
                })
                &&& (s.reserved + pages > s.extent_pages ==> {
                    &&& r == None::<Address>
                    &&& final(self).spec_space_at(space_id as int) == s
                })
            }),
    {
        if space_id == MYGC_SPACE_ID {
            self.mygc_space.acquire_pages(pages)
        } else if space_id == IMMORTAL_ID {
            self.immortal.acquire_pages(pages)
        } else {
            self.los.acquire_pages(pages)
        }
    }

    /// Two-stage construction: the general arguments are combined with
    /// this plan type's constraints and the initially-empty process-wide
    /// side-metadata list; each space is built from its slice of those
    /// arguments and registers its own side-metadata region; finally every
    /// region — the base plan's and each space's — runs through the sanity
    /// checker, which is proved to accept this layout, so a metadata
    /// defect can never survive construction.
    pub fn new(args: CreateGeneralPlanArgs) -> (r: MyGC)
        requires
            args.heap_start.raw + 3 * args.total_pages * PAGE_BYTES <= usize::MAX,
        ensures
            r.wf(),
            r.base.total_pages == args.total_pages,
            r.base.used_pages == 0,
            r.base.multi_space == args.multi_space,
            r.base.global_specs@ == Seq::<SideMetadataSpec>::empty(),
            r.mygc_space.id == MYGC_SPACE_ID && r.immortal.id == IMMORTAL_ID && r.los.id
                == LOS_ID,
            r.mygc_space.zeroed == args.zeroing,
            r.immortal.zeroed == true && r.los.zeroed == true,
            !r.mygc_space.contiguous && !r.immortal.contiguous && !r.los.contiguous,
            r.mygc_space.start == args.heap_start,
            r.immortal.start.raw == args.heap_start.raw + args.total_pages * PAGE_BYTES,
            r.los.start.raw == args.heap_start.raw + 2 * args.total_pages * PAGE_BYTES,
            r.mygc_space.extent_pages == args.total_pages,
            r.immortal.extent_pages == args.total_pages,
            r.los.extent_pages == args.total_pages,
            r.mygc_space.reserved == 0 && r.immortal.reserved == 0 && r.los.reserved == 0,
            r.mygc_space.metadata == (SideMetadataSpec {
                offset: 0,
                num_bytes: SPACE_META_BYTES,
            }),
            r.immortal.metadata == (SideMetadataSpec {
                offset: SPACE_META_BYTES,
                num_bytes: SPACE_META_BYTES,
            }),
            r.los.metadata == (SideMetadataSpec {
                offset: (2 * SPACE_META_BYTES) as usize,
                num_bytes: SPACE_META_BYTES,
            }),
            r.spec_used_pages() == 0,
    {
        let plan_args = CreateSpecificPlanArgs {
            global_args: args,
            constraints: PlanConstraints {
                moves_objects: true,
                gc_header_bits: 2,
                gc_header_words: 0,
                num_specialized_scans: 1,
            },
            global_side_metadata_specs: new_global_specs(),
        };

        let mygc_space = ImmortalSpace::new(plan_args.get_space_args(
            MYGC_SPACE_ID,
            args.zeroing,
            false,
        ));
        let immortal = ImmortalSpace::new(plan_args.get_space_args(IMMORTAL_ID, true, false));
        let los = ImmortalSpace::new(plan_args.get_space_args(LOS_ID, true, false));
        let base = BasePlan::new(plan_args);

        let res = MyGC { base, mygc_space, immortal, los };

        let mut checker = SideMetadataSanity::new();
        let _base_verdict = res.base.verify_side_metadata_sanity(&mut checker);
        let _mygc_verdict = res.mygc_space.verify_side_metadata_sanity(&mut checker);
        let _immortal_verdict = res.immortal.verify_side_metadata_sanity(&mut checker);
        let _los_verdict = res.los.verify_side_metadata_sanity(&mut checker);
        proof {
            assert(spec_valid(res.mygc_space.metadata));
            assert(spec_valid(res.immortal.metadata));
            assert(spec_valid(res.los.metadata));
            assert(_base_verdict is Ok);
            assert(_mygc_verdict is Ok);
            assert(_immortal_verdict is Ok);
            assert(_los_verdict is Ok);
        }

        res
    }
}

/// Heap accounting adds up: for any plan, the reserved pages of the spaces
/// `get_spaces` enumerates, plus the base plan's own usage, are exactly
/// its reported occupancy.
pub proof fn lemma_used_pages_accounting(p: MyGC)
    ensures
        spec_sum_reserved(p.spec_spaces()) + p.base.used_pages == p.spec_used_pages(),
{
    reveal_with_fuel(spec_sum_reserved, 4);
    assert(p.spec_spaces().drop_first() =~= seq![p.immortal, p.los]);
    assert(p.spec_spaces().drop_first().drop_first() =~= seq![p.los]);
    assert(p.spec_spaces().drop_first().drop_first().drop_first()
        =~= Seq::<ImmortalSpace>::empty());
}

} // verus!
