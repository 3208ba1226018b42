//! Mutator wiring for the MyGC plan: the routing tables every MyGC
//! mutator shares, and the per-thread mutator constructor.

use vstd::prelude::*;
use crate::plan::AllocationSemantics;
use crate::plan::mutator_context::AllocatorMapping;
use crate::plan::mutator_context::Mutator;
use crate::plan::mutator_context::MutatorConfig;
use crate::plan::mutator_context::spec_space_of;
use crate::plan::mygc::global::IMMORTAL_ID;
use crate::plan::mygc::global::LOS_ID;
use crate::plan::mygc::global::MYGC_SPACE_ID;
use crate::plan::mygc::global::MyGC;
use crate::util::allocator::Allocators;
use crate::util::allocator::AllocatorSelector;
use crate::util::allocator::BumpAllocator;
use crate::util::opaque_pointer::VMMutatorThread;
use crate::util::opaque_pointer::VMWorkerThread;

verus! {

/// The semantics-to-allocator table of the MyGC plan. With the
/// single-space layout every request is forced to the one default
/// allocator; with the multi-space layout each semantics gets its own
/// bump allocator. Total either way: every semantics value is mapped.
pub open spec fn spec_allocator_mapping(multi_space: bool) -> AllocatorMapping {
    if multi_space {
        AllocatorMapping {
            for_default: AllocatorSelector::BumpPointer(0),
            for_immortal: AllocatorSelector::BumpPointer(1),
            for_los: AllocatorSelector::BumpPointer(2),
        }
    } else {
        AllocatorMapping {
            for_default: AllocatorSelector::BumpPointer(0),
            for_immortal: AllocatorSelector::BumpPointer(0),
            for_los: AllocatorSelector::BumpPointer(0),
        }
    }
}

/// The selector-to-space binding of the MyGC plan: each bump allocator
/// draws from its own space in the multi-space layout, and everything
/// draws from the plan's default space otherwise.
pub open spec fn spec_space_mapping(multi_space: bool) -> Seq<(AllocatorSelector, usize)> {
    if multi_space {
        seq![
            (AllocatorSelector::BumpPointer(0), MYGC_SPACE_ID),
            (AllocatorSelector::BumpPointer(1), IMMORTAL_ID),
            (AllocatorSelector::BumpPointer(2), LOS_ID),
        ]
    } else {
        seq![(AllocatorSelector::BumpPointer(0), MYGC_SPACE_ID)]
    }
}

/// Builds the semantics-to-allocator table for the configured layout.
pub fn create_allocator_mapping(multi_space: bool) -> (r: AllocatorMapping)
    ensures
        r == spec_allocator_mapping(multi_space),
{
    if multi_space {
        AllocatorMapping {
            for_default: AllocatorSelector::BumpPointer(0),
            for_immortal: AllocatorSelector::BumpPointer(1),
            for_los: AllocatorSelector::BumpPointer(2),
        }
    } else {
        AllocatorMapping {
            for_default: AllocatorSelector::BumpPointer(0),
            for_immortal: AllocatorSelector::BumpPointer(0),
            for_los: AllocatorSelector::BumpPointer(0),
        }
    }
}

/// Builds the selector-to-space binding for the configured layout.
pub fn create_space_mapping(multi_space: bool) -> (r: Vec<(AllocatorSelector, usize)>)
    ensures
        r@ == spec_space_mapping(multi_space),
{
    let mut v: Vec<(AllocatorSelector, usize)> = Vec::new();
    v.push((AllocatorSelector::BumpPointer(0), MYGC_SPACE_ID));
    if multi_space {
        v.push((AllocatorSelector::BumpPointer(1), IMMORTAL_ID));
        v.push((AllocatorSelector::BumpPointer(2), LOS_ID));
    }
    proof {
        assert(v@ =~= spec_space_mapping(multi_space));
    }
    v
}

/// The MyGC mutator's pause-boundary hook. This plan needs no per-thread
/// work at a pause boundary, so the hook leaves the mutator exactly as it
/// found it.
pub fn mygc_mutator_noop(mutator: &mut Mutator, _tls: VMWorkerThread)
    ensures
        *final(mutator) == *old(mutator),
{
}

/// Every semantics value is mapped, and the selector it is mapped to has
/// a matching entry in the space mapping every mutator of this plan
/// carries — under either layout.
pub proof fn lemma_allocator_mapping_total(multi_space: bool)
    ensures
        forall|s: AllocationSemantics|
            spec_space_of(
                spec_space_mapping(multi_space),
                spec_allocator_mapping(multi_space).spec_get(s),
            ) is Some,
{
    reveal_with_fuel(spec_space_of, 4);
    let sm = spec_space_mapping(multi_space);
    if multi_space {
        assert(sm.drop_first() =~= seq![
            (AllocatorSelector::BumpPointer(1u8), IMMORTAL_ID),
            (AllocatorSelector::BumpPointer(2u8), LOS_ID),
        ]);
        assert(sm.drop_first().drop_first()
            =~= seq![(AllocatorSelector::BumpPointer(2u8), LOS_ID)]);
        assert(spec_space_of(sm, AllocatorSelector::BumpPointer(0)) is Some);
        assert(spec_space_of(sm, AllocatorSelector::BumpPointer(1)) is Some);
        assert(spec_space_of(sm, AllocatorSelector::BumpPointer(2)) is Some);
    } else {
        assert(spec_space_of(sm, AllocatorSelector::BumpPointer(0)) is Some);
    }
}

/// Builds one thread's mutator: the two shared routing tables for the
/// plan's configured layout, and one fresh allocator per space-mapping
/// entry, each bound to the empty region until the runtime hands it
/// pages.
pub fn create_mygc_mutator(mutator_tls: VMMutatorThread, plan: &MyGC) -> (r: Mutator)
    ensures
        r.wf(),
        r.mutator_tls == mutator_tls,
        r.config.allocator_mapping == spec_allocator_mapping(plan.base.multi_space),
        r.config.space_mapping@ == spec_space_mapping(plan.base.multi_space),
        r.allocators.bump@.len() == spec_space_mapping(plan.base.multi_space).len(),
        forall|i: int| 0 <= i < r.allocators.bump@.len()
            ==> r.allocators.bump@[i] == (BumpAllocator { cursor: 0, limit: 0 }),
{
    let multi_space = plan.base.multi_space;
    let allocator_mapping = create_allocator_mapping(multi_space);
    let space_mapping = create_space_mapping(multi_space);
    let n = space_mapping.len();
    let r = Mutator {
        allocators: Allocators::new(n),
        config: MutatorConfig { allocator_mapping, space_mapping },
        mutator_tls,
    };
    proof {
        lemma_allocator_mapping_total(multi_space);
    }
    r
}

} // verus!
