use mygc::plan::AllocationSemantics;
use mygc::plan::global::CreateGeneralPlanArgs;
use mygc::plan::mygc::global::MyGC;
use mygc::plan::mygc::mutator::create_mygc_mutator;
use mygc::plan::mygc::mutator::mygc_mutator_noop;
use mygc::util::address::Address;
use mygc::util::allocator::AllocError;
use mygc::util::allocator::AllocatorSelector;
use mygc::util::opaque_pointer::VMMutatorThread;
use mygc::util::opaque_pointer::VMWorkerThread;

fn test_plan(multi_space: bool) -> MyGC {
    MyGC::new(CreateGeneralPlanArgs {
        heap_start: Address { raw: 0x40000 },
        total_pages: 8,
        multi_space,
        zeroing: true,
    })
}

#[test]
fn multi_space_mutator_routes_each_semantics_to_its_space() {
    let plan = test_plan(true);
    let m = create_mygc_mutator(VMMutatorThread { id: 1 }, &plan);
    assert_eq!(m.allocators.bump.len(), 3);
    assert_eq!(m.space_for(AllocationSemantics::Default), Some(0));
    assert_eq!(m.space_for(AllocationSemantics::Immortal), Some(1));
    assert_eq!(m.space_for(AllocationSemantics::Los), Some(2));
    assert_eq!(
        m.config.allocator_mapping.get(AllocationSemantics::Immortal),
        AllocatorSelector::BumpPointer(1)
    );
}

#[test]
fn single_space_mutator_routes_everything_to_the_default_space() {
    let plan = test_plan(false);
    let m = create_mygc_mutator(VMMutatorThread { id: 2 }, &plan);
    assert_eq!(m.allocators.bump.len(), 1);
    assert_eq!(m.space_for(AllocationSemantics::Default), Some(0));
    assert_eq!(m.space_for(AllocationSemantics::Immortal), Some(0));
    assert_eq!(m.space_for(AllocationSemantics::Los), Some(0));
    assert_eq!(
        m.config.allocator_mapping.get(AllocationSemantics::Los),
        AllocatorSelector::BumpPointer(0)
    );
}

#[test]
fn allocation_bumps_aligned_addresses_through_the_bound_region() {
    let mut plan = test_plan(true);
    let mut m = create_mygc_mutator(VMMutatorThread { id: 3 }, &plan);

    // A fresh allocator is bound to the empty region: the first request
    // fails, which is the cue to hand it pages.
    assert_eq!(
        m.allocate(AllocationSemantics::Default, 16, 8),
        Err(AllocError::OutOfMemory)
    );

    let space_id = m.space_for(AllocationSemantics::Default).unwrap();
    let region = plan.acquire_pages(space_id, 2).unwrap();
    assert_eq!(region.raw, 0x40000);
    m.rebind(AllocationSemantics::Default, region, 2);

    let a = m.allocate(AllocationSemantics::Default, 24, 8).unwrap();
    assert_eq!(a.raw, 0x40000);
    let b = m.allocate(AllocationSemantics::Default, 16, 16).unwrap();
    // The cursor was at 0x40018; aligned up to the next multiple of 16.
    assert_eq!(b.raw, 0x40020);
    assert_eq!(b.raw % 16, 0);
    let c = m.allocate(AllocationSemantics::Default, 1, 32).unwrap();
    assert_eq!(c.raw % 32, 0);

    // A request larger than what is left of the two pages is refused and
    // moves nothing.
    assert_eq!(
        m.allocate(AllocationSemantics::Default, 2 * 4096, 8),
        Err(AllocError::OutOfMemory)
    );
    // The cursor sits one byte past `c`; the next request aligns it up to
    // the following 8-byte boundary.
    let after = m.allocate(AllocationSemantics::Default, 8, 8).unwrap();
    assert_eq!(after.raw, c.raw + 8);
}

#[test]
fn allocators_of_different_semantics_are_independent() {
    let mut plan = test_plan(true);
    let mut m = create_mygc_mutator(VMMutatorThread { id: 4 }, &plan);
    let d = plan.acquire_pages(0, 1).unwrap();
    let i = plan.acquire_pages(1, 1).unwrap();
    m.rebind(AllocationSemantics::Default, d, 1);
    m.rebind(AllocationSemantics::Immortal, i, 1);
    let a = m.allocate(AllocationSemantics::Default, 8, 8).unwrap();
    let b = m.allocate(AllocationSemantics::Immortal, 8, 8).unwrap();
    assert_eq!(a.raw, d.raw);
    assert_eq!(b.raw, i.raw);
    // The large-object allocator is still unbound.
    assert_eq!(
        m.allocate(AllocationSemantics::Los, 8, 8),
        Err(AllocError::OutOfMemory)
    );
}

#[test]
fn mutator_noop_hook_changes_nothing() {
    let plan = test_plan(true);
    let mut m = create_mygc_mutator(VMMutatorThread { id: 5 }, &plan);
    let cursors_before: Vec<(usize, usize)> =
        m.allocators.bump.iter().map(|a| (a.cursor, a.limit)).collect();
    mygc_mutator_noop(&mut m, VMWorkerThread { id: 9 });
    let cursors_after: Vec<(usize, usize)> =
        m.allocators.bump.iter().map(|a| (a.cursor, a.limit)).collect();
    assert_eq!(cursors_before, cursors_after);
    assert_eq!(m.mutator_tls, VMMutatorThread { id: 5 });
}
