use mygc::plan::global::CreateGeneralPlanArgs;
use mygc::plan::global::PlanError;
use mygc::plan::mygc::global::MyGC;
use mygc::util::address::Address;
use mygc::util::opaque_pointer::VMMutatorThread;
use mygc::util::opaque_pointer::VMWorkerThread;

fn test_args() -> CreateGeneralPlanArgs {
    CreateGeneralPlanArgs {
        heap_start: Address { raw: 0x10000 },
        total_pages: 16,
        multi_space: true,
        zeroing: true,
    }
}

#[test]
fn constructs_with_three_spaces_and_nothing_used() {
    let plan = MyGC::new(test_args());
    let spaces = plan.get_spaces();
    assert_eq!(spaces.len(), 3);
    assert_eq!(spaces[0].id, 0);
    assert_eq!(spaces[1].id, 1);
    assert_eq!(spaces[2].id, 2);
    assert_eq!(plan.get_used_pages(), 0);
    for s in &spaces {
        assert_eq!(s.reserved_pages(), 0);
        assert_eq!(s.extent_pages, 16);
        assert!(!s.contiguous);
    }
    // Spaces are laid out one budget apart.
    assert_eq!(spaces[0].start.raw, 0x10000);
    assert_eq!(spaces[1].start.raw, 0x10000 + 16 * 4096);
    assert_eq!(spaces[2].start.raw, 0x10000 + 2 * 16 * 4096);
    // The default space follows the zeroing configuration; the others
    // always zero.
    assert!(spaces[0].zeroed && spaces[1].zeroed && spaces[2].zeroed);
    // Each space claims its own metadata slot.
    assert_eq!(spaces[0].metadata.offset, 0);
    assert_eq!(spaces[1].metadata.offset, 4096);
    assert_eq!(spaces[2].metadata.offset, 8192);
}

#[test]
fn constraints_are_the_declared_ones() {
    let plan = MyGC::new(test_args());
    let c = plan.constraints();
    assert!(c.moves_objects);
    assert_eq!(c.gc_header_bits, 2);
    assert_eq!(c.gc_header_words, 0);
    assert_eq!(c.num_specialized_scans, 1);
}

#[test]
fn used_pages_is_the_sum_over_spaces_plus_base() {
    let mut plan = MyGC::new(test_args());
    assert!(plan.acquire_pages(0, 3).is_some());
    assert!(plan.acquire_pages(1, 5).is_some());
    assert!(plan.acquire_pages(2, 2).is_some());
    let spaces = plan.get_spaces();
    let sum: usize = spaces.iter().map(|s| s.reserved_pages()).sum();
    assert_eq!(sum + plan.base().get_used_pages(), plan.get_used_pages());
    assert_eq!(plan.get_used_pages(), 10);
}

#[test]
fn acquire_pages_hands_out_consecutive_runs() {
    let mut plan = MyGC::new(test_args());
    let a = plan.acquire_pages(0, 2).unwrap();
    let b = plan.acquire_pages(0, 1).unwrap();
    assert_eq!(a.raw, 0x10000);
    assert_eq!(b.raw, 0x10000 + 2 * 4096);
    // The reservation bound is enforced: 16 pages per space.
    assert!(plan.acquire_pages(0, 14).is_none());
    assert!(plan.acquire_pages(0, 13).is_some());
    assert!(plan.acquire_pages(0, 1).is_none());
}

#[test]
fn collection_required_follows_the_threshold_policy() {
    let mut plan = MyGC::new(test_args());
    assert!(!plan.collection_required(false, None));
    assert!(plan.collection_required(true, None));
    // Fill all three spaces past the heap budget of 16 pages.
    assert!(plan.acquire_pages(0, 9).is_some());
    assert!(plan.acquire_pages(1, 8).is_some());
    assert!(plan.collection_required(false, None));
}

#[test]
fn user_collection_request_is_ignored_and_never_aborts() {
    let mut plan = MyGC::new(test_args());
    assert!(plan.acquire_pages(0, 4).is_some());
    let tls = VMMutatorThread { id: 7 };
    let used_before = plan.get_used_pages();
    let spaces_before = plan.get_spaces();
    for _ in 0..5 {
        let honoured = plan.handle_user_collection_request(tls, true, true);
        assert!(!honoured);
    }
    assert_eq!(plan.get_used_pages(), used_before);
    let spaces_after = plan.get_spaces();
    assert_eq!(spaces_after.len(), spaces_before.len());
    for (a, b) in spaces_before.iter().zip(spaces_after.iter()) {
        assert_eq!(a, b);
    }
}

#[test]
fn pause_hooks_refuse_fatally_on_this_plan() {
    let mut plan = MyGC::new(test_args());
    let tls = VMWorkerThread { id: 1 };
    assert_eq!(plan.prepare(tls), Err(PlanError::UnsupportedOperation));
    assert_eq!(plan.release(tls), Err(PlanError::UnsupportedOperation));
    assert_eq!(plan.schedule_collection(), Err(PlanError::UnsupportedOperation));
}
