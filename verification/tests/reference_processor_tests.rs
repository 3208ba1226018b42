use mygc::util::address::Address;
use mygc::util::reference_processor::ReferenceProcessor;
use mygc::util::reference_processor::ReferenceProcessors;
use mygc::util::reference_processor::Semantics;
use mygc::util::reference_processor::TraceResult;

fn addr(raw: usize) -> Address {
    Address { raw }
}

#[test]
fn registry_holds_one_processor_per_strength() {
    let registry = ReferenceProcessors::new();
    assert_eq!(registry.get(Semantics::SOFT).semantics, Semantics::SOFT);
    assert_eq!(registry.get(Semantics::WEAK).semantics, Semantics::WEAK);
    assert_eq!(registry.get(Semantics::PHANTOM).semantics, Semantics::PHANTOM);
    assert_eq!(registry.get(Semantics::WEAK).references.len(), 0);
    assert_eq!(registry.get(Semantics::WEAK).nursery_index, 0);
}

#[test]
fn dead_candidate_is_cleared_and_removed_by_one_pause() {
    // Register a candidate whose referent has no live root, then run one
    // pause with no surviving roots: the table it leaves no longer holds
    // the candidate.
    let mut rp = ReferenceProcessor::new(Semantics::WEAK);
    let cand = addr(0x1000);
    rp.add_candidate(cand);
    assert_eq!(rp.references.len(), 1);
    let trace = TraceResult { live: vec![] };
    rp.process(&trace);
    assert!(!rp.references.contains(&cand));
    assert_eq!(rp.references.len(), 0);
    assert_eq!(rp.nursery_index, 0);
}

#[test]
fn live_candidate_is_kept_and_forwarded() {
    let mut rp = ReferenceProcessor::new(Semantics::SOFT);
    rp.add_candidate(addr(0x1000));
    rp.add_candidate(addr(0x2000));
    // The trace found only the first reachable, moved to a new location.
    let trace = TraceResult { live: vec![(addr(0x1000), addr(0x9000))] };
    rp.process(&trace);
    assert_eq!(rp.references, vec![addr(0x9000)]);
    assert_eq!(rp.nursery_index, 1);
}

#[test]
fn entries_scanned_by_an_earlier_pause_stay_out_of_the_nursery() {
    let mut rp = ReferenceProcessor::new(Semantics::PHANTOM);
    let a = addr(0x1000);
    rp.add_candidate(a);
    // First pause: the candidate survives in place.
    rp.process(&TraceResult { live: vec![(a, a)] });
    assert_eq!(rp.nursery_index, 1);
    // Second pause with no survivors only scans the nursery, which holds
    // just the new entry; the old survivor stays.
    let b = addr(0x2000);
    rp.add_candidate(b);
    rp.process(&TraceResult { live: vec![] });
    assert_eq!(rp.references, vec![a]);
    assert_eq!(rp.nursery_index, 1);
}

#[test]
fn nursery_index_is_monotone_and_bounded() {
    let mut rp = ReferenceProcessor::new(Semantics::WEAK);
    let mut last = rp.nursery_index;
    for round in 0..4usize {
        for k in 0..3usize {
            rp.add_candidate(addr(0x1000 * (round + 1) + 16 * k));
            assert!(rp.nursery_index <= rp.references.len());
        }
        // Every second pause keeps one candidate alive.
        let live = if round % 2 == 0 {
            vec![(addr(0x1000 * (round + 1)), addr(0x1000 * (round + 1)))]
        } else {
            vec![]
        };
        rp.process(&TraceResult { live });
        assert!(rp.nursery_index >= last);
        assert!(rp.nursery_index <= rp.references.len());
        last = rp.nursery_index;
    }
}

#[test]
fn interleaved_registrations_are_all_kept() {
    // The registration paths of several threads, serialized by the
    // registry's lock in any order: every call appends exactly one entry,
    // so N threads adding M candidates each leave exactly N*M entries.
    let n_threads = 4usize;
    let m_each = 8usize;
    let mut registry = ReferenceProcessors::new();
    for round in 0..m_each {
        for thread in 0..n_threads {
            registry.add_candidate(Semantics::SOFT, addr(0x10000 + 0x100 * thread + round));
        }
    }
    assert_eq!(registry.get(Semantics::SOFT).references.len(), n_threads * m_each);
    assert_eq!(registry.get(Semantics::WEAK).references.len(), 0);
    assert_eq!(registry.get(Semantics::PHANTOM).references.len(), 0);
}

#[test]
fn strengths_are_processed_independently() {
    let mut registry = ReferenceProcessors::new();
    let a = addr(0x1000);
    let b = addr(0x2000);
    registry.add_candidate(Semantics::SOFT, a);
    registry.add_candidate(Semantics::WEAK, b);
    registry.process(Semantics::SOFT, &TraceResult { live: vec![] });
    assert_eq!(registry.get(Semantics::SOFT).references.len(), 0);
    // The weak table is untouched until its own scan runs.
    assert_eq!(registry.get(Semantics::WEAK).references, vec![b]);
    registry.process(Semantics::WEAK, &TraceResult { live: vec![(b, b)] });
    assert_eq!(registry.get(Semantics::WEAK).references, vec![b]);
}

#[test]
fn trace_lookup_takes_the_first_matching_entry() {
    let trace = TraceResult {
        live: vec![
            (addr(0x1000), addr(0x5000)),
            (addr(0x1000), addr(0x6000)),
            (addr(0x2000), addr(0x7000)),
        ],
    };
    assert_eq!(trace.get_forwarded(addr(0x1000)), Some(addr(0x5000)));
    assert_eq!(trace.get_forwarded(addr(0x2000)), Some(addr(0x7000)));
    assert_eq!(trace.get_forwarded(addr(0x3000)), None);
}
