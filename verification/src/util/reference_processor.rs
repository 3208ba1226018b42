//! Reference processors: per-strength registries of candidate reference
//! objects, scanned during a collection pause.
//!
//! Mutator threads register candidates while the world runs; once a pause
//! has computed final reachability (and, for a moving collector, final
//! forwarding addresses), each processor scans its nursery — the entries
//! added since the previous pause — keeps every candidate whose referent
//! survived, rewritten to its forwarded location, and drops every candidate
//! whose referent died. Outside a pause the runtime serializes writers with
//! a lock around the registry; that discipline is the caller's, so every
//! contract here speaks of one serialized call at a time.

use vstd::prelude::*;
use crate::util::address::Address;

verus! {

/// Initial capacity of a candidate table.
pub const INITIAL_SIZE: usize = 256;

/// The three reference strengths, in clearing-preference order: soft
/// references are the first to be cleared under memory pressure, phantom
/// references the last.
#[allow(non_camel_case_types)]
#[derive(Clone, Copy, PartialEq, Eq, Structural, Debug)]
pub enum Semantics {
    SOFT,
    WEAK,
    PHANTOM,
}

/// What the pause's trace found out, handed to the processors once
/// reachability and forwarding are final: each pair `(object, to)` records
/// a reachable reference object and its (possibly moved) final location.
/// An object with no entry is unreachable.
pub struct TraceResult {
    pub live: Vec<(Address, Address)>,
}

/// The final location of `obj` according to the first trace entry for it,
/// or `None` when the trace found it unreachable.
pub open spec fn spec_lookup(live: Seq<(Address, Address)>, obj: Address) -> Option<Address>
    decreases live.len(),
{
    if live.len() == 0 {
        None
    } else if live[0].0 == obj {
        Some(live[0].1)
    } else {
        spec_lookup(live.drop_first(), obj)
    }
}

impl TraceResult {
    /// Looks up the final location of `obj`, `None` when it is unreachable.
    pub fn get_forwarded(&self, obj: Address) -> (r: Option<Address>)
        ensures
            r == spec_lookup(self.live@, obj),
    {
        let mut i: usize = 0;
        proof {
            assert(self.live@.subrange(0, self.live@.len() as int) =~= self.live@);
        }
        while i < self.live.len()
            invariant
                i <= self.live@.len(),
                spec_lookup(self.live@, obj) == spec_lookup(
                    self.live@.subrange(i as int, self.live@.len() as int),
                    obj,
                ),
            decreases self.live@.len() - i,
        {
            let e = self.live[i];
            proof {
                let rest = self.live@.subrange(i as int, self.live@.len() as int);
                assert(rest[0] == self.live@[i as int]);
                assert(rest.drop_first()
                    =~= self.live@.subrange(i as int + 1, self.live@.len() as int));
            }
            if e.0 == obj {
                return Some(e.1);
            }
            i = i + 1;
        }
        proof {
            assert(self.live@.subrange(i as int, self.live@.len() as int)
                =~= Seq::<(Address, Address)>::empty());
        }
        None
    }
}

/// The table one pause scan leaves of `refs`: the candidates whose
/// referents the trace found reachable, in order, each rewritten to its
/// forwarded location; unreachable ones are cleared and dropped.
pub open spec fn spec_scan(refs: Seq<Address>, live: Seq<(Address, Address)>) -> Seq<Address>
    decreases refs.len(),
{
    if refs.len() == 0 {
        Seq::empty()
    } else {
        match spec_lookup(live, refs[0]) {
            Some(to) => seq![to] + spec_scan(refs.drop_first(), live),
            None => spec_scan(refs.drop_first(), live),
        }
    }
}

/// Scanning one more candidate appends its surviving, forwarded form — or
/// nothing, when its referent died.
pub proof fn lemma_scan_push(refs: Seq<Address>, live: Seq<(Address, Address)>, x: Address)
    ensures
        spec_scan(refs.push(x), live) == spec_scan(refs, live) + match spec_lookup(live, x) {
            Some(to) => seq![to],
            None => Seq::<Address>::empty(),
        },
    decreases refs.len(),
{
    if refs.len() == 0 {
        reveal_with_fuel(spec_scan, 2);
        assert(refs.push(x)[0] == x);
        assert(refs.push(x).drop_first() =~= Seq::<Address>::empty());
        assert(spec_scan(refs.push(x), live) =~= spec_scan(refs, live)
            + match spec_lookup(live, x) {
                Some(to) => seq![to],
                None => Seq::<Address>::empty(),
            });
    } else {
        assert(refs.push(x)[0] == refs[0]);
        assert(refs.push(x).drop_first() =~= refs.drop_first().push(x));
        lemma_scan_push(refs.drop_first(), live, x);
        assert(spec_scan(refs.push(x), live) =~= spec_scan(refs, live)
            + match spec_lookup(live, x) {
                Some(to) => seq![to],
                None => Seq::<Address>::empty(),
            });
    }
}

/// A per-strength registry of candidate reference objects.
pub struct ReferenceProcessor {
    /// The strength this processor is responsible for.
    pub semantics: Semantics,
    /// The candidate table, in registration order.
    pub references: Vec<Address>,
    /// Boundary between entries scanned in at least one earlier pause and
    /// the nursery of entries registered since.
    pub nursery_index: usize,
}

impl ReferenceProcessor {
    /// The nursery boundary never runs past the end of the table.
    pub open spec fn wf(self) -> bool {
        self.nursery_index <= self.references@.len()
    }

    /// A fresh, empty table for one strength.
    pub fn new(semantics: Semantics) -> (r: ReferenceProcessor)
        ensures
            r.semantics == semantics,
            r.references@ == Seq::<Address>::empty(),
            r.nursery_index == 0,
            r.wf(),
    {
        ReferenceProcessor {
            semantics,
            references: Vec::with_capacity(INITIAL_SIZE),
            nursery_index: 0,
        }
    }

    /// Registers one candidate: appends it to the table and touches nothing
    /// else, so no registration is ever lost and no earlier entry moves.
    /// Callers serialize concurrent registration with a lock around the
    /// registry; a pause must not be in progress.
    pub fn add_candidate(&mut self, reff: Address)
        requires
            old(self).wf(),
        ensures
            final(self).references@ == old(self).references@.push(reff),
            final(self).nursery_index == old(self).nursery_index,
            final(self).semantics == old(self).semantics,
            final(self).wf(),
    {
        self.references.push(reff);
    }

    /// One pause's scan: keeps every entry before the nursery boundary,
    /// keeps each nursery candidate whose referent the trace found
    /// reachable — rewritten to its forwarded location — and drops each
    /// whose referent died. The nursery boundary then moves to the end of
    /// the table, so the boundary never decreases across pauses.
    pub fn process(&mut self, trace: &TraceResult)
        requires
            old(self).wf(),
        ensures
            final(self).references@ == old(self).references@.subrange(
                0,
                old(self).nursery_index as int,
            ) + spec_scan(
                old(self).references@.subrange(
                    old(self).nursery_index as int,
                    old(self).references@.len() as int,
                ),
                trace.live@,
            ),
            final(self).nursery_index == final(self).references@.len(),
            old(self).nursery_index <= final(self).nursery_index,
            final(self).semantics == old(self).semantics,
            final(self).wf(),
    {
        let ghost nursery = self.nursery_index as int;
        let ghost orig = self.references@;
        let mut kept: Vec<Address> = Vec::new();
        let mut i: usize = 0;
        while i < self.nursery_index
            invariant
                self == old(self),
                old(self).wf(),
                i <= old(self).nursery_index,
                kept@ == orig.subrange(0, i as int),
                orig == self.references@,
            decreases old(self).nursery_index - i,
        {
            let a = self.references[i];
            kept.push(a);
            proof {
                assert(orig.subrange(0, i as int + 1)
                    =~= orig.subrange(0, i as int).push(orig[i as int]));
            }
            i = i + 1;
        }
        while i < self.references.len()
            invariant
                self == old(self),
                old(self).wf(),
                orig == self.references@,
                nursery == old(self).nursery_index as int,
                nursery <= i <= orig.len(),
                kept@ == orig.subrange(0, nursery) + spec_scan(
                    orig.subrange(nursery, i as int),
                    trace.live@,
                ),
            decreases orig.len() - i,
        {
            let a = self.references[i];
            match trace.get_forwarded(a) {
                Some(to) => {
                    kept.push(to);
                },
                None => {},
            }
            proof {
                lemma_scan_push(orig.subrange(nursery, i as int), trace.live@, a);
                assert(orig.subrange(nursery, i as int + 1)
                    =~= orig.subrange(nursery, i as int).push(orig[i as int]));
                assert(kept@ =~= orig.subrange(0, nursery) + spec_scan(
                    orig.subrange(nursery, i as int + 1),
                    trace.live@,
                ));
            }
            i = i + 1;
        }
        proof {
            assert(orig.subrange(nursery, orig.len() as int)
                =~= orig.subrange(nursery, i as int));
        }
        self.nursery_index = kept.len();
        self.references = kept;
    }
}

/// The location a lookup returns is always one the trace recorded as a
/// final location.
pub proof fn lemma_lookup_in_targets(live: Seq<(Address, Address)>, obj: Address)
    requires
        spec_lookup(live, obj) is Some,
    ensures
        exists|i: int|
            0 <= i < live.len() && live[i].1 == spec_lookup(live, obj)->Some_0,
    decreases live.len(),
{
    if live.len() == 0 {
    } else if live[0].0 == obj {
        assert(live[0].1 == spec_lookup(live, obj)->Some_0);
    } else {
        lemma_lookup_in_targets(live.drop_first(), obj);
        let i = choose|i: int|
            0 <= i < live.drop_first().len()
                && live.drop_first()[i].1 == spec_lookup(live.drop_first(), obj)->Some_0;
        assert(live[i + 1].1 == spec_lookup(live, obj)->Some_0);
    }
}

/// A scan never invents an entry: everything it keeps is a final location
/// the trace recorded.
pub proof fn lemma_scan_not_contains(
    refs: Seq<Address>,
    live: Seq<(Address, Address)>,
    cand: Address,
)
    requires
        forall|i: int| 0 <= i < live.len() ==> live[i].1 != cand,
    ensures
        !spec_scan(refs, live).contains(cand),
    decreases refs.len(),
{
    if refs.len() == 0 {
    } else {
        lemma_scan_not_contains(refs.drop_first(), live, cand);
        match spec_lookup(live, refs[0]) {
            Some(to) => {
                lemma_lookup_in_targets(live, refs[0]);
                assert(to != cand);
                let rest = spec_scan(refs.drop_first(), live);
                assert forall|j: int| 0 <= j < spec_scan(refs, live).len() implies
                    spec_scan(refs, live)[j] != cand by {
                    if j == 0 {
                    } else {
                        assert(spec_scan(refs, live)[j] == rest[j - 1]);
                        assert(!rest.contains(cand));
                    }
                }
            },
            None => {},
        }
    }
}

/// A registered candidate whose referent has no live root — the trace
/// records it as unreachable, and records no survivor forwarded onto its
/// address — is cleared by one pause and leaves the table, provided it was
/// a nursery entry, i.e. not also registered before the previous pause.
pub proof fn lemma_cleared_candidate_removed(
    refs: Seq<Address>,
    nursery: int,
    live: Seq<(Address, Address)>,
    cand: Address,
)
    requires
        0 <= nursery <= refs.len(),
        spec_lookup(live, cand) is None,
        !refs.subrange(0, nursery).contains(cand),
        forall|i: int| 0 <= i < live.len() ==> live[i].1 != cand,
    ensures
        !(refs.subrange(0, nursery) + spec_scan(
            refs.subrange(nursery, refs.len() as int),
            live,
        )).contains(cand),
{
    let prefix = refs.subrange(0, nursery);
    let scanned = spec_scan(refs.subrange(nursery, refs.len() as int), live);
    lemma_scan_not_contains(refs.subrange(nursery, refs.len() as int), live, cand);
    assert forall|j: int| 0 <= j < (prefix + scanned).len() implies
        (prefix + scanned)[j] != cand by {
        if j < prefix.len() {
            assert((prefix + scanned)[j] == prefix[j]);
            assert(!prefix.contains(cand));
        } else {
            assert((prefix + scanned)[j] == scanned[j - prefix.len()]);
            assert(!scanned.contains(cand));
        }
    }
}

/// The process-wide registry: one processor per strength, owned by the
/// runtime context and shared behind its lock.
pub struct ReferenceProcessors {
    pub soft: ReferenceProcessor,
    pub weak: ReferenceProcessor,
    pub phantom: ReferenceProcessor,
}

impl ReferenceProcessors {
    /// The processor in charge of one strength.
    pub open spec fn spec_get(self, semantics: Semantics) -> ReferenceProcessor {
        match semantics {
            Semantics::SOFT => self.soft,
            Semantics::WEAK => self.weak,
            Semantics::PHANTOM => self.phantom,
        }
    }

    /// Each slot holds a well-formed processor tagged with its own
    /// strength.
    pub open spec fn wf(self) -> bool {
        &&& self.soft.wf() && self.soft.semantics == Semantics::SOFT
        &&& self.weak.wf() && self.weak.semantics == Semantics::WEAK
        &&& self.phantom.wf() && self.phantom.semantics == Semantics::PHANTOM
    }

    /// A registry of three empty tables.
    pub fn new() -> (r: ReferenceProcessors)
        ensures
            r.wf(),
            forall|s: Semantics| r.spec_get(s).references@ == Seq::<Address>::empty(),
            forall|s: Semantics| r.spec_get(s).nursery_index == 0,
    {
        ReferenceProcessors {
            soft: ReferenceProcessor::new(Semantics::SOFT),
            weak: ReferenceProcessor::new(Semantics::WEAK),
            phantom: ReferenceProcessor::new(Semantics::PHANTOM),
        }
    }

    /// The processor for `semantics`, for read-only inspection.
    pub fn get(&self, semantics: Semantics) -> (r: &ReferenceProcessor)
        ensures
            *r == self.spec_get(semantics),
    {
        match semantics {
            Semantics::SOFT => &self.soft,
            Semantics::WEAK => &self.weak,
            Semantics::PHANTOM => &self.phantom,
        }
    }

    /// Registers a candidate with the processor for `semantics`; the other
    /// two strengths are untouched.
    pub fn add_candidate(&mut self, semantics: Semantics, reff: Address)
        requires
            old(self).wf(),
        ensures
            final(self).wf(),
            final(self).spec_get(semantics).references@
                == old(self).spec_get(semantics).references@.push(reff),
            final(self).spec_get(semantics).nursery_index
                == old(self).spec_get(semantics).nursery_index,
            forall|s: Semantics| s != semantics
                ==> final(self).spec_get(s) == old(self).spec_get(s),
    {
        match semantics {
            Semantics::SOFT => self.soft.add_candidate(reff),
            Semantics::WEAK => self.weak.add_candidate(reff),
            Semantics::PHANTOM => self.phantom.add_candidate(reff),
        }
    }

    /// Runs one pause's scan for `semantics`; the other two strengths are
    /// untouched. The pause discipline calls this for every strength before
    /// any mutator resumes.
    pub fn process(&mut self, semantics: Semantics, trace: &TraceResult)
        requires
            old(self).wf(),
        ensures
            final(self).wf(),
            final(self).spec_get(semantics).references@
                == old(self).spec_get(semantics).references@.subrange(
                    0,
                    old(self).spec_get(semantics).nursery_index as int,
                ) + spec_scan(
                    old(self).spec_get(semantics).references@.subrange(
                        old(self).spec_get(semantics).nursery_index as int,
                        old(self).spec_get(semantics).references@.len() as int,
                    ),
                    trace.live@,
                ),
            final(self).spec_get(semantics).nursery_index
                == final(self).spec_get(semantics).references@.len(),
            old(self).spec_get(semantics).nursery_index
                <= final(self).spec_get(semantics).nursery_index,
            forall|s: Semantics| s != semantics
                ==> final(self).spec_get(s) == old(self).spec_get(s),
    {
        match semantics {
            Semantics::SOFT => self.soft.process(trace),
            Semantics::WEAK => self.weak.process(trace),
            Semantics::PHANTOM => self.phantom.process(trace),
        }
    }
}

} // verus!
