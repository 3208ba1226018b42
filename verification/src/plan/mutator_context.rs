//! Per-thread mutator state: the tables that route an allocation request
//! to the allocator for its semantics, and that bind each allocator to the
//! space it draws from.

use vstd::prelude::*;
use vstd::pervasive::VecAdditionalExecFns;
use crate::plan::AllocationSemantics;
use crate::util::address::Address;
use crate::util::address::PAGE_BYTES;
use crate::util::allocator::AllocError;
use crate::util::allocator::Allocators;
use crate::util::allocator::AllocatorSelector;
use crate::util::allocator::BumpAllocator;
use crate::util::allocator::spec_align_up;
use crate::util::opaque_pointer::VMMutatorThread;

verus! {

/// The semantics-to-allocator table of one plan type: a total mapping —
/// every semantics value routes to some selector, so a missing entry is
/// impossible by construction rather than a runtime defect.
#[derive(Clone, Copy, PartialEq, Eq, Structural, Debug)]
pub struct AllocatorMapping {
    /// Selector serving ordinary objects.
    pub for_default: AllocatorSelector,
    /// Selector serving immortal objects.
    pub for_immortal: AllocatorSelector,
    /// Selector serving large objects.
    pub for_los: AllocatorSelector,
}

impl AllocatorMapping {
    /// The selector in charge of `semantics`. Total: defined for every
    /// semantics value.
    pub open spec fn spec_get(self, semantics: AllocationSemantics) -> AllocatorSelector {
        match semantics {
            AllocationSemantics::Default => self.for_default,
            AllocationSemantics::Immortal => self.for_immortal,
            AllocationSemantics::Los => self.for_los,
        }
    }

    /// Looks up the selector in charge of `semantics`.
    pub fn get(&self, semantics: AllocationSemantics) -> (r: AllocatorSelector)
        ensures
            r == self.spec_get(semantics),
    {
        match semantics {
            AllocationSemantics::Default => self.for_default,
            AllocationSemantics::Immortal => self.for_immortal,
            AllocationSemantics::Los => self.for_los,
        }
    }
}

/// The space bound to `sel` by the first matching entry of the space
/// mapping, as a space identifier; `None` when no entry matches.
pub open spec fn spec_space_of(
    mapping: Seq<(AllocatorSelector, usize)>,
    sel: AllocatorSelector,
) -> Option<usize>
    decreases mapping.len(),
{
    if mapping.len() == 0 {
        None
    } else if mapping[0].0 == sel {
        Some(mapping[0].1)
    } else {
        spec_space_of(mapping.drop_first(), sel)
    }
}

/// The shared, immutable configuration of every mutator of one plan type:
/// the allocator mapping and the selector-to-space binding.
pub struct MutatorConfig {
    pub allocator_mapping: AllocatorMapping,
    /// Pairs of selector and the identifier of the space it draws from.
    pub space_mapping: Vec<(AllocatorSelector, usize)>,
}

/// One application thread's allocation context.
pub struct Mutator {
    /// This thread's private allocator instances.
    pub allocators: Allocators,
    /// The plan-wide routing tables, identical across this plan's
    /// mutators.
    pub config: MutatorConfig,
    /// The owning thread.
    pub mutator_tls: VMMutatorThread,
}

impl Mutator {
    /// Every semantics routes to an allocator slot that exists and to a
    /// space the mapping binds; every allocator keeps its own invariant.
    pub open spec fn wf(self) -> bool {
        &&& self.allocators.wf()
        &&& forall|s: AllocationSemantics|
            0 <= #[trigger] self.config.allocator_mapping.spec_get(s).spec_index()
                < self.allocators.bump@.len()
        &&& forall|s: AllocationSemantics|
            spec_space_of(
                self.config.space_mapping@,
                #[trigger] self.config.allocator_mapping.spec_get(s),
            ) is Some
    }

    /// Serves one allocation request: routes it to the allocator for
    /// `semantics`, which bumps its cursor to the next aligned address
    /// exactly when its bound region still holds the request, and
    /// otherwise signals exhaustion — the runtime's cue to consult the
    /// collection-trigger policy and retry once.
    pub fn allocate(
        &mut self,
        semantics: AllocationSemantics,
        size: usize,
        align: usize,
    ) -> (r: Result<Address, AllocError>)
        requires
            old(self).wf(),
            1 <= align,
        ensures
            final(self).wf(),
            final(self).config == old(self).config,
            final(self).mutator_tls == old(self).mutator_tls,
            ({
                let idx = old(self).config.allocator_mapping.spec_get(semantics).spec_index();
                let a = old(self).allocators.bump@[idx];
                &&& (spec_align_up(a.cursor as int, align as int) + size <= a.limit ==> {
                    &&& r == Ok::<Address, AllocError>(Address {
                        raw: spec_align_up(a.cursor as int, align as int) as usize,
                    })
                    &&& final(self).allocators.bump@ == old(self).allocators.bump@.update(
                        idx,
                        BumpAllocator {
                            cursor: (spec_align_up(a.cursor as int, align as int)
                                + size) as usize,
                            limit: a.limit,
                        },
                    )
                })
                &&& (spec_align_up(a.cursor as int, align as int) + size > a.limit ==> {
                    &&& r == Err::<Address, AllocError>(AllocError::OutOfMemory)
                    &&& final(self).allocators.bump@ == old(self).allocators.bump@
                })
            }),
    {
        let sel = self.config.allocator_mapping.get(semantics);
        let idx = sel.index();
        let mut a = self.allocators.bump[idx];
        let r = a.allocate(size, align);
        self.allocators.bump.set(idx, a);
        proof {
            if r is Err {
                assert(self.allocators.bump@
                    =~= old(self).allocators.bump@.update(idx as int, a));
                assert(self.allocators.bump@ =~= old(self).allocators.bump@);
            }
        }
        r
    }

    /// Rebinds the allocator for `semantics` to a fresh region of `pages`
    /// pages at `start`, handed out by its bound space.
    pub fn rebind(&mut self, semantics: AllocationSemantics, start: Address, pages: usize)
        requires
            old(self).wf(),
            start.raw + pages * PAGE_BYTES <= usize::MAX,
        ensures
            final(self).wf(),
            final(self).config == old(self).config,
            final(self).mutator_tls == old(self).mutator_tls,
            final(self).allocators.bump@ == old(self).allocators.bump@.update(
                old(self).config.allocator_mapping.spec_get(semantics).spec_index(),
                BumpAllocator {
                    cursor: start.raw,
                    limit: (start.raw + pages * PAGE_BYTES) as usize,
                },
            ),
    {
        let sel = self.config.allocator_mapping.get(semantics);
        let idx = sel.index();
        let mut a = self.allocators.bump[idx];
        a.rebind(start, pages);
        self.allocators.bump.set(idx, a);
    }

    /// The identifier of the space that serves `semantics`, read from the
    /// space mapping; a well-formed mutator always finds one.
    pub fn space_for(&self, semantics: AllocationSemantics) -> (r: Option<usize>)
        ensures
            r == spec_space_of(
                self.config.space_mapping@,
                self.config.allocator_mapping.spec_get(semantics),
            ),
            self.wf() ==> r is Some,
    {
        let sel = self.config.allocator_mapping.get(semantics);
        let mapping = &self.config.space_mapping;
        let mut i: usize = 0;
        proof {
            assert(mapping@.subrange(0, mapping@.len() as int) =~= mapping@);
        }
        while i < mapping.len()
            invariant
                i <= mapping@.len(),
                mapping@ == self.config.space_mapping@,
                sel == self.config.allocator_mapping.spec_get(semantics),
                spec_space_of(mapping@, sel) == spec_space_of(
                    mapping@.subrange(i as int, mapping@.len() as int),
                    sel,
                ),
            decreases mapping@.len() - i,
        {
            let e = mapping[i];
            proof {
                let rest = mapping@.subrange(i as int, mapping@.len() as int);
                assert(rest[0] == mapping@[i as int]);
                assert(rest.drop_first()
                    =~= mapping@.subrange(i as int + 1, mapping@.len() as int));
            }
            if e.0 == sel {
                proof {
                    let rest = mapping@.subrange(i as int, mapping@.len() as int);
                    assert(rest[0] == e);
                    assert(spec_space_of(rest, sel) == Some(e.1));
                }
                return Some(e.1);
            }
            i = i + 1;
        }
        proof {
            assert(mapping@.subrange(i as int, mapping@.len() as int)
                =~= Seq::<(AllocatorSelector, usize)>::empty());
        }
        None
    }
}

} // verus!
