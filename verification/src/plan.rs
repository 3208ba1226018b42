//! Plans: the top-level collector strategies, their shared bookkeeping and
//! their per-thread mutator contexts.

pub mod global;
pub mod mutator_context;
pub mod mygc;

use vstd::prelude::*;

verus! {

/// Why memory is being requested, used to route each allocation to the
/// allocator in charge of that kind of object.
#[derive(Clone, Copy, PartialEq, Eq, Structural, Debug)]
pub enum AllocationSemantics {
    /// An ordinary object.
    Default,
    /// An object that must never be collected.
    Immortal,
    /// A large object.
    Los,
}

/// The structural properties one plan type fixes when it is defined, read
/// by every other component to decide header layout and barrier insertion;
/// never mutated afterwards.
#[derive(Clone, Copy, PartialEq, Eq, Structural, Debug)]
pub struct PlanConstraints {
    /// Whether this plan ever moves objects.
    pub moves_objects: bool,
    /// How many bits of each object header the collector claims.
    pub gc_header_bits: usize,
    /// How many whole words of each object header the collector claims.
    pub gc_header_words: usize,
    /// How many specialized scan kinds the plan's tracing uses.
    pub num_specialized_scans: usize,
}

} // verus!
