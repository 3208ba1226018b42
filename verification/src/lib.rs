//! Core of a pluggable garbage-collection engine: plan/space/mutator
//! composition and reference-strength processing.
//!
//! A *plan* owns a fixed set of heap *spaces* and decides when a collection
//! pause is warranted; a *mutator* is the per-application-thread allocation
//! context that routes each allocation request to the allocator bound to the
//! requested semantics; the *reference processor* keeps, per reference
//! strength, the table of candidate reference objects that a pause scans,
//! clears or forwards.

pub mod plan;
pub mod policy;
pub mod util;
