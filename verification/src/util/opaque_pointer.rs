//! Opaque thread handles.
//!
//! The runtime identifies its threads however it likes; the engine only
//! carries these identities through, so a plain integer stands for the
//! runtime's opaque pointer.

use vstd::prelude::*;

verus! {

/// Identity of an application (mutator) thread.
#[derive(Clone, Copy, PartialEq, Eq, Structural, Debug)]
pub struct VMMutatorThread {
    pub id: usize,
}

/// Identity of a collector worker thread.
#[derive(Clone, Copy, PartialEq, Eq, Structural, Debug)]
pub struct VMWorkerThread {
    pub id: usize,
}

} // verus!
