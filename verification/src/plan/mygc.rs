//! The MyGC plan: an allocation-only baseline over three immortal spaces.
//! It never runs a collection, so its pause hooks refuse to be driven and
//! a user's explicit collection request is ignored rather than honoured.

pub mod global;
pub mod mutator;
