//! Space policies: the kinds of heap region a plan can compose.

pub mod immortalspace;
