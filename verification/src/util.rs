//! Utility layer: addresses, opaque thread handles, allocators, side
//! metadata and the reference processor.

pub mod address;
pub mod allocator;
pub mod opaque_pointer;
pub mod reference_processor;
pub mod side_metadata;
