//! Ownership of one memory-mapped region.
//!
//! [`Mmap`] is a handle to one contiguous region of mapped memory. It records where the region
//! starts and how long it is, hands the bytes out as slices where nobody else can reach them,
//! and keeps track of who takes the region down when the handle goes.
//!
//! The regions themselves are mapped and unmapped by `memmap2`. Everything that is taken on
//! trust about that crate stands in [`sys`]; the handle's own logic in [`mmap`] is proved
//! against it.

pub mod error;
pub mod mmap;
pub mod sys;

pub use error::MapError;
pub use mmap::{BackingView, Mmap, MmapView, Unmap};
