//! Building blocks for storage that exists before it holds a valid value.
//!
//! The crate offers two small families of types:
//!
//! * Uninitialized-storage cells ([`uninit::GroundedCell`] and
//!   [`uninit::GroundedArrayCell`]): containers whose slots start out empty
//!   and are filled by explicit writes, with index-scoped access to single
//!   elements and to contiguous sub-ranges.
//! * A one-shot ownership handoff ([`irq_sharing::Global`] and
//!   [`irq_sharing::Interrupt`]): a slot that one context loads and another
//!   context claims exactly once, inside a critical section.

pub mod irq_sharing;
pub mod uninit;
