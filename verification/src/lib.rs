//! Helpers for working with an explicit graphics API: selecting a physical
//! device, creating buffers and images backed by externally managed memory,
//! and recording the memory/layout transition barriers that make the results
//! safe to use.
//!
//! Everything here operates on a plain data model of the device, the memory
//! allocator and the command stream.  Resource creation records exactly the
//! commands (barriers, copies, blits) that must be replayed, in order, on a
//! real command stream; the contracts state which commands are recorded and
//! that every mip level of an image ends in the caller-requested access state.
//!
//! - [`access`] resolves each access type to its pipeline stage mask, memory
//!   access mask and image layout.
//! - [`barrier`] turns declarative subresource transitions into the primitive
//!   fields a synchronization command needs.
//! - [`command`] is the recorded command stream and the final-access-state
//!   semantics of a recorded sequence.
//! - [`allocator`] and [`device`] model the memory pool and the device
//!   capability surface as auditable ledgers.
//! - [`buffer`], [`image`] and [`mips`] create resources, upload contents and
//!   populate mip chains.
//! - [`select`] scores and picks a physical device; [`vertex`] and
//!   [`pipeline`] lay out vertex attributes and bake fixed-function pipeline
//!   state; [`shader`] validates and decodes shader binaries.

pub mod access;
pub mod allocator;
pub mod barrier;
pub mod buffer;
pub mod command;
pub mod device;
pub mod error;
pub mod image;
pub mod mips;
pub mod pipeline;
pub mod select;
pub mod shader;
pub mod vertex;
