//! Instanced voxel rendering: back-to-front ordering of instances, the
//! per-entity instance buffer lifecycle, the keyed pipeline cache with its
//! specialization overrides, and the assembly of the instanced draw call.

pub mod buffers;
pub mod draw;
pub mod order;
pub mod pipeline;
pub mod queue;
