//! Deterministic simulation core of a voxel game: fixed-point math, a
//! fixed-tick scheduler, packed voxel chunks and a mask-addressed entity store.

pub mod ecs;
pub mod input;
pub mod math;
pub mod shapes;
pub mod time;
pub mod voxels;
