//! Render-state core of a small real-time 3D renderer.
//!
//! The crate describes, as plain data with proved contracts, everything the
//! renderer decides before a GPU is involved: binding layouts, vertex layouts,
//! uniform blocks, fixed geometry, pipeline state and the order of draw
//! commands. Component values that are single-precision numbers on the GPU are
//! carried as their 32-bit patterns and never interpreted arithmetically.

pub mod binding;
pub mod bytes;
pub mod camera;
pub mod depthpass;
pub mod frame;
pub mod lighting;
pub mod lights;
pub mod model;
pub mod pass;
pub mod pipeline;
pub mod texture;
pub mod triangle;
pub mod vertex;
