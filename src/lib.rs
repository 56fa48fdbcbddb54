//! The decisions behind a small sprite renderer: checking shader builds,
//! laying out the sprite quad, validating the sprite sheet, and stepping
//! the per-frame render loop.

pub mod shader;
pub mod geometry;
pub mod texture;
pub mod frame;
