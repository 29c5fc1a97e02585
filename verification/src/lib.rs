//! Chunk mesh generation for a voxel world.
//!
//! A chunk's visible block faces are turned into one interleaved vertex
//! buffer and one index buffer. Every number that ends up in a vertex is
//! kept as an exact fraction ([`scalar::Scalar`]), so the layout of the
//! buffers and the texture coordinate transforms are stated and proved
//! without rounding.

pub mod atlas;
pub mod blocks;
pub mod builder;
pub mod chunk;
pub mod culling;
pub mod intake;
pub mod mesh;
pub mod packer;
pub mod queue;
pub mod scalar;
