//! Voxel world core: block types, chunk storage, terrain rules, texture
//! atlas coordinates and the extraction of a textured quad mesh from a chunk.
pub mod block;
pub mod camera;
pub mod chunk;
pub mod keyboard;
pub mod mesh;
pub mod texture_atlas;
pub mod world_generator;
