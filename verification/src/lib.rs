//! Structure-search engine for a procedurally generated voxel terrain.
//!
//! Terrain is never stored: every block's rotation is derived on demand from a
//! deterministic hash of its integer position, so a search for a spot where the
//! terrain matches a caller-supplied pattern can be replayed bit-for-bit.
//!
//! The crate provides the per-block hash, the packed rotation code, the
//! outward-spiral chunk enumeration, chunk generation, the brute-force pattern
//! matcher, the background chunk provider's hand-off logic, and the cooperative
//! state machine that drives a search one tick at a time.
pub mod chunk;
pub mod config;
pub mod matcher;
pub mod pipeline;
pub mod provider;
pub mod rotation;
pub mod spiral;
pub mod terrain;
