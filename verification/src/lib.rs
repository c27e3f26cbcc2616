//! Streaming chunked terrain core: a grid-addressed chunk store, a streaming
//! policy that loads and evicts chunks around the camera, a per-frame geometry
//! aggregator that concatenates resident chunks into one index/vertex stream,
//! and a grow-only buffer arena that tracks the backing storage for that
//! stream.
//!
//! All cube geometry lives on an integer lattice, so vertex positions are kept
//! as exact integers here; rendering code converts them to floating point when
//! it uploads the aggregated stream.

pub mod aggregate;
pub mod arena;
pub mod chunk;
pub mod frame;
pub mod vertex;
pub mod world;
pub mod world_update;
