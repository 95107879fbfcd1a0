//! A navigation-query layer between an application and a polygon
//! navigation-mesh engine.
//!
//! The library turns a triangulated walkable surface into the engine's
//! construction input, and resolves "next waypoint" queries along the mesh's
//! polygon corridor. It does not call the engine, and it does no arithmetic
//! on real numbers: a host does both. The library tells the host what to do
//! next and decides on what the host brings back, so that every rule of the
//! layer is here and is proved: which mesh is taken, what the engine is
//! given, which answer is a failure, and what a corridor means.
//!
//! Numbers in world units are carried as the bit patterns of their
//! single-precision encoding.
//!
//! - `single`: what such a bit pattern means, and how two of them compare.
//! - `point`: a position in world space.
//! - `geometry`: bounding box and cell coordinates.
//! - `mesh`: the caller's mesh, its rules, and the engine's payload.
//! - `query`: the query handle and its construction.
//! - `path`: the search for the next waypoint.
//! - `error`: the three kinds of failure.

pub mod error;
pub mod geometry;
pub mod mesh;
pub mod path;
pub mod point;
pub mod query;
pub mod single;
