//! Level-geometry pipeline for a small 2D game.
//!
//! A declarative scene description (platforms and regular polygonal shapes)
//! is composed into spawn records: a visual mesh, a material color, a body
//! classification and a collision shape per object.  Meshes are generated
//! procedurally (fan-triangulated regular polygons and quads), normalized
//! into a canonical point/triangle form, and welded into seamless triangle
//! collision meshes.  All coordinates are fixed-point integers: one world
//! unit is `fixed::SCALE` coordinate steps.

pub mod collider;
pub mod compose;
pub mod extract;
pub mod fixed;
pub mod mesh;
pub mod scene;
