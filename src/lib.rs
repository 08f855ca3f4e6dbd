//! Verified core of a Monte-Carlo path tracer: the integer, combinatorial and
//! decision logic of the renderer (configuration, the path-tracing step machine,
//! material and texture selection, noise lattice hashing, image texel lookup and
//! the face layout of boxes and meshes).
use vstd::prelude::*;

pub mod config;
pub mod materials;
pub mod mesh;
pub mod perlin;
pub mod shapes;
pub mod textures;
pub mod tracer;

verus! {

} // verus!
