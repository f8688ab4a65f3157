//! Integer core of a recursive ray tracer: render quality presets, packed
//! pixels and the framebuffer they are written to, the pixel sweep of the
//! renderer, and image textures decoded into nearest-texel lookups.

use vstd::prelude::*;

pub mod framebuffer;
pub mod quality;
pub mod raytracer;
pub mod texture;

verus! {

} // verus!
