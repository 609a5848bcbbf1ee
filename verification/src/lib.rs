//! A verified core for rendering the Mandelbrot set.
//!
//! Points, complex numbers and colors are generic over their element type,
//! and every contract is stated over the element type's own arithmetic and
//! order, as `vstd` specifies them for `std::ops` and `PartialOrd`. The same
//! code therefore runs on floating-point numbers and is proved for every
//! element type that obeys its specification, the integers among them.
//! Functions that only a concrete element type can supply (the logarithms,
//! the cosine, the cut to 8 bits) are handed in by the caller.
//!
//! * `point`, `complex`, `arith`, `scalar`, `hypot`: the number types.
//! * `transform`, `params`: from a pixel to a point of the plane.
//! * `escape`, `policy`, `order`: the escape-time evaluator and its weights.
//! * `bound`: how fast the magnitude of an orbit can grow.
//! * `color`, `palette`, `pixel`: from a weight to an 8-bit pixel.
//! * `canvas`: the raster that a render fills.
//! * `laws`: what holds of the arithmetic.

pub mod arith;
pub mod bound;
pub mod canvas;
pub mod color;
pub mod complex;
pub mod escape;
pub mod hypot;
pub mod laws;
pub mod order;
pub mod palette;
pub mod params;
pub mod pixel;
pub mod point;
pub mod policy;
pub mod scalar;
pub mod transform;
