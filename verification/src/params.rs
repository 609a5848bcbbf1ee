use vstd::prelude::*;
use crate::transform::Window;

verus! {

/// The parameters of a render, fixed before it starts.
#[derive(Debug, Clone, Copy)]
pub struct RenderParams<T> {
    /// The width and height of the image, in pixels.
    pub resolution: u32,
    /// The step budget of the evaluator.
    pub max_iterations: u32,
    /// The zoom and pan of the plane window, or `None` for the default
    /// window from -2 to 2 on both axes.
    pub window: Option<Window<T>>,
    /// The phase offset of the palette.
    pub palette_phase: T,
}

/// What the library needs of the element type beyond its operators: the
/// numbers zero, one, two and four, and the functions that only the element
/// type can supply.
pub struct Numerics<T, L, S, N, G, H> {
    pub zero: T,
    pub one: T,
    pub two: T,
    pub four: T,
    /// Brings a step count into the element type.
    pub lift: L,
    /// The square root.
    pub sqrt: S,
    /// The natural logarithm.
    pub ln: N,
    /// The logarithm to base ten.
    pub log10: G,
    /// The logarithm to base two.
    pub log2: H,
}

} // verus!
