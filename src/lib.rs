//! A windowed GPU rendering harness and its rotating-cube renderer: the
//! driver's lifecycle, the surface configuration, the cube's geometry and
//! the work each frame asks of the GPU, as plain values with proved
//! contracts.

use vstd::prelude::*;

pub mod cube;
pub mod driver;
pub mod geometry;
pub mod gpu_types;
pub mod surface;

verus! {

/// A programmable stage of the GPU pipeline.
#[derive(Clone, Copy, Debug, PartialEq, Eq, Structural)]
pub enum ShaderStage {
    Vertex,
    Fragment,
    Compute,
}

} // verus!
