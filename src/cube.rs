use vstd::prelude::*;
use wgpu_types::Features;
use crate::geometry::INDEX_COUNT;
use crate::gpu_types::{has_polygon_mode_line, polygon_mode_line_supported};
use crate::surface::SurfaceConfig;

verus! {

/// Bytes in one 32-bit float.
pub const FLOAT_BYTES: u64 = 4;

/// Floats in one vertex on the GPU: four of position, four of color.
pub const VERTEX_FLOATS: u64 = 8;

/// Vertical field of view of the projection, in degrees.
pub const FOV_Y_DEGREES: u32 = 45;

/// Distance to the near clipping plane.
pub const Z_NEAR: u32 = 1;

/// Distance to the far clipping plane.
pub const Z_FAR: u32 = 10;

/// A point in tenths of a unit on each axis.
#[derive(Clone, Copy, Debug, PartialEq, Eq, Structural)]
pub struct Tenths {
    pub x: i32,
    pub y: i32,
    pub z: i32,
}

/// One of the three world axes, taken in its positive direction.
#[derive(Clone, Copy, Debug, PartialEq, Eq, Structural)]
pub enum Axis {
    X,
    Y,
    Z,
}

/// What the transform uniform is computed from: a right-handed perspective
/// projection with aspect `aspect_width / aspect_height`, composed with a
/// right-handed look-at view (projection times view).
#[derive(Clone, Copy, Debug, PartialEq, Eq, Structural)]
pub struct ViewProjection {
    pub fov_y_degrees: u32,
    pub aspect_width: u32,
    pub aspect_height: u32,
    pub z_near: u32,
    pub z_far: u32,
    pub eye: Tenths,
    pub target: Tenths,
    pub up: Axis,
}

/// The transform for a surface of `width` by `height`: a 45 degree vertical
/// field of view, planes at 1 and 10, the eye at (1.5, -5, 3) looking at the
/// origin with Z up, and the aspect ratio `width / height` exactly.
pub open spec fn view_projection_for(width: u32, height: u32) -> ViewProjection {
    ViewProjection {
        fov_y_degrees: FOV_Y_DEGREES,
        aspect_width: width,
        aspect_height: height,
        z_near: Z_NEAR,
        z_far: Z_FAR,
        eye: Tenths { x: 15, y: -50 as i32, z: 30 },
        target: Tenths { x: 0, y: 0, z: 0 },
        up: Axis::Z,
    }
}

/// Two aspect ratios, each given as width over height, are the same number.
pub open spec fn same_ratio(w1: int, h1: int, w2: int, h2: int) -> bool {
    w1 * h2 == w2 * h1
}

/// The transform parameters for a surface of the given size.
pub fn create_view_projection_matrix(width: u32, height: u32) -> (r: ViewProjection)
    ensures
        r == view_projection_for(width, height),
{
    ViewProjection {
        fov_y_degrees: FOV_Y_DEGREES,
        aspect_width: width,
        aspect_height: height,
        z_near: Z_NEAR,
        z_far: Z_FAR,
        eye: Tenths { x: 15, y: -50, z: 30 },
        target: Tenths { x: 0, y: 0, z: 0 },
        up: Axis::Z,
    }
}

/// One attribute of the vertex layout: four 32-bit floats at `offset`
/// bytes into the vertex, fed to shader input `shader_location`.
#[derive(Clone, Copy, Debug, PartialEq, Eq, Structural)]
pub struct VertexAttribute {
    pub offset: u64,
    pub shader_location: u32,
}

/// The layout of the vertex buffer, stepped once per vertex.
pub struct VertexLayout {
    pub array_stride: u64,
    pub attributes: Vec<VertexAttribute>,
}

/// The vertex layout: 32 bytes per vertex, position at offset 0 to
/// location 0, color at offset 16 to location 1.
pub fn create_vertex_layout() -> (r: VertexLayout)
    ensures
        r.array_stride == VERTEX_FLOATS * FLOAT_BYTES,
        r.attributes@ == seq![
            VertexAttribute { offset: 0, shader_location: 0 },
            VertexAttribute { offset: (4 * FLOAT_BYTES) as u64, shader_location: 1 },
        ],
{
    let attributes = vec![
        VertexAttribute { offset: 0, shader_location: 0 },
        VertexAttribute { offset: 4 * FLOAT_BYTES, shader_location: 1 },
    ];
    assert(attributes@ =~= seq![
        VertexAttribute { offset: 0, shader_location: 0 },
        VertexAttribute { offset: (4 * FLOAT_BYTES) as u64, shader_location: 1 },
    ]);
    VertexLayout { array_stride: VERTEX_FLOATS * FLOAT_BYTES, attributes }
}

/// Which of the renderer's pipelines a draw uses.
#[derive(Clone, Copy, Debug, PartialEq, Eq, Structural)]
pub enum PipelineKind {
    /// Filled triangles through the `fs_main` fragment entry point.
    Solid,
    /// Alpha-blended lines through the `fs_wire` fragment entry point.
    Wireframe,
}

/// How triangles are rasterised.
#[derive(Clone, Copy, Debug, PartialEq, Eq, Structural)]
pub enum PolygonMode {
    Fill,
    Line,
}

/// One indexed draw over the cube's vertex and index buffers and its bind
/// group: elements `0..element_count`, instances `0..instance_count`.
#[derive(Clone, Copy, Debug, PartialEq, Eq, Structural)]
pub struct DrawPass {
    pub pipeline: PipelineKind,
    pub polygon_mode: PolygonMode,
    pub cull_back_faces: bool,
    pub element_count: usize,
    pub instance_count: u32,
}

/// The work of one frame: clear the target to `clear`, then the draws of
/// `passes` in order, in one render pass.
pub struct FramePlan {
    pub clear: crate::geometry::Color,
    pub passes: Vec<DrawPass>,
}

/// The solid draw: filled, back faces culled, every index, one instance.
pub open spec fn solid_pass(index_count: usize) -> DrawPass {
    DrawPass {
        pipeline: PipelineKind::Solid,
        polygon_mode: PolygonMode::Fill,
        cull_back_faces: true,
        element_count: index_count,
        instance_count: 1,
    }
}

/// The wireframe draw: the same, but through the wireframe pipeline, as lines.
pub open spec fn wireframe_pass(index_count: usize) -> DrawPass {
    DrawPass {
        pipeline: PipelineKind::Wireframe,
        polygon_mode: PolygonMode::Line,
        cull_back_faces: true,
        element_count: index_count,
        instance_count: 1,
    }
}

/// The passes of a frame: the solid one, then the wireframe one when the
/// wireframe pipeline exists.
pub open spec fn frame_passes(index_count: usize, wireframe: bool) -> Seq<DrawPass> {
    if wireframe {
        seq![solid_pass(index_count), wireframe_pass(index_count)]
    } else {
        seq![solid_pass(index_count)]
    }
}

/// The background color of every frame: (0.1, 0.2, 0.3, 1.0).
pub open spec fn clear_color() -> crate::geometry::Color {
    crate::geometry::Color { r: 1, g: 2, b: 3, a: 10 }
}

/// The rotating-cube renderer's own state: how many indices it draws,
/// whether it has a wireframe pipeline (fixed once at creation), and the
/// surface size that its transform uniform was last computed for.
pub struct Cube {
    pub index_count: usize,
    pub wireframe: bool,
    pub transform: ViewProjection,
}

impl Cube {
    /// The renderer for a surface configuration on a device that does, or
    /// does not, support line-polygon rasterisation.
    pub fn with_capability(config: &SurfaceConfig, line_mode: bool) -> (r: Cube)
        ensures
            r.index_count == INDEX_COUNT,
            r.wireframe == line_mode,
            r.transform == view_projection_for(config.width, config.height),
    {
        Cube {
            index_count: INDEX_COUNT,
            wireframe: line_mode,
            transform: create_view_projection_matrix(config.width, config.height),
        }
    }

    /// The renderer for a surface configuration on a device with `features`:
    /// it has a wireframe pipeline exactly when they hold line-polygon mode.
    pub fn new(config: &SurfaceConfig, features: &Features) -> (r: Cube)
        ensures
            r.index_count == INDEX_COUNT,
            r.wireframe == has_polygon_mode_line(*features),
            r.transform == view_projection_for(config.width, config.height),
    {
        let line_mode = polygon_mode_line_supported(features);
        Cube::with_capability(config, line_mode)
    }

    /// Recomputes the transform for a new surface size and gives it, to be
    /// written into the uniform buffer; nothing else changes.
    pub fn update_transform_matrix(&mut self, width: u32, height: u32) -> (r: ViewProjection)
        ensures
            r == view_projection_for(width, height),
            final(self).transform == r,
            final(self).index_count == old(self).index_count,
            final(self).wireframe == old(self).wireframe,
    {
        let t = create_view_projection_matrix(width, height);
        self.transform = t;
        t
    }

    /// Follows a reconfigured surface: the transform is recomputed for its size.
    pub fn resize(&mut self, config: &SurfaceConfig) -> (r: ViewProjection)
        ensures
            r == view_projection_for(config.width, config.height),
            final(self).transform == r,
            final(self).index_count == old(self).index_count,
            final(self).wireframe == old(self).wireframe,
    {
        self.update_transform_matrix(config.width, config.height)
    }

    /// Input events leave the cube as it is.
    pub fn update(&mut self)
        ensures
            *final(self) == *old(self),
    {
    }

    /// The work of one frame: clear to the background color, draw the solid
    /// cube, then its wireframe on top when the pipeline for it exists.
    pub fn render(&self) -> (r: FramePlan)
        ensures
            r.clear == clear_color(),
            r.passes@ == frame_passes(self.index_count, self.wireframe),
    {
        let mut passes: Vec<DrawPass> = Vec::new();
        passes.push(
            DrawPass {
                pipeline: PipelineKind::Solid,
                polygon_mode: PolygonMode::Fill,
                cull_back_faces: true,
                element_count: self.index_count,
                instance_count: 1,
            },
        );
        if self.wireframe {
            passes.push(
                DrawPass {
                    pipeline: PipelineKind::Wireframe,
                    polygon_mode: PolygonMode::Line,
                    cull_back_faces: true,
                    element_count: self.index_count,
                    instance_count: 1,
                },
            );
        }
        assert(passes@ =~= frame_passes(self.index_count, self.wireframe));
        FramePlan { clear: crate::geometry::Color { r: 1, g: 2, b: 3, a: 10 }, passes }
    }
}

/// A frame draws the solid cube once, first; it draws a second pass, the
/// wireframe, exactly when the device supports line-polygon mode; no other.
pub proof fn lemma_frame_passes(index_count: usize, wireframe: bool)
    ensures
        frame_passes(index_count, wireframe).len() == if wireframe { 2int } else { 1 },
        frame_passes(index_count, wireframe)[0].pipeline == PipelineKind::Solid,
        frame_passes(index_count, wireframe)[0].polygon_mode == PolygonMode::Fill,
        wireframe ==> frame_passes(index_count, wireframe)[1].pipeline == PipelineKind::Wireframe
            && frame_passes(index_count, wireframe)[1].polygon_mode == PolygonMode::Line,
        forall|i: int|
            0 <= i < frame_passes(index_count, wireframe).len() ==> (#[trigger] frame_passes(
                index_count,
                wireframe,
            )[i]).cull_back_faces && frame_passes(index_count, wireframe)[i].element_count
                == index_count,
{
}

/// The transform depends on the surface size alone: equal sizes give equal
/// transforms, and its aspect ratio is exactly width over height.
pub proof fn lemma_transform_deterministic(w1: u32, h1: u32, w2: u32, h2: u32)
    ensures
        (w1 == w2 && h1 == h2) ==> view_projection_for(w1, h1) == view_projection_for(w2, h2),
        same_ratio(
            view_projection_for(w1, h1).aspect_width as int,
            view_projection_for(w1, h1).aspect_height as int,
            w1 as int,
            h1 as int,
        ),
{
}

/// Scaling both sides of a surface by the same factor keeps its aspect
/// ratio: such a resize changes the configuration's size, not the ratio
/// that the transform is built on.
pub proof fn lemma_scaled_size_same_ratio(w: u32, h: u32, k: u32)
    requires
        w * k <= u32::MAX,
        h * k <= u32::MAX,
    ensures
        same_ratio(
            view_projection_for((w * k) as u32, (h * k) as u32).aspect_width as int,
            view_projection_for((w * k) as u32, (h * k) as u32).aspect_height as int,
            view_projection_for(w, h).aspect_width as int,
            view_projection_for(w, h).aspect_height as int,
        ),
{
    assert((w * k) * h == w * (h * k)) by (nonlinear_arith);
}

} // verus!
