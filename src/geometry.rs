use vstd::prelude::*;

verus! {

/// Number of faces of the cube.
pub const FACE_COUNT: usize = 6;

/// Number of vertices of the cube mesh: four per face.
pub const VERTEX_COUNT: usize = 24;

/// Number of indices of the cube mesh: two triangles per face.
pub const INDEX_COUNT: usize = 36;

/// A homogeneous position whose coordinates are whole numbers.
/// The cube spans -1 to 1 on each axis, and `w` is always 1.
#[derive(Clone, Copy, Debug, PartialEq, Eq, Structural)]
pub struct Position {
    pub x: i8,
    pub y: i8,
    pub z: i8,
    pub w: i8,
}

/// An RGBA color whose channels are counted in tenths (0 is none, 10 is full).
#[derive(Clone, Copy, Debug, PartialEq, Eq, Structural)]
pub struct Color {
    pub r: u8,
    pub g: u8,
    pub b: u8,
    pub a: u8,
}

/// One vertex of the mesh: a position and the color of the face it belongs to.
#[derive(Clone, Copy, Debug, PartialEq, Eq, Structural)]
pub struct Vertex {
    pub position: Position,
    pub color: Color,
}

pub open spec fn rgba(r: u8, g: u8, b: u8, a: u8) -> Color {
    Color { r, g, b, a }
}

/// The low and high coordinate of the cube on each axis.
pub const LO: i8 = -1;
pub const HI: i8 = 1;

pub open spec fn pos(x: i8, y: i8, z: i8) -> Position {
    Position { x, y, z, w: 1 }
}

/// The color of face `f`, faces being taken in the order
/// top, bottom, right, left, front, back.
pub open spec fn face_color(f: int) -> Color {
    if f == 0 {
        rgba(9, 4, 3, 10)
    } else if f == 1 {
        rgba(3, 4, 9, 10)
    } else if f == 2 {
        rgba(3, 8, 3, 10)
    } else if f == 3 {
        rgba(8, 3, 8, 10)
    } else if f == 4 {
        rgba(9, 9, 3, 10)
    } else {
        rgba(3, 9, 9, 10)
    }
}

/// The four corners of face `f`, in counter-clockwise order seen from
/// outside the cube.
pub open spec fn face_corners(f: int) -> Seq<Position> {
    if f == 0 {
        seq![pos(LO, LO, HI), pos(HI, LO, HI), pos(HI, HI, HI), pos(LO, HI, HI)]
    } else if f == 1 {
        seq![pos(LO, HI, LO), pos(HI, HI, LO), pos(HI, LO, LO), pos(LO, LO, LO)]
    } else if f == 2 {
        seq![pos(HI, LO, LO), pos(HI, HI, LO), pos(HI, HI, HI), pos(HI, LO, HI)]
    } else if f == 3 {
        seq![pos(LO, LO, HI), pos(LO, HI, HI), pos(LO, HI, LO), pos(LO, LO, LO)]
    } else if f == 4 {
        seq![pos(HI, HI, LO), pos(LO, HI, LO), pos(LO, HI, HI), pos(HI, HI, HI)]
    } else {
        seq![pos(HI, LO, HI), pos(LO, LO, HI), pos(LO, LO, LO), pos(HI, LO, LO)]
    }
}

/// Corner `i` of the mesh: corner `i % 4` of face `i / 4`.
pub open spec fn corner_of(i: int) -> Position {
    face_corners(i / 4)[i % 4]
}

/// The corners of the cube, four per face.
pub open spec fn cube_positions() -> Seq<Position> {
    Seq::new(VERTEX_COUNT as nat, |i: int| corner_of(i))
}

/// Vertex `i` of the mesh: corner `i`, with the color of face `i / 4`.
pub open spec fn cube_vertex(i: int) -> Vertex {
    Vertex { position: corner_of(i), color: face_color(i / 4) }
}

/// Which corner of its face the `k`-th index of a face's six refers to:
/// the quad is split into the triangles (0, 1, 2) and (2, 3, 0).
pub open spec fn quad_corner(k: int) -> int {
    if k == 0 || k == 5 {
        0
    } else if k == 1 {
        1
    } else if k == 2 || k == 3 {
        2
    } else {
        3
    }
}

/// Index `k` of the mesh: six per face, over that face's four vertices.
pub open spec fn cube_index(k: int) -> int {
    4 * (k / 6) + quad_corner(k % 6)
}

/// The normal of triangle (a, b, c), the cross product of `b - a` and
/// `c - a`, dotted with `a`. For a triangle on the surface of a convex body
/// around the origin it is positive exactly when the triangle winds
/// counter-clockwise seen from outside.
pub open spec fn outward_winding(a: Position, b: Position, c: Position) -> int {
    let (ux, uy, uz) = (b.x - a.x, b.y - a.y, b.z - a.z);
    let (vx, vy, vz) = (c.x - a.x, c.y - a.y, c.z - a.z);
    let (nx, ny, nz) = (uy * vz - uz * vy, uz * vx - ux * vz, ux * vy - uy * vx);
    nx * a.x + ny * a.y + nz * a.z
}

/// The winding measure of triangle `t` of the mesh, over its three corners.
pub open spec fn triangle_winding(t: int) -> int {
    outward_winding(
        corner_of(cube_index(3 * t)),
        corner_of(cube_index(3 * t + 1)),
        corner_of(cube_index(3 * t + 2)),
    )
}

/// Every index of the mesh refers to one of its vertices.
pub proof fn lemma_indices_in_range()
    ensures
        forall|k: int| 0 <= k < INDEX_COUNT ==> 0 <= #[trigger] cube_index(k) < VERTEX_COUNT,
{
    assert forall|k: int| 0 <= k < INDEX_COUNT implies 0 <= #[trigger] cube_index(k)
        < VERTEX_COUNT by {
        assert(0 <= k / 6 < 6);
        assert(0 <= quad_corner(k % 6) < 4);
    }
}

/// Each index stays within the four vertices of its own face.
pub proof fn lemma_indices_within_face()
    ensures
        forall|k: int| 0 <= k < INDEX_COUNT ==> #[trigger] cube_index(k) / 4 == k / 6,
{
    assert forall|k: int| 0 <= k < INDEX_COUNT implies #[trigger] cube_index(k) / 4 == k / 6 by {
        assert(0 <= quad_corner(k % 6) < 4);
    }
}

/// The six face colors are pairwise distinct.
pub proof fn lemma_face_colors_distinct()
    ensures
        forall|f: int, g: int|
            0 <= f < FACE_COUNT && 0 <= g < FACE_COUNT && f != g ==> #[trigger] face_color(f)
                != #[trigger] face_color(g),
{
}

/// Every one of the twelve triangles winds counter-clockwise seen from
/// outside, so culling back faces keeps exactly the faces turned to the eye.
pub proof fn lemma_triangles_face_outward()
    ensures
        forall|t: int| 0 <= t < INDEX_COUNT / 3 ==> #[trigger] triangle_winding(t) > 0,
{
    assert forall|t: int| 0 <= t < INDEX_COUNT / 3 implies #[trigger] triangle_winding(t) > 0 by {
        let f = t / 2;
        let q = face_corners(f);
        if t % 2 == 0 {
            assert(cube_index(3 * t) == 4 * f && cube_index(3 * t + 1) == 4 * f + 1
                && cube_index(3 * t + 2) == 4 * f + 2);
            assert(triangle_winding(t) == outward_winding(q[0], q[1], q[2]));
        } else {
            assert(cube_index(3 * t) == 4 * f + 2 && cube_index(3 * t + 1) == 4 * f + 3
                && cube_index(3 * t + 2) == 4 * f);
            assert(triangle_winding(t) == outward_winding(q[2], q[3], q[0]));
        }
        if f == 0 {
            assert(outward_winding(pos(LO, LO, HI), pos(HI, LO, HI), pos(HI, HI, HI)) > 0) by (nonlinear_arith);
            assert(outward_winding(pos(HI, HI, HI), pos(LO, HI, HI), pos(LO, LO, HI)) > 0) by (nonlinear_arith);
        } else if f == 1 {
            assert(outward_winding(pos(LO, HI, LO), pos(HI, HI, LO), pos(HI, LO, LO)) > 0) by (nonlinear_arith);
            assert(outward_winding(pos(HI, LO, LO), pos(LO, LO, LO), pos(LO, HI, LO)) > 0) by (nonlinear_arith);
        } else if f == 2 {
            assert(outward_winding(pos(HI, LO, LO), pos(HI, HI, LO), pos(HI, HI, HI)) > 0) by (nonlinear_arith);
            assert(outward_winding(pos(HI, HI, HI), pos(HI, LO, HI), pos(HI, LO, LO)) > 0) by (nonlinear_arith);
        } else if f == 3 {
            assert(outward_winding(pos(LO, LO, HI), pos(LO, HI, HI), pos(LO, HI, LO)) > 0) by (nonlinear_arith);
            assert(outward_winding(pos(LO, HI, LO), pos(LO, LO, LO), pos(LO, LO, HI)) > 0) by (nonlinear_arith);
        } else if f == 4 {
            assert(outward_winding(pos(HI, HI, LO), pos(LO, HI, LO), pos(LO, HI, HI)) > 0) by (nonlinear_arith);
            assert(outward_winding(pos(LO, HI, HI), pos(HI, HI, HI), pos(HI, HI, LO)) > 0) by (nonlinear_arith);
        } else if f == 5 {
            assert(outward_winding(pos(HI, LO, HI), pos(LO, LO, HI), pos(LO, LO, LO)) > 0) by (nonlinear_arith);
            assert(outward_winding(pos(LO, LO, LO), pos(HI, LO, LO), pos(HI, LO, HI)) > 0) by (nonlinear_arith);
        }
    }
}

fn face_color_of(f: usize) -> (c: Color)
    requires
        f < FACE_COUNT,
    ensures
        c == face_color(f as int),
{
    if f == 0 {
        Color { r: 9, g: 4, b: 3, a: 10 }
    } else if f == 1 {
        Color { r: 3, g: 4, b: 9, a: 10 }
    } else if f == 2 {
        Color { r: 3, g: 8, b: 3, a: 10 }
    } else if f == 3 {
        Color { r: 8, g: 3, b: 8, a: 10 }
    } else if f == 4 {
        Color { r: 9, g: 9, b: 3, a: 10 }
    } else {
        Color { r: 3, g: 9, b: 9, a: 10 }
    }
}

fn corner(x: i8, y: i8, z: i8) -> (p: Position)
    ensures
        p == pos(x, y, z),
{
    Position { x, y, z, w: 1 }
}

fn cube_corners() -> (r: Vec<Position>)
    ensures
        r@ == cube_positions(),
{
    let r = vec![
        corner(LO, LO, HI), corner(HI, LO, HI), corner(HI, HI, HI), corner(LO, HI, HI),
        corner(LO, HI, LO), corner(HI, HI, LO), corner(HI, LO, LO), corner(LO, LO, LO),
        corner(HI, LO, LO), corner(HI, HI, LO), corner(HI, HI, HI), corner(HI, LO, HI),
        corner(LO, LO, HI), corner(LO, HI, HI), corner(LO, HI, LO), corner(LO, LO, LO),
        corner(HI, HI, LO), corner(LO, HI, LO), corner(LO, HI, HI), corner(HI, HI, HI),
        corner(HI, LO, HI), corner(LO, LO, HI), corner(LO, LO, LO), corner(HI, LO, LO),
    ];
    assert(r@ =~= cube_positions());
    r
}

/// The cube's vertex and index tables: 24 vertices, four per face, each
/// carrying its face's color, and 36 indices, two triangles per face.
pub fn create_cube_geometry() -> (r: (Vec<Vertex>, Vec<u16>))
    ensures
        r.0@.len() == VERTEX_COUNT,
        r.1@.len() == INDEX_COUNT,
        forall|i: int| 0 <= i < VERTEX_COUNT ==> #[trigger] r.0@[i] == cube_vertex(i),
        forall|k: int| 0 <= k < INDEX_COUNT ==> #[trigger] r.1@[k] as int == cube_index(k),
        forall|k: int| 0 <= k < INDEX_COUNT ==> #[trigger] r.1@[k] < VERTEX_COUNT,
        forall|i: int| 0 <= i < VERTEX_COUNT ==> #[trigger] r.0@[i].color == face_color(i / 4),
{
    let corners = cube_corners();
    let mut vertices: Vec<Vertex> = Vec::new();
    let mut i: usize = 0;
    while i < VERTEX_COUNT
        invariant
            i <= VERTEX_COUNT,
            corners@ == cube_positions(),
            vertices@.len() == i,
            forall|j: int| 0 <= j < i ==> #[trigger] vertices@[j] == cube_vertex(j),
        decreases VERTEX_COUNT - i,
    {
        vertices.push(Vertex { position: corners[i], color: face_color_of(i / 4) });
        i = i + 1;
    }
    let mut indices: Vec<u16> = Vec::new();
    let mut f: u16 = 0;
    while f < FACE_COUNT as u16
        invariant
            f <= FACE_COUNT,
            indices@.len() == 6 * f,
            forall|k: int| 0 <= k < 6 * f ==> #[trigger] indices@[k] as int == cube_index(k),
        decreases FACE_COUNT - f,
    {
        let base: u16 = 4 * f;
        indices.push(base);
        indices.push(base + 1);
        indices.push(base + 2);
        indices.push(base + 2);
        indices.push(base + 3);
        indices.push(base);
        assert forall|k: int| 6 * f <= k < 6 * f + 6 implies #[trigger] indices@[k] as int
            == cube_index(k) by {
            assert(k / 6 == f as int);
            assert(k % 6 == k - 6 * f);
        }
        f = f + 1;
    }
    proof {
        lemma_indices_in_range();
    }
    (vertices, indices)
}

} // verus!
