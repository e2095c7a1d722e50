//! Mesh primitives and the procedural mesh generators.
//!
//! `generate_regular_polygon` places a hub vertex at the shape center and
//! `sides` boundary vertices evenly spaced on the circle, triangulated as a
//! fan; `generate_quad` places four corner vertices and two triangles.

use crate::fixed::{
    angle_steps_lt_full, cos_fx, cos_spec, lemma_cos_bounds, lemma_scale_by_bounds,
    lemma_sin_bounds, lemma_sin_cos_at_zero, scale_by, scale_by_fx, sin_fx, sin_spec, FULL_TURN,
    MAX_COORD, MAX_SIDES, SCALE,
};
use vstd::arithmetic::div_mod::{
    lemma_div_multiples_vanish, lemma_div_of0, lemma_fundamental_div_mod, lemma_mod_self_0,
    lemma_small_mod,
};
use vstd::prelude::*;

verus! {

/// A 2D point or size in fixed-point coordinates.
#[derive(Clone, Copy, PartialEq, Eq, Structural, Debug, Hash)]
pub struct Vec2 {
    pub x: i64,
    pub y: i64,
}

/// A mesh vertex: a 2D point together with its constant depth component.
#[derive(Clone, Copy, PartialEq, Eq, Structural, Debug)]
pub struct Vertex3 {
    pub x: i64,
    pub y: i64,
    pub z: i64,
}

/// A triangle given as three indices into a vertex list.
#[derive(Clone, Copy, PartialEq, Eq, Structural, Debug)]
pub struct Triangle {
    pub a: u32,
    pub b: u32,
    pub c: u32,
}

/// A vertex buffer in one of the two source encodings: a flat interleaved
/// component list, or one entry per vertex.
#[derive(Clone, Debug)]
pub enum VertexAttributeValues {
    Interleaved(Vec<i64>),
    Points(Vec<Vertex3>),
}

/// An index buffer in 16-bit or 32-bit storage.
#[derive(Clone, Debug)]
pub enum Indices {
    U16(Vec<u16>),
    U32(Vec<u32>),
}

/// A generated mesh before normalization.  A mesh with no position
/// attribute or no index buffer carries no usable geometry.
#[derive(Clone, Debug)]
pub struct RawMesh {
    pub positions: Option<VertexAttributeValues>,
    pub indices: Option<Indices>,
}

/// The 2D projection of a mesh vertex: the constant depth component
/// dropped.
pub open spec fn point_of_vertex(v: Vertex3) -> Vec2 {
    Vec2 { x: v.x, y: v.y }
}

/// Twice the signed area of the triangle `(p0, p1, p2)`: positive when
/// the corners run counter-clockwise.
pub open spec fn double_area(p0: Vec2, p1: Vec2, p2: Vec2) -> int {
    (p1.x - p0.x) * (p2.y - p0.y) - (p2.x - p0.x) * (p1.y - p0.y)
}

/// The angle of boundary vertex `i` of a polygon with `sides` sides, in
/// angle steps: `i / sides` of a full turn, rounded down to a step.
pub open spec fn angle_of(sides: int, i: int) -> int {
    (i * (FULL_TURN as int)) / sides
}

/// The x coordinate of boundary vertex `i`, relative to the hub.
pub open spec fn circle_x(sides: int, i: int, radius: int) -> int {
    scale_by(radius, cos_spec(angle_of(sides, i)))
}

/// The y coordinate of boundary vertex `i`, relative to the hub.
pub open spec fn circle_y(sides: int, i: int, radius: int) -> int {
    scale_by(radius, sin_spec(angle_of(sides, i)))
}

/// Boundary vertex `i` of the polygon, at the fixed depth 0.
pub open spec fn polygon_vertex(sides: int, i: int, radius: int) -> Vertex3 {
    Vertex3 {
        x: circle_x(sides, i, radius) as i64,
        y: circle_y(sides, i, radius) as i64,
        z: 0,
    }
}

/// The vertex list of the polygon mesh: the hub, then the boundary.
pub open spec fn polygon_positions(sides: int, radius: int) -> Seq<Vertex3> {
    Seq::new(
        (sides + 1) as nat,
        |k: int|
            if k == 0 {
                Vertex3 { x: 0, y: 0, z: 0 }
            } else {
                polygon_vertex(sides, k - 1, radius)
            },
    )
}

/// Fan triangle `t`: the hub, boundary vertex `t`, and the next boundary
/// vertex around the circle, wrapping at the last.
pub open spec fn fan_triangle(sides: int, t: int) -> Triangle {
    Triangle { a: 0u32, b: (t + 1) as u32, c: (((t + 1) % sides) + 1) as u32 }
}

/// Entry `k` of the flat polygon index buffer.
pub open spec fn polygon_index_at(sides: int, k: int) -> u32 {
    if k % 3 == 0 {
        fan_triangle(sides, k / 3).a
    } else if k % 3 == 1 {
        fan_triangle(sides, k / 3).b
    } else {
        fan_triangle(sides, k / 3).c
    }
}

/// The flat index buffer of the polygon mesh: `sides` fan triangles.
pub open spec fn polygon_indices(sides: int) -> Seq<u32> {
    Seq::new((3 * sides) as nat, |k: int| polygon_index_at(sides, k))
}

/// The vertex list of the quad mesh: the four corners at half the size in
/// each direction, counter-clockwise from the lower left, at depth 0.
pub open spec fn quad_positions(sx: int, sy: int) -> Seq<Vertex3> {
    let hx = sx / 2;
    let hy = sy / 2;
    seq![
        Vertex3 { x: (-hx) as i64, y: (-hy) as i64, z: 0 },
        Vertex3 { x: hx as i64, y: (-hy) as i64, z: 0 },
        Vertex3 { x: hx as i64, y: hy as i64, z: 0 },
        Vertex3 { x: (-hx) as i64, y: hy as i64, z: 0 },
    ]
}

/// The flat index buffer of the quad mesh: two triangles covering it.
pub open spec fn quad_indices() -> Seq<u32> {
    seq![0u32, 1u32, 2u32, 0u32, 2u32, 3u32]
}

/// Boundary vertex `i` of a polygon with `sides` sides and the given
/// radius, relative to the hub.
pub fn circle_point(sides: usize, i: usize, radius: i64) -> (p: (i64, i64))
    requires
        3 <= sides <= MAX_SIDES,
        i < sides,
        0 < radius <= MAX_COORD,
    ensures
        p.0 == circle_x(sides as int, i as int, radius as int),
        p.1 == circle_y(sides as int, i as int, radius as int),
        -radius <= p.0 <= radius,
        -radius <= p.1 <= radius,
{
    let q: u64 = (i as u64) * 65536 / (sides as u64);
    proof {
        angle_steps_lt_full(sides as int, i as int);
    }
    let c: i64 = cos_fx(q);
    let s: i64 = sin_fx(q);
    (scale_by_fx(radius, c), scale_by_fx(radius, s))
}

/// Generates the fan-triangulated regular polygon mesh: one hub vertex at
/// the shape center plus `sides` vertices on the circle of the given
/// radius, and `sides` triangles, each joining the hub with two
/// consecutive boundary vertices.
pub fn generate_regular_polygon(sides: usize, radius: i64) -> (m: RawMesh)
    requires
        3 <= sides <= MAX_SIDES,
        0 < radius <= MAX_COORD,
    ensures
        m.positions matches Some(VertexAttributeValues::Points(v)) && v@ == polygon_positions(
            sides as int,
            radius as int,
        ),
        m.indices matches Some(Indices::U32(ix)) && ix@ == polygon_indices(sides as int),
{
    let ghost gpos = polygon_positions(sides as int, radius as int);
    let mut v: Vec<Vertex3> = Vec::new();
    v.push(Vertex3 { x: 0, y: 0, z: 0 });
    let mut i: usize = 0;
    while i < sides
        invariant
            3 <= sides <= MAX_SIDES,
            0 < radius <= MAX_COORD,
            i <= sides,
            gpos == polygon_positions(sides as int, radius as int),
            v@.len() == i + 1,
            forall|k: int| 0 <= k < i + 1 ==> v@[k] == gpos[k],
        decreases sides - i,
    {
        let p: (i64, i64) = circle_point(sides, i, radius);
        v.push(Vertex3 { x: p.0, y: p.1, z: 0 });
        i = i + 1;
    }
    proof {
        assert(v@ =~= gpos);
    }
    let ghost gix = polygon_indices(sides as int);
    let mut ix: Vec<u32> = Vec::new();
    let mut t: usize = 0;
    while t < sides
        invariant
            3 <= sides <= MAX_SIDES,
            t <= sides,
            gix == polygon_indices(sides as int),
            ix@.len() == 3 * t,
            forall|k: int| 0 <= k < 3 * t ==> ix@[k] == gix[k],
        decreases sides - t,
    {
        ix.push(0u32);
        ix.push((t + 1) as u32);
        let w: usize = (t + 1) % sides;
        ix.push((w + 1) as u32);
        proof {
            assert((3 * t as int) % 3 == 0 && (3 * t as int) / 3 == t as int);
            assert((3 * t as int + 1) % 3 == 1 && (3 * t as int + 1) / 3 == t as int);
            assert((3 * t as int + 2) % 3 == 2 && (3 * t as int + 2) / 3 == t as int);
        }
        t = t + 1;
    }
    proof {
        assert(ix@ =~= gix);
    }
    RawMesh {
        positions: Some(VertexAttributeValues::Points(v)),
        indices: Some(Indices::U32(ix)),
    }
}

/// Generates the quad mesh: four corner vertices at half the given size in
/// each direction around the center, and two triangles covering it.
pub fn generate_quad(size: Vec2) -> (m: RawMesh)
    requires
        0 < size.x <= MAX_COORD,
        0 < size.y <= MAX_COORD,
    ensures
        m.positions matches Some(VertexAttributeValues::Points(v)) && v@ == quad_positions(
            size.x as int,
            size.y as int,
        ),
        m.indices matches Some(Indices::U32(ix)) && ix@ == quad_indices(),
{
    let hx: i64 = ((size.x as u64) / 2) as i64;
    let hy: i64 = ((size.y as u64) / 2) as i64;
    let mut v: Vec<Vertex3> = Vec::new();
    v.push(Vertex3 { x: -hx, y: -hy, z: 0 });
    v.push(Vertex3 { x: hx, y: -hy, z: 0 });
    v.push(Vertex3 { x: hx, y: hy, z: 0 });
    v.push(Vertex3 { x: -hx, y: hy, z: 0 });
    let mut ix: Vec<u32> = Vec::new();
    ix.push(0u32);
    ix.push(1u32);
    ix.push(2u32);
    ix.push(0u32);
    ix.push(2u32);
    ix.push(3u32);
    proof {
        assert(v@ =~= quad_positions(size.x as int, size.y as int));
        assert(ix@ =~= quad_indices());
    }
    RawMesh {
        positions: Some(VertexAttributeValues::Points(v)),
        indices: Some(Indices::U32(ix)),
    }
}

/// Law: a regular polygon mesh has exactly `sides + 1` vertices, the hub
/// first, and exactly `sides` triangles; triangle `t` references the hub
/// and the two consecutive boundary vertices `t + 1` and
/// `((t + 1) mod sides) + 1`, wrapping at the last; every index is in
/// range, and the three corners of every triangle are three different
/// vertices, so the fan is closed and no triangle is collapsed.
pub proof fn lemma_regular_polygon_fan(sides: int, radius: int)
    requires
        3 <= sides <= MAX_SIDES,
    ensures
        polygon_positions(sides, radius).len() == sides + 1,
        polygon_positions(sides, radius)[0] == (Vertex3 { x: 0, y: 0, z: 0 }),
        polygon_indices(sides).len() == 3 * sides,
        forall|t: int|
            0 <= t < sides ==> polygon_indices(sides)[3 * t] == fan_triangle(sides, t).a
                && polygon_indices(sides)[3 * t + 1] == fan_triangle(sides, t).b
                && polygon_indices(sides)[3 * t + 2] == fan_triangle(sides, t).c,
        forall|t: int|
            0 <= t < sides ==> fan_triangle(sides, t).a == 0 && fan_triangle(sides, t).b == t + 1
                && fan_triangle(sides, t).c == if t < sides - 1 {
                t + 2
            } else {
                1
            },
        forall|t: int|
            0 <= t < sides ==> fan_triangle(sides, t).a < sides + 1 && fan_triangle(
                sides,
                t,
            ).b < sides + 1 && fan_triangle(sides, t).c < sides + 1,
        forall|t: int|
            0 <= t < sides ==> fan_triangle(sides, t).a != fan_triangle(sides, t).b
                && fan_triangle(sides, t).b != fan_triangle(sides, t).c && fan_triangle(
                sides,
                t,
            ).a != fan_triangle(sides, t).c,
{
    assert forall|t: int| 0 <= t < sides implies #[trigger] fan_triangle(sides, t).c == (
    if t < sides - 1 {
        t + 2
    } else {
        1
    }) by {
        if t < sides - 1 {
            lemma_small_mod((t + 1) as nat, sides as nat);
        } else {
            lemma_mod_self_0(sides);
        }
    }
    assert forall|t: int| #![trigger polygon_indices(sides)[3 * t]]
        0 <= t < sides implies polygon_indices(sides)[3 * t] == fan_triangle(sides, t).a
        && polygon_indices(sides)[3 * t + 1] == fan_triangle(sides, t).b && polygon_indices(
        sides,
    )[3 * t + 2] == fan_triangle(sides, t).c by {
        assert((3 * t) % 3 == 0 && (3 * t) / 3 == t);
        assert((3 * t + 1) % 3 == 1 && (3 * t + 1) / 3 == t);
        assert((3 * t + 2) % 3 == 2 && (3 * t + 2) / 3 == t);
    }
}


/// Law: the two quad triangles wind the same way (counter-clockwise) and
/// together cover the rectangle exactly: each doubled area is
/// `4 (sx/2) (sy/2)`, so their sum is `2 sx sy` whenever both size
/// components are even (an odd component loses its half step to the
/// fixed-point grid), and both areas are positive whenever the size spans
/// at least one whole step in each direction.
pub proof fn lemma_quad_area(sx: int, sy: int)
    requires
        0 < sx <= MAX_COORD,
        0 < sy <= MAX_COORD,
    ensures
        ({
            let v = quad_positions(sx, sy);
            let a1 = double_area(
                point_of_vertex(v[0]),
                point_of_vertex(v[1]),
                point_of_vertex(v[2]),
            );
            let a2 = double_area(
                point_of_vertex(v[0]),
                point_of_vertex(v[2]),
                point_of_vertex(v[3]),
            );
            &&& a1 == 4 * ((sx / 2) * (sy / 2))
            &&& a2 == 4 * ((sx / 2) * (sy / 2))
            &&& (sx % 2 == 0 && sy % 2 == 0 ==> a1 + a2 == 2 * (sx * sy))
            &&& (2 <= sx && 2 <= sy ==> a1 > 0 && a2 > 0)
        }),
{
    let hx = sx / 2;
    let hy = sy / 2;
    let v = quad_positions(sx, sy);
    assert(point_of_vertex(v[0]) == (Vec2 { x: (-hx) as i64, y: (-hy) as i64 }));
    assert(point_of_vertex(v[1]) == (Vec2 { x: hx as i64, y: (-hy) as i64 }));
    assert(point_of_vertex(v[2]) == (Vec2 { x: hx as i64, y: hy as i64 }));
    assert(point_of_vertex(v[3]) == (Vec2 { x: (-hx) as i64, y: hy as i64 }));
    assert((2 * hx) * (2 * hy) == 4 * (hx * hy)) by (nonlinear_arith);
    assert((2 * hx) * 0 == 0) by (nonlinear_arith);
    assert(0 * (2 * hy) == 0) by (nonlinear_arith);
    if sx % 2 == 0 && sy % 2 == 0 {
        lemma_fundamental_div_mod(sx, 2);
        lemma_fundamental_div_mod(sy, 2);
        assert(sx == 2 * hx && sy == 2 * hy);
        assert(8 * (hx * hy) == 2 * ((2 * hx) * (2 * hy))) by (nonlinear_arith);
        assert((2 * hx) * (2 * hy) == sx * sy);
    }
    if 2 <= sx && 2 <= sy {
        assert(1 <= hx && 1 <= hy);
        assert(1 <= hx && 1 <= hy ==> 1 <= hx * hy) by (nonlinear_arith);
    }
}


/// Law: the polygon boundary runs around the hub at constant angular
/// spacing — vertex `i` sits at the angle `i / sides` of a full turn —
/// and every boundary vertex stays within the square of half-width
/// `radius` around the hub; the vertex at angle 0 sits exactly at
/// distance `radius`, at `(radius, 0)`.  (How close the other vertices
/// come to the circle is a property of the sine approximation, checked
/// numerically by the tests.)
pub proof fn lemma_polygon_boundary(sides: int, radius: int)
    requires
        3 <= sides <= MAX_SIDES,
        0 < radius <= MAX_COORD,
    ensures
        forall|i: int|
            0 <= i < sides ==> -radius <= #[trigger] circle_x(sides, i, radius) <= radius
                && -radius <= circle_y(sides, i, radius) <= radius,
        circle_x(sides, 0, radius) == radius,
        circle_y(sides, 0, radius) == 0,
{
    assert forall|i: int|
        0 <= i < sides implies -radius <= #[trigger] circle_x(sides, i, radius) <= radius
        && -radius <= circle_y(sides, i, radius) <= radius by {
        angle_steps_lt_full(sides, i);
        let q = angle_of(sides, i);
        lemma_cos_bounds(q);
        lemma_sin_bounds(q);
        lemma_scale_by_bounds(radius, cos_spec(q));
        lemma_scale_by_bounds(radius, sin_spec(q));
    }
    assert(0 * (FULL_TURN as int) == 0) by (nonlinear_arith);
    lemma_div_of0(sides);
    assert(angle_of(sides, 0) == 0);
    lemma_sin_cos_at_zero();
    assert(radius * (SCALE as int) == (SCALE as int) * radius) by (nonlinear_arith);
    lemma_div_multiples_vanish(radius, SCALE as int);
    assert(circle_x(sides, 0, radius) == radius);
    assert(radius * 0 == 0) by (nonlinear_arith);
    lemma_div_of0(SCALE as int);
    assert(circle_y(sides, 0, radius) == 0);
}

} // verus!
