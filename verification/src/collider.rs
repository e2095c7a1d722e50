//! The collider builder: welds duplicate vertices of a normalized
//! triangle mesh and remaps the triangles, so shared edges of adjoining
//! triangles meet in one physical boundary instead of coincident seams.
//!
//! Coordinates are already quantized fixed-point values, so two vertices
//! are duplicates exactly when they are equal; the welding tolerance is
//! one coordinate step.

use crate::extract::{
    extract_mesh_vertices_indices, extracted_points, extracted_triangles, polygon_points_flat,
};
use crate::fixed::{MAX_COORD, MAX_SIDES};
use crate::mesh::{RawMesh, Triangle, Vec2};
use vstd::prelude::*;

verus! {

/// An opaque triangle-soup collision geometry with welded vertices, or an
/// exact analytic box: what the physics collaborator consumes.
#[derive(Clone, Debug)]
pub enum Collider {
    Cuboid { x_length: i64, y_length: i64 },
    Trimesh(CollisionShape),
}

/// A triangle-mesh collision shape: each distinct 2D point appears once,
/// and triangles reference the shared vertices.
#[derive(Clone, Debug)]
pub struct CollisionShape {
    pub vertices: Vec<Vec2>,
    pub triangles: Vec<Triangle>,
}

/// No point of the sequence appears twice.
pub open spec fn pairwise_distinct(pts: Seq<Vec2>) -> bool {
    forall|a: int, b: int| 0 <= a < b < pts.len() ==> pts[a] != pts[b]
}

/// All three corner indices address fewer than `n` vertices.
pub open spec fn triangle_in_range(t: Triangle, n: int) -> bool {
    t.a < n && t.b < n && t.c < n
}

/// Every triangle of the sequence addresses fewer than `n` vertices.
pub open spec fn triangles_in_range(ts: Seq<Triangle>, n: int) -> bool {
    forall|j: int| 0 <= j < ts.len() ==> triangle_in_range(#[trigger] ts[j], n)
}

/// The welded vertex list: the input points in order, each first
/// occurrence kept, later duplicates dropped.
pub open spec fn merged_seq(pts: Seq<Vec2>) -> Seq<Vec2>
    decreases pts.len(),
{
    if pts.len() == 0 {
        Seq::<Vec2>::empty()
    } else {
        let prefix = merged_seq(pts.drop_last());
        if prefix.contains(pts.last()) {
            prefix
        } else {
            prefix.push(pts.last())
        }
    }
}

/// Welded triangle `t` stands for source triangle `o`: each corner is in
/// range and addresses the same 2D point as the source corner did.
pub open spec fn triangle_welded(verts: Seq<Vec2>, t: Triangle, pts: Seq<Vec2>, o: Triangle) -> bool {
    &&& triangle_in_range(t, verts.len() as int)
    &&& verts[t.a as int] == pts[o.a as int]
    &&& verts[t.b as int] == pts[o.b as int]
    &&& verts[t.c as int] == pts[o.c as int]
}

/// `s` is the welded collider of the points `pts` and triangles `tris`:
/// its vertices are the input points with duplicates merged, and each of
/// its triangles stands for the source triangle at the same place.
pub open spec fn is_merged_collider(s: CollisionShape, pts: Seq<Vec2>, tris: Seq<Triangle>) -> bool {
    &&& s.vertices@ == merged_seq(pts)
    &&& s.triangles@.len() == tris.len()
    &&& forall|j: int|
        0 <= j < tris.len() ==> triangle_welded(s.vertices@, #[trigger] s.triangles@[j], pts, tris[j])
}

/// Welding one more point keeps the list when the point was seen before
/// and appends it otherwise.
pub proof fn lemma_merged_step(pts: Seq<Vec2>, i: int)
    requires
        0 <= i < pts.len(),
    ensures
        merged_seq(pts.take(i + 1)) == if merged_seq(pts.take(i)).contains(pts[i]) {
            merged_seq(pts.take(i))
        } else {
            merged_seq(pts.take(i)).push(pts[i])
        },
{
    let s = pts.take(i + 1);
    assert(s.drop_last() =~= pts.take(i));
    assert(s.last() == pts[i]);
}

/// The welded list is never longer than its input.
pub proof fn lemma_merged_len(pts: Seq<Vec2>)
    ensures
        merged_seq(pts).len() <= pts.len(),
    decreases pts.len(),
{
    if pts.len() > 0 {
        lemma_merged_len(pts.drop_last());
    }
}

/// Law: after welding, each distinct 2D point appears exactly once — no
/// two vertices of the welded list are equal.
pub proof fn lemma_merged_distinct(pts: Seq<Vec2>)
    ensures
        pairwise_distinct(merged_seq(pts)),
    decreases pts.len(),
{
    if pts.len() > 0 {
        let prefix = pts.drop_last();
        lemma_merged_distinct(prefix);
        let m = merged_seq(prefix);
        let p = pts.last();
        if !m.contains(p) {
            assert forall|a: int, b: int|
                0 <= a < b < m.push(p).len() implies m.push(p)[a] != m.push(p)[b] by {
                if b < m.len() {
                    assert(m.push(p)[a] == m[a] && m.push(p)[b] == m[b]);
                } else {
                    assert(m.push(p)[b] == p);
                    assert(m.push(p)[a] == m[a]);
                    if m[a] == p {
                        assert(m.contains(p));
                    }
                }
            }
        }
    }
}

/// Law: welding a list whose points are already pairwise distinct keeps
/// it unchanged — the fan generator emits each point once, so its
/// colliders keep every vertex.
pub proof fn lemma_merged_of_distinct(pts: Seq<Vec2>)
    requires
        pairwise_distinct(pts),
    ensures
        merged_seq(pts) == pts,
    decreases pts.len(),
{
    if pts.len() == 0 {
        assert(merged_seq(pts) =~= pts);
    } else {
        let prefix = pts.drop_last();
        assert forall|a: int, b: int| 0 <= a < b < prefix.len() implies prefix[a] != prefix[b] by {
            assert(prefix[a] == pts[a] && prefix[b] == pts[b]);
        }
        lemma_merged_of_distinct(prefix);
        let p = pts.last();
        if merged_seq(prefix).contains(p) {
            let i = choose|i: int| 0 <= i < prefix.len() && prefix[i] == p;
            assert(pts[i] == pts[pts.len() - 1]);
            assert(false);
        }
        assert(merged_seq(pts) =~= pts);
    }
}

/// Law: the welded topology is a function of the input alone — two
/// colliders that both weld the same points and triangles have identical
/// vertex lists and identical triangle lists, so building twice from the
/// same input yields the same topology.
pub proof fn lemma_collider_topology_unique(
    s1: CollisionShape,
    s2: CollisionShape,
    pts: Seq<Vec2>,
    tris: Seq<Triangle>,
)
    requires
        is_merged_collider(s1, pts, tris),
        is_merged_collider(s2, pts, tris),
    ensures
        s1.vertices@ == s2.vertices@,
        s1.triangles@ == s2.triangles@,
{
    lemma_merged_distinct(pts);
    let verts = merged_seq(pts);
    assert forall|j: int| 0 <= j < tris.len() implies s1.triangles@[j] == s2.triangles@[j] by {
        let t1 = s1.triangles@[j];
        let t2 = s2.triangles@[j];
        assert(triangle_welded(verts, t1, pts, tris[j]));
        assert(triangle_welded(verts, t2, pts, tris[j]));
        if t1.a != t2.a {
            assert(verts[t1.a as int] != verts[t2.a as int]);
        }
        if t1.b != t2.b {
            assert(verts[t1.b as int] != verts[t2.b as int]);
        }
        if t1.c != t2.c {
            assert(verts[t1.c as int] != verts[t2.c as int]);
        }
    }
    assert(s1.triangles@ =~= s2.triangles@);
}

fn find_point(verts: &Vec<Vec2>, p: Vec2) -> (r: Option<usize>)
    ensures
        r matches Some(j) ==> j < verts@.len() && verts@[j as int] == p,
        r is None ==> !verts@.contains(p),
{
    let mut j: usize = 0;
    while j < verts.len()
        invariant
            j <= verts@.len(),
            forall|k: int| 0 <= k < j ==> verts@[k] != p,
        decreases verts@.len() - j,
    {
        if verts[j] == p {
            return Some(j);
        }
        j = j + 1;
    }
    proof {
        assert(!verts@.contains(p));
    }
    None
}

/// Builds the triangle-mesh collision shape: welds duplicate points into
/// single vertices and remaps every triangle onto the welded vertices, so
/// the physics system sees shared edges as one boundary.  The points must
/// be non-empty and every triangle index in range; upstream generation
/// guarantees both.
pub fn build_collider(points: &Vec<Vec2>, triangles: &Vec<Triangle>) -> (shape: CollisionShape)
    requires
        points@.len() > 0,
        points@.len() <= u32::MAX,
        triangles_in_range(triangles@, points@.len() as int),
    ensures
        is_merged_collider(shape, points@, triangles@),
        1 <= shape.vertices@.len() <= points@.len(),
{
    let n: usize = points.len();
    let mut verts: Vec<Vec2> = Vec::new();
    let mut remap: Vec<usize> = Vec::new();
    let mut i: usize = 0;
    while i < n
        invariant
            i <= n,
            n == points@.len(),
            verts@ == merged_seq(points@.take(i as int)),
            remap@.len() == i,
            forall|k: int|
                0 <= k < i ==> #[trigger] remap@[k] < verts@.len() && verts@[remap@[k] as int]
                    == points@[k],
        decreases n - i,
    {
        let p = points[i];
        proof {
            lemma_merged_step(points@, i as int);
        }
        match find_point(&verts, p) {
            Some(j) => {
                proof {
                    assert(verts@.contains(p));
                }
                remap.push(j);
            },
            None => {
                remap.push(verts.len());
                verts.push(p);
            },
        }
        i = i + 1;
    }
    proof {
        assert(points@.take(n as int) =~= points@);
        lemma_merged_len(points@);
    }
    let mut tris: Vec<Triangle> = Vec::new();
    let mut j: usize = 0;
    while j < triangles.len()
        invariant
            j <= triangles@.len(),
            n == points@.len(),
            n <= u32::MAX,
            triangles_in_range(triangles@, points@.len() as int),
            verts@ == merged_seq(points@),
            verts@.len() <= n,
            remap@.len() == n,
            forall|k: int|
                0 <= k < n ==> #[trigger] remap@[k] < verts@.len() && verts@[remap@[k] as int]
                    == points@[k],
            tris@.len() == j,
            forall|k: int|
                0 <= k < j ==> triangle_welded(verts@, #[trigger] tris@[k], points@, triangles@[k]),
        decreases triangles@.len() - j,
    {
        let t = triangles[j];
        let ra: usize = remap[t.a as usize];
        let rb: usize = remap[t.b as usize];
        let rc: usize = remap[t.c as usize];
        tris.push(Triangle { a: ra as u32, b: rb as u32, c: rc as u32 });
        j = j + 1;
    }
    CollisionShape { vertices: verts, triangles: tris }
}

/// Derives the collision shape of a generated mesh, as the composer does
/// for dynamic shapes: normalize, then weld.  Returns `None` exactly when
/// the mesh carries no geometry.
pub fn collider_from_mesh(mesh: &RawMesh) -> (r: Option<Collider>)
    requires
        (mesh.positions is Some && mesh.indices is Some) ==> {
            let pts = extracted_points(mesh.positions->Some_0);
            &&& pts.len() > 0
            &&& pts.len() <= u32::MAX
            &&& triangles_in_range(extracted_triangles(mesh.indices->Some_0), pts.len() as int)
        },
    ensures
        r is Some <==> (mesh.positions is Some && mesh.indices is Some),
        r matches Some(c) ==> c matches Collider::Trimesh(s) && is_merged_collider(
            s,
            extracted_points(mesh.positions->Some_0),
            extracted_triangles(mesh.indices->Some_0),
        ),
{
    match extract_mesh_vertices_indices(mesh) {
        Some(pair) => {
            let (pts, tris) = pair;
            Some(Collider::Trimesh(build_collider(&pts, &tris)))
        },
        None => None,
    }
}


/// Law: the round trip from the fan generator through extraction into the
/// welded collider keeps exactly `sides + 1` vertices, provided the
/// generated points are pairwise distinct: the fan emits each point once,
/// so welding finds nothing to merge.  (A tiny radius can collapse
/// neighboring boundary vertices onto the same fixed-point step; welding
/// then reduces them, which is its purpose.)
pub proof fn lemma_polygon_round_trip(sides: int, radius: int)
    requires
        3 <= sides <= MAX_SIDES,
        0 < radius <= MAX_COORD,
        pairwise_distinct(polygon_points_flat(sides, radius)),
    ensures
        merged_seq(polygon_points_flat(sides, radius)) == polygon_points_flat(sides, radius),
        merged_seq(polygon_points_flat(sides, radius)).len() == sides + 1,
{
    lemma_merged_of_distinct(polygon_points_flat(sides, radius));
}

} // verus!
