//! The geometry extractor: normalizes a generated mesh into a canonical
//! 2D point list and triangle-index list, erasing the source encoding
//! (flat or per-vertex positions, 16- or 32-bit indices).

use crate::mesh::{
    fan_triangle, point_of_vertex, polygon_positions, quad_positions, Indices, RawMesh, Triangle,
    Vec2, VertexAttributeValues,
};
use vstd::arithmetic::div_mod::{lemma_fundamental_div_mod, lemma_mod_bound};
use vstd::prelude::*;

verus! {

/// The canonical point list carried by a vertex buffer: complete
/// 3-component groups in order, projected to 2D.  A trailing incomplete
/// group of a flat buffer carries no vertex and is ignored.
pub open spec fn extracted_points(a: VertexAttributeValues) -> Seq<Vec2> {
    match a {
        VertexAttributeValues::Interleaved(fl) => Seq::new(
            (fl@.len() / 3) as nat,
            |k: int| Vec2 { x: fl@[3 * k], y: fl@[3 * k + 1] },
        ),
        VertexAttributeValues::Points(vs) => Seq::new(
            vs@.len(),
            |k: int| point_of_vertex(vs@[k]),
        ),
    }
}

/// The canonical triangle list carried by an index buffer: complete index
/// triples in order, 16-bit indices widened.  A trailing incomplete
/// triple carries no triangle and is ignored.
pub open spec fn extracted_triangles(ib: Indices) -> Seq<Triangle> {
    match ib {
        Indices::U16(ix) => Seq::new(
            (ix@.len() / 3) as nat,
            |k: int| Triangle {
                a: ix@[3 * k] as u32,
                b: ix@[3 * k + 1] as u32,
                c: ix@[3 * k + 2] as u32,
            },
        ),
        Indices::U32(ix) => Seq::new(
            (ix@.len() / 3) as nat,
            |k: int| Triangle { a: ix@[3 * k], b: ix@[3 * k + 1], c: ix@[3 * k + 2] },
        ),
    }
}

/// The canonical 2D point list of the generated polygon mesh.
pub open spec fn polygon_points_flat(sides: int, radius: int) -> Seq<Vec2> {
    Seq::new((sides + 1) as nat, |k: int| point_of_vertex(polygon_positions(sides, radius)[k]))
}

/// The canonical triangle list of the generated polygon mesh.
pub open spec fn polygon_triangles_flat(sides: int) -> Seq<Triangle> {
    Seq::new(sides as nat, |t: int| fan_triangle(sides, t))
}

/// The canonical 2D point list of the generated quad mesh.
pub open spec fn quad_points_flat(sx: int, sy: int) -> Seq<Vec2> {
    Seq::new(4, |k: int| point_of_vertex(quad_positions(sx, sy)[k]))
}

/// The canonical triangle list of the generated quad mesh.
pub open spec fn quad_triangles_flat() -> Seq<Triangle> {
    seq![Triangle { a: 0u32, b: 1u32, c: 2u32 }, Triangle { a: 0u32, b: 2u32, c: 3u32 }]
}

/// Normalizes a mesh into its canonical 2D points and triangle triples.
/// Returns `None` exactly when the mesh lacks a position attribute or an
/// index buffer; this is a recoverable "no geometry" signal, not an error.
pub fn extract_mesh_vertices_indices(mesh: &RawMesh) -> (r: Option<(Vec<Vec2>, Vec<Triangle>)>)
    ensures
        r is Some <==> (mesh.positions is Some && mesh.indices is Some),
        r matches Some(pair) ==> pair.0@ == extracted_points(mesh.positions->Some_0)
            && pair.1@ == extracted_triangles(mesh.indices->Some_0),
{
    let positions = match &mesh.positions {
        Some(p) => p,
        None => {
            return None;
        },
    };
    let indices = match &mesh.indices {
        Some(ib) => ib,
        None => {
            return None;
        },
    };
    let ghost gpts = extracted_points(mesh.positions->Some_0);
    let pts: Vec<Vec2> = match positions {
        VertexAttributeValues::Interleaved(fl) => {
            let n: usize = fl.len() / 3;
            proof {
                lemma_fundamental_div_mod(fl@.len() as int, 3);
                lemma_mod_bound(fl@.len() as int, 3);
            }
            let mut out: Vec<Vec2> = Vec::new();
            let mut i: usize = 0;
            while i < n
                invariant
                    i <= n,
                    n == fl@.len() / 3,
                    3 * (n as int) <= fl@.len() <= usize::MAX,
                    gpts == extracted_points(VertexAttributeValues::Interleaved(*fl)),
                    out@.len() == i,
                    forall|k: int| 0 <= k < i ==> out@[k] == gpts[k],
                decreases n - i,
            {
                out.push(Vec2 { x: fl[3 * i], y: fl[3 * i + 1] });
                i = i + 1;
            }
            out
        },
        VertexAttributeValues::Points(vs) => {
            let mut out: Vec<Vec2> = Vec::new();
            let mut i: usize = 0;
            while i < vs.len()
                invariant
                    i <= vs@.len(),
                    gpts == extracted_points(VertexAttributeValues::Points(*vs)),
                    out@.len() == i,
                    forall|k: int| 0 <= k < i ==> out@[k] == gpts[k],
                decreases vs@.len() - i,
            {
                let v = vs[i];
                out.push(Vec2 { x: v.x, y: v.y });
                i = i + 1;
            }
            out
        },
    };
    let ghost gtris = extracted_triangles(mesh.indices->Some_0);
    let tris: Vec<Triangle> = match indices {
        Indices::U16(ix) => {
            let n: usize = ix.len() / 3;
            proof {
                lemma_fundamental_div_mod(ix@.len() as int, 3);
                lemma_mod_bound(ix@.len() as int, 3);
            }
            let mut out: Vec<Triangle> = Vec::new();
            let mut i: usize = 0;
            while i < n
                invariant
                    i <= n,
                    n == ix@.len() / 3,
                    3 * (n as int) <= ix@.len() <= usize::MAX,
                    gtris == extracted_triangles(Indices::U16(*ix)),
                    out@.len() == i,
                    forall|k: int| 0 <= k < i ==> out@[k] == gtris[k],
                decreases n - i,
            {
                proof {
                    assert(3 * (i as int) + 2 < ix@.len());
                }
                out.push(
                    Triangle {
                        a: ix[3 * i] as u32,
                        b: ix[3 * i + 1] as u32,
                        c: ix[3 * i + 2] as u32,
                    },
                );
                i = i + 1;
            }
            out
        },
        Indices::U32(ix) => {
            let n: usize = ix.len() / 3;
            proof {
                lemma_fundamental_div_mod(ix@.len() as int, 3);
                lemma_mod_bound(ix@.len() as int, 3);
            }
            let mut out: Vec<Triangle> = Vec::new();
            let mut i: usize = 0;
            while i < n
                invariant
                    i <= n,
                    n == ix@.len() / 3,
                    3 * (n as int) <= ix@.len() <= usize::MAX,
                    gtris == extracted_triangles(Indices::U32(*ix)),
                    out@.len() == i,
                    forall|k: int| 0 <= k < i ==> out@[k] == gtris[k],
                decreases n - i,
            {
                proof {
                    assert(3 * (i as int) + 2 < ix@.len());
                }
                out.push(Triangle { a: ix[3 * i], b: ix[3 * i + 1], c: ix[3 * i + 2] });
                i = i + 1;
            }
            out
        },
    };
    proof {
        assert(pts@ =~= gpts);
        assert(tris@ =~= gtris);
    }
    Some((pts, tris))
}

} // verus!
