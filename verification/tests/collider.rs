use level_geometry::collider::{build_collider, collider_from_mesh, Collider};
use level_geometry::extract::extract_mesh_vertices_indices;
use level_geometry::fixed::SCALE;
use level_geometry::mesh::{
    generate_regular_polygon, Indices, RawMesh, Triangle, Vec2, VertexAttributeValues,
};

fn extracted(mesh: &RawMesh) -> (Vec<Vec2>, Vec<Triangle>) {
    extract_mesh_vertices_indices(mesh).expect("generated mesh must carry geometry")
}

#[test]
fn round_trip_polygon_keeps_every_vertex() {
    for sides in [3usize, 6, 12, 40] {
        let mesh = generate_regular_polygon(sides, 20 * SCALE);
        let (pts, tris) = extracted(&mesh);
        assert_eq!(pts.len(), sides + 1);
        let shape = build_collider(&pts, &tris);
        assert_eq!(
            shape.vertices.len(),
            sides + 1,
            "welding a {}-gon must keep all {} vertices",
            sides,
            sides + 1
        );
        assert_eq!(shape.triangles.len(), sides);
    }
}

#[test]
fn build_collider_is_idempotent() {
    let mesh = generate_regular_polygon(8, 15 * SCALE);
    let (pts, tris) = extracted(&mesh);
    let first = build_collider(&pts, &tris);
    let second = build_collider(&pts, &tris);
    assert_eq!(first.vertices, second.vertices);
    assert_eq!(first.triangles, second.triangles);
}

#[test]
fn welding_merges_coincident_vertices() {
    // Two triangles sharing an edge, authored with the shared corners
    // repeated: welding must unify them into four vertices.
    let a = Vec2 { x: 0, y: 0 };
    let b = Vec2 { x: SCALE, y: 0 };
    let c = Vec2 { x: 0, y: SCALE };
    let d = Vec2 { x: SCALE, y: SCALE };
    let points = vec![a, b, c, b, c, d];
    let triangles = vec![Triangle { a: 0, b: 1, c: 2 }, Triangle { a: 3, b: 4, c: 5 }];
    let shape = build_collider(&points, &triangles);
    assert_eq!(shape.vertices, vec![a, b, c, d]);
    assert_eq!(shape.triangles.len(), 2);
    let t0 = shape.triangles[0];
    let t1 = shape.triangles[1];
    assert_eq!((t0.a, t0.b, t0.c), (0, 1, 2));
    assert_eq!((t1.a, t1.b, t1.c), (1, 2, 3), "shared corners must be remapped, not duplicated");
}

#[test]
fn welding_collapses_fully_duplicated_mesh() {
    let p = Vec2 { x: 3 * SCALE, y: -SCALE };
    let points = vec![p, p, p, p];
    let triangles = vec![Triangle { a: 0, b: 1, c: 2 }];
    let shape = build_collider(&points, &triangles);
    assert_eq!(shape.vertices, vec![p]);
    let t = shape.triangles[0];
    assert_eq!((t.a, t.b, t.c), (0, 0, 0));
}

#[test]
fn extraction_normalizes_interleaved_and_u16() {
    let mesh = RawMesh {
        positions: Some(VertexAttributeValues::Interleaved(vec![
            1, 2, 9, 3, 4, 9, 5, 6, 9,
        ])),
        indices: Some(Indices::U16(vec![0, 1, 2])),
    };
    let (pts, tris) = extracted(&mesh);
    assert_eq!(pts, vec![
        Vec2 { x: 1, y: 2 },
        Vec2 { x: 3, y: 4 },
        Vec2 { x: 5, y: 6 },
    ]);
    assert_eq!(tris.len(), 1);
    assert_eq!((tris[0].a, tris[0].b, tris[0].c), (0, 1, 2));
}

#[test]
fn extraction_ignores_incomplete_trailing_groups() {
    let mesh = RawMesh {
        positions: Some(VertexAttributeValues::Interleaved(vec![1, 2, 9, 3, 4])),
        indices: Some(Indices::U32(vec![0, 0, 0, 0])),
    };
    let (pts, tris) = extracted(&mesh);
    assert_eq!(pts.len(), 1);
    assert_eq!(tris.len(), 1);
}

#[test]
fn extraction_signals_missing_geometry() {
    let no_indices = RawMesh {
        positions: Some(VertexAttributeValues::Interleaved(vec![0, 0, 0])),
        indices: None,
    };
    assert!(extract_mesh_vertices_indices(&no_indices).is_none());
    let no_positions = RawMesh { positions: None, indices: Some(Indices::U32(vec![0, 0, 0])) };
    assert!(extract_mesh_vertices_indices(&no_positions).is_none());
}

#[test]
fn collider_from_mesh_welds_generated_geometry() {
    let mesh = generate_regular_polygon(6, 20 * SCALE);
    let collider = collider_from_mesh(&mesh).expect("a generated mesh must yield a collider");
    match collider {
        Collider::Trimesh(shape) => {
            assert_eq!(shape.vertices.len(), 7);
            assert_eq!(shape.triangles.len(), 6);
        },
        Collider::Cuboid { .. } => panic!("a mesh collider must be a trimesh"),
    }
}

#[test]
fn collider_from_mesh_signals_missing_geometry() {
    let bare = RawMesh { positions: None, indices: None };
    assert!(collider_from_mesh(&bare).is_none());
}
