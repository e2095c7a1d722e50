//! The level composer: walks the scene description and produces one
//! spawn record per object — a placement transform, a visual mesh, a
//! material color, a body classification and a collider — for the
//! rendering and physics collaborators to instantiate.

use crate::collider::{
    build_collider, is_merged_collider, triangle_in_range, triangles_in_range, Collider,
};
use crate::extract::{
    extract_mesh_vertices_indices, polygon_points_flat, polygon_triangles_flat,
};
use crate::mesh::{
    fan_triangle, generate_quad, generate_regular_polygon, lemma_regular_polygon_fan,
    polygon_indices, polygon_positions, quad_indices, quad_positions, Indices, RawMesh,
    VertexAttributeValues,
};
use crate::scene::{Level, Object, ObjectKind, ShapeColor};
use vstd::pervasive::unreached;
use vstd::prelude::*;

verus! {

/// An RGB material color with 8-bit channels.
#[derive(Clone, Copy, PartialEq, Eq, Structural, Debug)]
pub struct Rgb {
    pub r: u8,
    pub g: u8,
    pub b: u8,
}

/// A placement: a translation at the fixed depth layer 0 (objects do not
/// control their own depth).
#[derive(Clone, Copy, PartialEq, Eq, Structural, Debug)]
pub struct Transform {
    pub x: i64,
    pub y: i64,
    pub z: i64,
}

/// The body classification handed to the physics collaborator.
#[derive(Clone, Copy, PartialEq, Eq, Structural, Debug)]
pub enum RigidBody {
    Static,
    Dynamic,
}

/// One composed object, ready to spawn.
#[derive(Clone, Debug)]
pub struct SpawnRecord {
    pub transform: Transform,
    pub mesh: RawMesh,
    pub material: Rgb,
    pub body: RigidBody,
    pub collider: Collider,
}

/// The fixed material color of every platform.
pub open spec fn platform_rgb() -> Rgb {
    Rgb { r: 255, g: 255, b: 255 }
}

/// The fixed RGB triple of each shape color.
pub open spec fn rgb_of(c: ShapeColor) -> Rgb {
    match c {
        ShapeColor::Red => Rgb { r: 255, g: 102, b: 102 },
        ShapeColor::Green => Rgb { r: 102, g: 255, b: 102 },
        ShapeColor::Blue => Rgb { r: 128, g: 128, b: 255 },
    }
}

/// Looks up the material color of a shape color.
pub fn shape_color_rgb(c: ShapeColor) -> (rgb: Rgb)
    ensures
        rgb == rgb_of(c),
{
    match c {
        ShapeColor::Red => Rgb { r: 255, g: 102, b: 102 },
        ShapeColor::Green => Rgb { r: 102, g: 255, b: 102 },
        ShapeColor::Blue => Rgb { r: 128, g: 128, b: 255 },
    }
}

/// Law: the color mapping is total and injective — every value of the
/// closed color choice maps to exactly one fixed RGB triple, no lookup
/// can fail, and no two colors share a triple.
pub proof fn lemma_color_mapping_total()
    ensures
        rgb_of(ShapeColor::Red) == (Rgb { r: 255, g: 102, b: 102 }),
        rgb_of(ShapeColor::Green) == (Rgb { r: 102, g: 255, b: 102 }),
        rgb_of(ShapeColor::Blue) == (Rgb { r: 128, g: 128, b: 255 }),
        forall|c: ShapeColor|
            #[trigger] rgb_of(c) == rgb_of(ShapeColor::Red) || rgb_of(c) == rgb_of(
                ShapeColor::Green,
            ) || rgb_of(c) == rgb_of(ShapeColor::Blue),
        forall|c1: ShapeColor, c2: ShapeColor|
            #[trigger] rgb_of(c1) == #[trigger] rgb_of(c2) ==> c1 == c2,
{
}

/// The mesh is the generated polygon mesh of the given parameters.
pub open spec fn mesh_is_polygon(m: RawMesh, sides: int, radius: int) -> bool {
    &&& m.positions matches Some(VertexAttributeValues::Points(v)) && v@ == polygon_positions(
        sides,
        radius,
    )
    &&& m.indices matches Some(Indices::U32(ix)) && ix@ == polygon_indices(sides)
}

/// The mesh is the generated quad mesh of the given size.
pub open spec fn mesh_is_quad(m: RawMesh, sx: int, sy: int) -> bool {
    &&& m.positions matches Some(VertexAttributeValues::Points(v)) && v@ == quad_positions(sx, sy)
    &&& m.indices matches Some(Indices::U32(ix)) && ix@ == quad_indices()
}

/// The spawn record composed for one object: placed at the object's
/// position on the fixed depth layer; a platform becomes a static body
/// with a quad mesh, the platform color and an exact analytic box
/// collider of its size; a shape becomes a dynamic body with a fan
/// polygon mesh, its mapped color and the welded triangle-mesh collider
/// of the generated geometry.
pub open spec fn record_matches(obj: Object, rec: SpawnRecord) -> bool {
    &&& rec.transform == (Transform { x: obj.position.x, y: obj.position.y, z: 0 })
    &&& match obj.kind {
        ObjectKind::Platform { size } => {
            &&& rec.body == RigidBody::Static
            &&& rec.material == platform_rgb()
            &&& rec.collider matches Collider::Cuboid { x_length, y_length } && x_length == size.x
                && y_length == size.y
            &&& mesh_is_quad(rec.mesh, size.x as int, size.y as int)
        },
        ObjectKind::Shape { color, sides, radius } => {
            &&& rec.body == RigidBody::Dynamic
            &&& rec.material == rgb_of(color)
            &&& mesh_is_polygon(rec.mesh, sides as int, radius as int)
            &&& rec.collider matches Collider::Trimesh(s) && is_merged_collider(
                s,
                polygon_points_flat(sides as int, radius as int),
                polygon_triangles_flat(sides as int),
            )
        },
    }
}

/// Composes the spawn record of one well-formed object.
pub fn spawn_object(obj: &Object) -> (rec: SpawnRecord)
    requires
        obj.wf(),
    ensures
        record_matches(*obj, rec),
{
    let transform = Transform { x: obj.position.x, y: obj.position.y, z: 0 };
    match obj.kind {
        ObjectKind::Platform { size } => {
            let mesh = generate_quad(size);
            SpawnRecord {
                transform,
                mesh,
                material: Rgb { r: 255, g: 255, b: 255 },
                body: RigidBody::Static,
                collider: Collider::Cuboid { x_length: size.x, y_length: size.y },
            }
        },
        ObjectKind::Shape { color, sides, radius } => {
            let mesh = generate_regular_polygon(sides, radius);
            let ghost gpts = polygon_points_flat(sides as int, radius as int);
            let ghost gtris = polygon_triangles_flat(sides as int);
            match extract_mesh_vertices_indices(&mesh) {
                Some(pair) => {
                    let (pts, tris) = pair;
                    proof {
                        lemma_regular_polygon_fan(sides as int, radius as int);
                        assert(pts@ =~= gpts);
                        assert((3 * sides as int) / 3 == sides as int);
                        assert forall|j: int| 0 <= j < tris@.len() implies tris@[j] == gtris[j] by {
                            assert(polygon_indices(sides as int)[3 * j] == fan_triangle(
                                sides as int,
                                j,
                            ).a);
                        }
                        assert(tris@ =~= gtris);
                        assert forall|j: int|
                            0 <= j < tris@.len() implies triangle_in_range(
                            #[trigger] tris@[j],
                            pts@.len() as int,
                        ) by {
                            assert(tris@[j] == fan_triangle(sides as int, j));
                        }
                        assert(triangles_in_range(tris@, pts@.len() as int));
                    }
                    let shape = build_collider(&pts, &tris);
                    SpawnRecord {
                        transform,
                        mesh,
                        material: shape_color_rgb(color),
                        body: RigidBody::Dynamic,
                        collider: Collider::Trimesh(shape),
                    }
                },
                None => unreached(),
            }
        },
    }
}

/// Composes the whole scene: returns one spawn record per object, in
/// placement order, or `None` exactly when some object of the level
/// fails validation — nothing is spawned from an invalid level.
pub fn compose(level: &Level) -> (r: Option<Vec<SpawnRecord>>)
    ensures
        r is Some <==> level.wf(),
        r matches Some(recs) ==> recs@.len() == level.objects@.len() && forall|i: int|
            0 <= i < recs@.len() ==> record_matches(level.objects@[i], #[trigger] recs@[i]),
{
    if !level.validate() {
        return None;
    }
    let mut recs: Vec<SpawnRecord> = Vec::new();
    let mut i: usize = 0;
    while i < level.objects.len()
        invariant
            level.wf(),
            i <= level.objects@.len(),
            recs@.len() == i,
            forall|k: int| 0 <= k < i ==> record_matches(level.objects@[k], #[trigger] recs@[k]),
        decreases level.objects@.len() - i,
    {
        let obj = level.objects[i];
        let rec = spawn_object(&obj);
        recs.push(rec);
        i = i + 1;
    }
    Some(recs)
}

} // verus!
