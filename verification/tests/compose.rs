use level_geometry::collider::Collider;
use level_geometry::compose::{compose, shape_color_rgb, spawn_object, RigidBody, Rgb};
use level_geometry::fixed::SCALE;
use level_geometry::mesh::Vec2;
use level_geometry::scene::{Level, Object, ObjectKind, ShapeColor};

fn example_scene() -> Level {
    Level {
        objects: vec![
            Object {
                position: Vec2 { x: 0, y: -50 * SCALE },
                kind: ObjectKind::Platform { size: Vec2 { x: 100 * SCALE, y: 10 * SCALE } },
            },
            Object {
                position: Vec2 { x: 0, y: 100 * SCALE },
                kind: ObjectKind::Shape {
                    color: ShapeColor::Green,
                    sides: 6,
                    radius: 20 * SCALE,
                },
            },
        ],
    }
}

#[test]
fn end_to_end_scene_composes_two_records() {
    let level = example_scene();
    assert!(level.validate());
    let records = compose(&level).expect("a valid level must compose");
    assert_eq!(records.len(), 2);

    let platform = &records[0];
    assert_eq!((platform.transform.x, platform.transform.y, platform.transform.z), (
        0,
        -50 * SCALE,
        0,
    ));
    assert!(matches!(platform.body, RigidBody::Static));
    assert_eq!(platform.material, Rgb { r: 255, g: 255, b: 255 });
    match &platform.collider {
        Collider::Cuboid { x_length, y_length } => {
            assert_eq!((*x_length, *y_length), (100 * SCALE, 10 * SCALE));
        },
        Collider::Trimesh(_) => panic!("a platform must carry an exact box collider"),
    }

    let shape = &records[1];
    assert_eq!((shape.transform.x, shape.transform.y, shape.transform.z), (0, 100 * SCALE, 0));
    assert!(matches!(shape.body, RigidBody::Dynamic));
    assert_eq!(shape.material, Rgb { r: 102, g: 255, b: 102 });
    match &shape.collider {
        Collider::Trimesh(mesh_shape) => {
            assert_eq!(mesh_shape.vertices.len(), 7, "a welded hexagon keeps 7 points");
            assert_eq!(mesh_shape.triangles.len(), 6);
        },
        Collider::Cuboid { .. } => panic!("a shape must carry a trimesh collider"),
    }
}

#[test]
fn compose_rejects_an_invalid_object() {
    let level = Level {
        objects: vec![Object {
            position: Vec2 { x: 0, y: 0 },
            kind: ObjectKind::Shape { color: ShapeColor::Red, sides: 2, radius: SCALE },
        }],
    };
    assert!(!level.validate());
    assert!(compose(&level).is_none());
}

#[test]
fn compose_of_empty_scene_is_empty() {
    let level = Level { objects: vec![] };
    let records = compose(&level).expect("an empty level is valid");
    assert_eq!(records.len(), 0);
}

#[test]
fn color_mapping_is_total_and_fixed() {
    assert_eq!(shape_color_rgb(ShapeColor::Red), Rgb { r: 255, g: 102, b: 102 });
    assert_eq!(shape_color_rgb(ShapeColor::Green), Rgb { r: 102, g: 255, b: 102 });
    assert_eq!(shape_color_rgb(ShapeColor::Blue), Rgb { r: 128, g: 128, b: 255 });
}

#[test]
fn spawn_record_of_single_shape() {
    let obj = Object {
        position: Vec2 { x: 7 * SCALE, y: 8 * SCALE },
        kind: ObjectKind::Shape { color: ShapeColor::Blue, sides: 3, radius: 2 * SCALE },
    };
    assert!(obj.validate());
    let rec = spawn_object(&obj);
    assert_eq!((rec.transform.x, rec.transform.y, rec.transform.z), (7 * SCALE, 8 * SCALE, 0));
    assert_eq!(rec.material, Rgb { r: 128, g: 128, b: 255 });
    assert!(matches!(rec.body, RigidBody::Dynamic));
}

#[test]
fn scene_accessors_expose_placement_order() {
    let level = example_scene();
    let objects = level.objects();
    assert_eq!(objects.len(), 2);
    let first = objects[0];
    assert_eq!(first.position(), Vec2 { x: 0, y: -50 * SCALE });
    assert!(matches!(first.kind(), ObjectKind::Platform { .. }));
    assert!(matches!(objects[1].kind(), ObjectKind::Shape { color: ShapeColor::Green, .. }));
}
