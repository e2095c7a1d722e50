use level_geometry::fixed::SCALE;
use level_geometry::mesh::{
    generate_quad, generate_regular_polygon, Indices, RawMesh, Vec2, Vertex3,
    VertexAttributeValues,
};
use level_geometry::scene::{Object, ObjectKind, ShapeColor};

fn mesh_parts(m: RawMesh) -> (Vec<Vertex3>, Vec<u32>) {
    let positions = match m.positions {
        Some(VertexAttributeValues::Points(v)) => v,
        _ => panic!("generated mesh must carry per-vertex positions"),
    };
    let indices = match m.indices {
        Some(Indices::U32(ix)) => ix,
        _ => panic!("generated mesh must carry 32-bit indices"),
    };
    (positions, indices)
}

#[test]
fn polygon_vertex_and_triangle_counts() {
    for sides in [3usize, 4, 5, 6, 12, 64] {
        let m = generate_regular_polygon(sides, 20 * SCALE);
        let (v, ix) = mesh_parts(m);
        assert_eq!(v.len(), sides + 1);
        assert_eq!(ix.len(), 3 * sides);
        for t in 0..sides {
            assert_eq!(ix[3 * t], 0, "triangle {} must reference the hub", t);
            assert_eq!(ix[3 * t + 1] as usize, t + 1);
            let wrap = if t + 1 < sides { t + 2 } else { 1 };
            assert_eq!(ix[3 * t + 2] as usize, wrap);
        }
    }
}

#[test]
fn polygon_hub_and_first_vertex_exact() {
    let radius = 20 * SCALE;
    let m = generate_regular_polygon(6, radius);
    let (v, _) = mesh_parts(m);
    assert_eq!((v[0].x, v[0].y, v[0].z), (0, 0, 0));
    assert_eq!((v[1].x, v[1].y, v[1].z), (radius, 0, 0));
}

#[test]
fn polygon_boundary_distance_and_spacing() {
    let radius = 20 * SCALE;
    let rf = radius as f64;
    for sides in [3usize, 6, 17, 32] {
        let m = generate_regular_polygon(sides, radius);
        let (v, _) = mesh_parts(m);
        let mut angles: Vec<f64> = Vec::new();
        for i in 1..=sides {
            let x = v[i].x as f64;
            let y = v[i].y as f64;
            let dist = (x * x + y * y).sqrt();
            let err = (dist - rf).abs() / rf;
            assert!(err < 0.005, "vertex {} of {}-gon off the circle by {}", i, sides, err);
            let mut angle = y.atan2(x);
            if angle < 0.0 {
                angle += std::f64::consts::TAU;
            }
            angles.push(angle);
        }
        let step = std::f64::consts::TAU / sides as f64;
        for i in 0..sides {
            let a = angles[i];
            let b = if i + 1 < sides { angles[i + 1] } else { angles[0] + std::f64::consts::TAU };
            let d = b - a;
            assert!(
                (d - step).abs() < 0.02 * step + 0.002,
                "angular spacing {} deviates from {} at vertex {} of {}-gon",
                d,
                step,
                i,
                sides
            );
        }
    }
}

#[test]
fn polygon_minimum_sides_not_degenerate() {
    let m = generate_regular_polygon(3, 20 * SCALE);
    let (v, ix) = mesh_parts(m);
    assert_eq!(v.len(), 4);
    assert_eq!(ix.len(), 9);
    for t in 0..3 {
        let (a, b, c) = (ix[3 * t] as usize, ix[3 * t + 1] as usize, ix[3 * t + 2] as usize);
        assert!(a < 4 && b < 4 && c < 4);
        assert!(a != b && b != c && a != c);
        let (p0, p1, p2) = (v[a], v[b], v[c]);
        let double_area =
            ((p1.x - p0.x) as i128) * ((p2.y - p0.y) as i128)
                - ((p2.x - p0.x) as i128) * ((p1.y - p0.y) as i128);
        assert!(double_area > 0, "triangle {} is collapsed or wound backwards", t);
    }
}

#[test]
fn quad_counts_corners_and_area() {
    let sx = 100 * SCALE;
    let sy = 10 * SCALE;
    let m = generate_quad(Vec2 { x: sx, y: sy });
    let (v, ix) = mesh_parts(m);
    assert_eq!(v.len(), 4);
    assert_eq!(ix, vec![0, 1, 2, 0, 2, 3]);
    let (hx, hy) = (sx / 2, sy / 2);
    assert_eq!((v[0].x, v[0].y), (-hx, -hy));
    assert_eq!((v[1].x, v[1].y), (hx, -hy));
    assert_eq!((v[2].x, v[2].y), (hx, hy));
    assert_eq!((v[3].x, v[3].y), (-hx, hy));
    let mut double_area_sum: i128 = 0;
    for t in 0..2 {
        let (p0, p1, p2) = (
            v[ix[3 * t] as usize],
            v[ix[3 * t + 1] as usize],
            v[ix[3 * t + 2] as usize],
        );
        let double_area =
            ((p1.x - p0.x) as i128) * ((p2.y - p0.y) as i128)
                - ((p2.x - p0.x) as i128) * ((p1.y - p0.y) as i128);
        assert!(double_area > 0, "quad triangle {} wound backwards", t);
        double_area_sum += double_area;
    }
    assert_eq!(double_area_sum, 2 * (sx as i128) * (sy as i128));
}

#[test]
fn validation_rejects_bad_parameters() {
    let too_few_sides = ObjectKind::Shape { color: ShapeColor::Red, sides: 2, radius: SCALE };
    assert!(!too_few_sides.validate());
    let zero_radius = ObjectKind::Shape { color: ShapeColor::Red, sides: 5, radius: 0 };
    assert!(!zero_radius.validate());
    let negative_radius = ObjectKind::Shape { color: ShapeColor::Blue, sides: 5, radius: -SCALE };
    assert!(!negative_radius.validate());
    let flat_platform = ObjectKind::Platform { size: Vec2 { x: 10 * SCALE, y: 0 } };
    assert!(!flat_platform.validate());
    let good_shape = ObjectKind::Shape { color: ShapeColor::Green, sides: 3, radius: SCALE };
    assert!(good_shape.validate());
    let good_platform = ObjectKind::Platform { size: Vec2 { x: SCALE, y: SCALE } };
    assert!(good_platform.validate());
    let placed = Object { position: Vec2 { x: 0, y: 0 }, kind: good_shape };
    assert!(placed.validate());
}
