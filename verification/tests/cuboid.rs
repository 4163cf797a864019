use cuboid_mesh::cuboid::{CuboidBuilder, Vertex};
use cuboid_mesh::frac::Frac;

/// The rational as a float (exact for the small values these tests touch).
fn f(x: Frac) -> f64 {
    x.num as f64 / x.den as f64
}

fn pos(v: &Vertex) -> [f64; 3] {
    [f(v.position.x), f(v.position.y), f(v.position.z)]
}

fn nrm(v: &Vertex) -> [f64; 3] {
    [f(v.normal.x), f(v.normal.y), f(v.normal.z)]
}

fn sub3(a: [f64; 3], b: [f64; 3]) -> [f64; 3] {
    [a[0] - b[0], a[1] - b[1], a[2] - b[2]]
}

fn add3(a: [f64; 3], b: [f64; 3]) -> [f64; 3] {
    [a[0] + b[0], a[1] + b[1], a[2] + b[2]]
}

fn cross(a: [f64; 3], b: [f64; 3]) -> [f64; 3] {
    [
        a[1] * b[2] - a[2] * b[1],
        a[2] * b[0] - a[0] * b[2],
        a[0] * b[1] - a[1] * b[0],
    ]
}

fn dot(a: [f64; 3], b: [f64; 3]) -> f64 {
    a[0] * b[0] + a[1] * b[1] + a[2] * b[2]
}

fn normalize(a: [f64; 3]) -> [f64; 3] {
    let len = dot(a, a).sqrt();
    [a[0] / len, a[1] / len, a[2] / len]
}

#[test]
pub fn ensure_default_cuboid_has_unit_dimensions() {
    let vertices = CuboidBuilder::new()
        .build_vertices()
        .expect("Failed to build vertices");
    for ref vertex in vertices {
        assert_eq!(f(vertex.position.x).abs(), 0.5);
        assert_eq!(f(vertex.position.y).abs(), 0.5);
        assert_eq!(f(vertex.position.z).abs(), 0.5);
    }
}

#[test]
pub fn ensure_default_cuboid_has_centroid_at_origin() {
    let vertices = CuboidBuilder::new()
        .build_vertices()
        .expect("Failed to build vertices");
    let mut sum = [0.0f64, 0.0, 0.0];
    for ref vertex in vertices {
        sum = add3(sum, pos(vertex));
    }
    assert!(sum == [0.0, 0.0, 0.0]);
}

#[test]
pub fn ensure_default_cuboid_has_outward_facing_normals() {
    let two = Frac::new(2, 1);
    let vertices = CuboidBuilder::new()
        .scale(two, two, two)
        .build_vertices()
        .expect("Failed to build vertices");
    for ref vertex in vertices {
        let position = pos(vertex);
        let outside = add3(position, nrm(vertex));
        assert!(outside[0].abs() >= position[0].abs());
        assert!(outside[1].abs() >= position[1].abs());
        assert!(outside[2].abs() >= position[2].abs());
    }
}

#[test]
pub fn ensure_default_cuboid_has_uvs_in_unit_range() {
    let vertices = CuboidBuilder::new()
        .build_vertices()
        .expect("Failed to build vertices");
    let mut min = [f64::MAX, f64::MAX];
    let mut max = [f64::MIN, f64::MIN];
    for ref vertex in vertices {
        min[0] = f64::min(min[0], f(vertex.texcoord.u));
        min[1] = f64::min(min[1], f(vertex.texcoord.v));
        max[0] = f64::max(max[0], f(vertex.texcoord.u));
        max[1] = f64::max(max[1], f(vertex.texcoord.v));
    }
    assert!(min == [0.0, 0.0]);
    assert!(max == [1.0, 1.0]);
}

#[test]
pub fn ensure_default_cuboid_has_ccw_triangles() {
    let vertices = CuboidBuilder::new()
        .build_vertices()
        .expect("Failed to build vertices");
    for chunk in vertices.chunks(3) {
        let v0 = pos(&chunk[0]);
        let v1 = pos(&chunk[1]);
        let v2 = pos(&chunk[2]);
        let eyepos = add3(v0, nrm(&chunk[0]));
        let e0 = sub3(v1, v0);
        let e1 = sub3(v2, v0);
        let n = cross(e0, e1);
        assert!(dot(n, sub3(v0, eyepos)) <= 0.0);
        assert!(dot(n, sub3(v1, eyepos)) <= 0.0);
        assert!(dot(n, sub3(v2, eyepos)) <= 0.0);
    }
}

#[test]
pub fn ensure_default_cuboid_has_faceted_normals() {
    let vertices = CuboidBuilder::new()
        .build_vertices()
        .expect("Failed to build vertices");
    for chunk in vertices.chunks(3) {
        let v0 = pos(&chunk[0]);
        let v1 = pos(&chunk[1]);
        let v2 = pos(&chunk[2]);
        let e0 = sub3(v1, v0);
        let e1 = sub3(v2, v0);
        let n = normalize(cross(e0, e1));
        for stored in [nrm(&chunk[0]), nrm(&chunk[1]), nrm(&chunk[2])] {
            assert!((n[0] - stored[0]).abs() < 1e-9);
            assert!((n[1] - stored[1]).abs() < 1e-9);
            assert!((n[2] - stored[2]).abs() < 1e-9);
        }
    }
}

#[test]
fn generation_is_deterministic() {
    let builder = CuboidBuilder::new()
        .scale(Frac::new(3, 2), Frac::new(1, 1), Frac::new(2, 1))
        .translate(Frac::new(1, 4), Frac::new(0, 1), Frac::new(-7, 8));
    let first = builder.build_vertices().expect("Failed to build vertices");
    let second = builder.build_vertices().expect("Failed to build vertices");
    assert!(first == second);
}

#[test]
fn composition_order_changes_geometry() {
    let two = Frac::new(2, 1);
    let one = Frac::new(1, 1);
    let zero = Frac::new(0, 1);
    let scale_then_translate = CuboidBuilder::new()
        .scale(two, one, one)
        .translate(one, zero, zero)
        .build_vertices()
        .expect("Failed to build vertices");
    let translate_then_scale = CuboidBuilder::new()
        .translate(one, zero, zero)
        .scale(two, one, one)
        .build_vertices()
        .expect("Failed to build vertices");
    assert!(f(scale_then_translate[0].position.x) == 0.0);
    assert!(f(translate_then_scale[0].position.x) == 1.0);
    assert!(scale_then_translate != translate_then_scale);
}

#[test]
fn texcoords_span_exactly_zero_and_one() {
    let vertices = CuboidBuilder::new()
        .build_vertices()
        .expect("Failed to build vertices");
    let mut seen = [[false; 2]; 2];
    for ref vertex in vertices {
        let u = f(vertex.texcoord.u);
        let v = f(vertex.texcoord.v);
        assert!(u == 0.0 || u == 1.0);
        assert!(v == 0.0 || v == 1.0);
        seen[u as usize][v as usize] = true;
    }
    assert!(seen[0][0] && seen[0][1] && seen[1][0] && seen[1][1]);
}

#[test]
fn quarter_turn_about_z_rotates_positions() {
    // cos = 0, sin = 1: the corner at (-1/2, -1/2, -1/2) lands at
    // (1/2, -1/2, -1/2), and directions follow.
    let c = Frac::new(0, 1);
    let s = Frac::new(1, 1);
    let vertices = CuboidBuilder::new()
        .rotate_z(c, s)
        .build_vertices()
        .expect("Failed to build vertices");
    let first = pos(&vertices[0]);
    assert!(first == [0.5, -0.5, -0.5]);
    // The -X face direction turns to -Y.
    assert!(nrm(&vertices[0]) == [0.0, -1.0, 0.0]);
}

#[test]
fn singular_scale_falls_back_to_identity_normals() {
    let zero = Frac::new(0, 1);
    let one = Frac::new(1, 1);
    let vertices = CuboidBuilder::new()
        .scale(zero, one, one)
        .build_vertices()
        .expect("Failed to build vertices");
    // The first face is -X: with a singular linear part the direction is the
    // untransformed outward unit normal.
    assert!(nrm(&vertices[0]) == [-1.0, 0.0, 0.0]);
    for ref vertex in vertices {
        assert!(f(vertex.position.x) == 0.0);
    }
}

#[test]
fn non_uniform_scale_keeps_normals_outward() {
    let vertices = CuboidBuilder::new()
        .scale(Frac::new(2, 1), Frac::new(1, 1), Frac::new(1, 2))
        .build_vertices()
        .expect("Failed to build vertices");
    for ref vertex in vertices {
        let position = pos(vertex);
        let outside = add3(position, nrm(vertex));
        assert!(outside[0].abs() >= position[0].abs());
        assert!(outside[1].abs() >= position[1].abs());
        assert!(outside[2].abs() >= position[2].abs());
    }
}

#[test]
fn half_scale_halves_dimensions() {
    let half = Frac::new(1, 2);
    let vertices = CuboidBuilder::new()
        .scale(half, half, half)
        .build_vertices()
        .expect("Failed to build vertices");
    for ref vertex in vertices {
        assert_eq!(f(vertex.position.x).abs(), 0.25);
        assert_eq!(f(vertex.position.y).abs(), 0.25);
        assert_eq!(f(vertex.position.z).abs(), 0.25);
    }
}
