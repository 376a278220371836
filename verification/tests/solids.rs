//! Icosahedron, sphere subdivision and rectangular prism.

use rustcad::geometry::{Face, Point};
use rustcad::mesh::{EdgeMidpoints, Object};

fn pt(x: f32, y: f32, z: f32) -> Point {
    Point::new(x.to_bits(), y.to_bits(), z.to_bits())
}

fn xyz(p: Point) -> (f32, f32, f32) {
    (
        f32::from_bits(p.x),
        f32::from_bits(p.y),
        f32::from_bits(p.z),
    )
}

fn norm(p: Point) -> f32 {
    let (x, y, z) = xyz(p);
    (x * x + y * y + z * z).sqrt()
}

/// The edge midpoint pushed out to the unit sphere, as the sphere
/// generator computes it: `normalize((a + b) / 2)`.
fn unit_mid(a: Point, b: Point) -> Point {
    let (ax, ay, az) = xyz(a);
    let (bx, by, bz) = xyz(b);
    let (mx, my, mz) = ((ax + bx) / 2.0, (ay + by) / 2.0, (az + bz) / 2.0);
    let len = (mx * mx + my * my + mz * mz).sqrt();
    pt(mx / len, my / len, mz / len)
}

fn midpoints_of(f: &Face) -> EdgeMidpoints {
    EdgeMidpoints {
        m01: unit_mid(f.v0, f.v1),
        m12: unit_mid(f.v1, f.v2),
        m02: unit_mid(f.v0, f.v2),
    }
}

/// The two five-point latitude rings of a unit icosahedron.
fn icosa_rings() -> (Vec<Point>, Vec<Point>) {
    let lat = 0.5f32.atan();
    let c = (1.0 - lat * lat).sqrt();
    let theta = 2.0 * std::f32::consts::PI / 5.0;
    let mut top = Vec::new();
    let mut bottom = Vec::new();
    for i in 0..5 {
        let a = theta * i as f32;
        top.push(pt(c * a.cos(), c * a.sin(), lat));
        let b = theta * (0.5 + i as f32);
        bottom.push(pt(c * b.cos(), c * b.sin(), -lat));
    }
    (top, bottom)
}

fn unit_icosahedron() -> Object {
    let (top, bottom) = icosa_rings();
    Object::icosahedron(pt(0.0, 0.0, 1.0), pt(0.0, 0.0, -1.0), &top, &bottom)
}

#[test]
fn icosahedron_has_twenty_faces() {
    let ico = unit_icosahedron();
    assert_eq!(ico.len(), 20);
}

#[test]
fn icosahedron_vertices_lie_on_the_unit_sphere() {
    let ico = unit_icosahedron();
    for f in &ico.faces {
        for v in [f.v0, f.v1, f.v2] {
            assert!((norm(v) - 1.0).abs() < 1e-5);
        }
    }
}

#[test]
fn icosahedron_scaled_vertices_lie_at_radius() {
    // Scaling the mesh by the radius is the caller's numeric step; the
    // structure is unchanged and every vertex lands at distance r.
    let r = 2.5f32;
    let ico = unit_icosahedron();
    let mut scaled = Object::new();
    for f in &ico.faces {
        let s = |p: Point| {
            let (x, y, z) = xyz(p);
            pt(x * r, y * r, z * r)
        };
        scaled.append(Face::new(s(f.v0), s(f.v1), s(f.v2)));
    }
    assert_eq!(scaled.len(), 20);
    for f in &scaled.faces {
        for v in [f.v0, f.v1, f.v2] {
            assert!((norm(v) - r).abs() < 1e-4);
        }
    }
}

#[test]
fn icosahedron_caps_fan_around_the_poles() {
    let (top, bottom) = icosa_rings();
    let north = pt(0.0, 0.0, 1.0);
    let south = pt(0.0, 0.0, -1.0);
    let ico = Object::icosahedron(north, south, &top, &bottom);
    // top cap: inverted umbrella, so (north, top[i], top[i+1])
    for i in 0..4 {
        assert_eq!(ico.faces[i].v0, north);
        assert_eq!(ico.faces[i].v1, top[i]);
        assert_eq!(ico.faces[i].v2, top[i + 1]);
    }
    assert_eq!(ico.faces[4].v1, top[4]);
    assert_eq!(ico.faces[4].v2, top[0]);
    // bottom cap: plain umbrella, so (south, bottom[i+1], bottom[i])
    for i in 0..4 {
        assert_eq!(ico.faces[5 + i].v0, south);
        assert_eq!(ico.faces[5 + i].v1, bottom[i + 1]);
        assert_eq!(ico.faces[5 + i].v2, bottom[i]);
    }
    // wrap-around pair closing ring index 4 back to 0
    assert_eq!(ico.faces[18].v0, top[0]);
    assert_eq!(ico.faces[18].v1, top[4]);
    assert_eq!(ico.faces[18].v2, bottom[4]);
    assert_eq!(ico.faces[19].v0, bottom[4]);
    assert_eq!(ico.faces[19].v1, bottom[0]);
    assert_eq!(ico.faces[19].v2, top[0]);
}

#[test]
fn spherify_quadruples_the_face_count() {
    let ico = unit_icosahedron();
    let mids: Vec<EdgeMidpoints> = ico.faces.iter().map(midpoints_of).collect();
    let once = ico.spherify(&mids);
    assert_eq!(once.len(), 80);
}

#[test]
fn spherify_children_sit_on_corners_and_midpoints() {
    let ico = unit_icosahedron();
    let mids: Vec<EdgeMidpoints> = ico.faces.iter().map(midpoints_of).collect();
    let once = ico.spherify(&mids);
    let f = ico.faces[7];
    let m = mids[7];
    assert_eq!(once.faces[28].v0, f.v0);
    assert_eq!(once.faces[28].v1, m.m01);
    assert_eq!(once.faces[28].v2, m.m02);
    assert_eq!(once.faces[29].v0, f.v1);
    assert_eq!(once.faces[29].v1, m.m12);
    assert_eq!(once.faces[29].v2, m.m01);
    assert_eq!(once.faces[30].v0, f.v2);
    assert_eq!(once.faces[30].v1, m.m02);
    assert_eq!(once.faces[30].v2, m.m12);
    assert_eq!(once.faces[31].v0, m.m01);
    assert_eq!(once.faces[31].v1, m.m12);
    assert_eq!(once.faces[31].v2, m.m02);
}

#[test]
fn four_subdivision_rounds_give_a_unit_sphere_of_5120_faces() {
    // sphere(r): icosahedron(1.0), then four rounds of spherify; the
    // radius is not reapplied, so the result is unit-radius.
    let mut obj = unit_icosahedron();
    for _ in 1..=4 {
        let mids: Vec<EdgeMidpoints> = obj.faces.iter().map(midpoints_of).collect();
        obj = obj.spherify(&mids);
    }
    assert_eq!(obj.len(), 5120);
    for f in &obj.faces {
        for v in [f.v0, f.v1, f.v2] {
            assert!((norm(v) - 1.0).abs() < 1e-5);
        }
    }
}

/// The eight corners of a `w`-by-`d`-by-`h` box, computed by the same
/// vector sums the generator's caller performs.
fn box_corners(w: f32, d: f32, h: f32) -> [Point; 8] {
    [
        pt(0.0, 0.0, 0.0),
        pt(w, 0.0, 0.0),
        pt(0.0, d, 0.0),
        pt(0.0, 0.0, h),
        pt(w, d, 0.0),
        pt(0.0, d, h),
        pt(w, 0.0, h),
        pt(w, d, h),
    ]
}

#[test]
fn rectangular_prism_has_twelve_faces() {
    let [o, x, y, z, xy, yz, xz, xyz_c] = box_corners(2.0, 3.0, 4.0);
    let prism = Object::rectangular_prism(o, x, y, z, xy, yz, xz, xyz_c);
    assert_eq!(prism.len(), 12);
}

#[test]
fn rectangular_prism_touches_each_corner_with_three_panels() {
    let corners = box_corners(2.0, 3.0, 4.0);
    let [o, x, y, z, xy, yz, xz, xyz_c] = corners;
    let prism = Object::rectangular_prism(o, x, y, z, xy, yz, xz, xyz_c);
    let touches = |f: &Face, p: Point| f.v0 == p || f.v1 == p || f.v2 == p;
    for corner in corners {
        let mut panels = 0;
        for j in 0..6 {
            if touches(&prism.faces[2 * j], corner) || touches(&prism.faces[2 * j + 1], corner) {
                panels += 1;
            }
        }
        assert_eq!(panels, 3);
    }
}

#[test]
fn rectangular_prism_panels_face_outward_in_pairs() {
    let [o, x, y, z, xy, yz, xz, xyz_c] = box_corners(1.0, 1.0, 1.0);
    let prism = Object::rectangular_prism(o, x, y, z, xy, yz, xz, xyz_c);
    // bottom panel: fan at the origin over (y, xy, x)
    assert_eq!(prism.faces[0].v0, o);
    assert_eq!(prism.faces[0].v1, y);
    assert_eq!(prism.faces[0].v2, xy);
    assert_eq!(prism.faces[1].v1, xy);
    assert_eq!(prism.faces[1].v2, x);
    // its translated copy is inverted: fan at z over (xyz, yz) and (xz, xyz)
    assert_eq!(prism.faces[2].v0, z);
    assert_eq!(prism.faces[2].v1, xyz_c);
    assert_eq!(prism.faces[2].v2, yz);
    assert_eq!(prism.faces[3].v1, xz);
    assert_eq!(prism.faces[3].v2, xyz_c);
}
