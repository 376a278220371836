//! Closed solids assembled from fan caps and explicit bands: the
//! icosahedron and the rectangular prism.
//!
//! Both constructors take their vertices as arguments; computing the
//! vertex coordinates (trigonometry for the icosahedron rings, vector
//! sums for the prism corners) is numeric work that stays with the
//! caller, while the assembly — which vertex lands in which face, with
//! which winding — is pinned down here.

use vstd::prelude::*;

use crate::geometry::{Face, Point};
use crate::mesh::Object;

verus! {

/// The twenty faces of an icosahedron built from its north pole, its
/// south pole, and the two five-point latitude rings: an inverted fan
/// cap around the north pole, a fan cap around the south pole, a
/// zig-zag band over ring indices 0..4, and an explicit wrap-around
/// pair closing index 4 back to 0.
pub open spec fn spec_icosahedron(north: Point, south: Point, t: Seq<Point>, b: Seq<Point>) -> Seq<
    Face,
>
    recommends
        t.len() == 5,
        b.len() == 5,
{
    seq![
        Face::spec_new(north, t[0], t[1]),
        Face::spec_new(north, t[1], t[2]),
        Face::spec_new(north, t[2], t[3]),
        Face::spec_new(north, t[3], t[4]),
        Face::spec_new(north, t[4], t[0]),
        Face::spec_new(south, b[1], b[0]),
        Face::spec_new(south, b[2], b[1]),
        Face::spec_new(south, b[3], b[2]),
        Face::spec_new(south, b[4], b[3]),
        Face::spec_new(south, b[0], b[4]),
        Face::spec_new(b[0], t[1], t[0]),
        Face::spec_new(b[0], b[1], t[1]),
        Face::spec_new(b[1], t[2], t[1]),
        Face::spec_new(b[1], b[2], t[2]),
        Face::spec_new(b[2], t[3], t[2]),
        Face::spec_new(b[2], b[3], t[3]),
        Face::spec_new(b[3], t[4], t[3]),
        Face::spec_new(b[3], b[4], t[4]),
        Face::spec_new(t[0], t[4], b[4]),
        Face::spec_new(b[4], b[0], t[0]),
    ]
}

/// The twelve faces of an axis-aligned box given its eight corners.
/// Each of the six rectangular panels is a two-triangle fan anchored at
/// one corner; the three panels meeting the far corner are the built
/// ones' inverted translates, so the windings face outward in pairs.
pub open spec fn spec_prism(
    o: Point,
    x: Point,
    y: Point,
    z: Point,
    xy: Point,
    yz: Point,
    xz: Point,
    xyz: Point,
) -> Seq<Face> {
    seq![
        Face::spec_new(o, y, xy),
        Face::spec_new(o, xy, x),
        Face::spec_new(z, xyz, yz),
        Face::spec_new(z, xz, xyz),
        Face::spec_new(o, z, yz),
        Face::spec_new(o, yz, y),
        Face::spec_new(x, xyz, xz),
        Face::spec_new(x, xy, xyz),
        Face::spec_new(o, x, xz),
        Face::spec_new(o, xz, z),
        Face::spec_new(y, xyz, xy),
        Face::spec_new(y, yz, xyz),
    ]
}

impl Object {
    /// Assemble an icosahedron from its two poles and its two latitude
    /// rings of five points each: exactly twenty faces, laid out as
    /// `spec_icosahedron` gives them. Scaling the result to a chosen
    /// radius is numeric work left with the caller.
    pub fn icosahedron(north: Point, south: Point, top: &Vec<Point>, bottom: &Vec<Point>) -> (r:
        Object)
        requires
            top@.len() == 5,
            bottom@.len() == 5,
        ensures
            r@ == spec_icosahedron(north, south, top@, bottom@),
            r@.len() == 20,
    {
        let mut obj = Object::new();

        let top_cap = Object::umbrella(north, top).inverted();
        obj.merge(&top_cap);

        let bottom_cap = Object::umbrella(south, bottom);
        obj.merge(&bottom_cap);

        obj.append(Face::new(bottom[0], top[1], top[0]));
        obj.append(Face::new(bottom[0], bottom[1], top[1]));
        obj.append(Face::new(bottom[1], top[2], top[1]));
        obj.append(Face::new(bottom[1], bottom[2], top[2]));
        obj.append(Face::new(bottom[2], top[3], top[2]));
        obj.append(Face::new(bottom[2], bottom[3], top[3]));
        obj.append(Face::new(bottom[3], top[4], top[3]));
        obj.append(Face::new(bottom[3], bottom[4], top[4]));

        obj.append(Face::new(top[0], top[4], bottom[4]));
        obj.append(Face::new(bottom[4], bottom[0], top[0]));

        proof {
            assert(obj@ =~= spec_icosahedron(north, south, top@, bottom@));
        }
        obj
    }

    /// Assemble the twelve triangles of an axis-aligned box from its
    /// eight corners (`o` the origin corner, `x`/`y`/`z` one edge away,
    /// `xy`/`yz`/`xz` across a panel diagonal, `xyz` the far corner).
    /// The corner coordinates — vector sums of the three edge vectors —
    /// are numeric work left with the caller.
    pub fn rectangular_prism(
        o: Point,
        x: Point,
        y: Point,
        z: Point,
        xy: Point,
        yz: Point,
        xz: Point,
        xyz: Point,
    ) -> (r: Object)
        ensures
            r@ == spec_prism(o, x, y, z, xy, yz, xz, xyz),
            r@.len() == 12,
    {
        let mut obj = Object::new();

        let bottom = Object::polygon(&quad_points(o, y, xy, x));
        obj.merge(&bottom);
        obj.merge(&Object::polygon(&quad_points(z, yz, xyz, xz)).inverted());

        let side = Object::polygon(&quad_points(o, z, yz, y));
        obj.merge(&side);
        obj.merge(&Object::polygon(&quad_points(x, xz, xyz, xy)).inverted());

        let front = Object::polygon(&quad_points(o, x, xz, z));
        obj.merge(&front);
        obj.merge(&Object::polygon(&quad_points(y, xy, xyz, yz)).inverted());

        proof {
            assert(obj@ =~= spec_prism(o, x, y, z, xy, yz, xz, xyz));
        }
        obj
    }
}

/// The four corners of one rectangular panel, in fan order.
fn quad_points(a: Point, b: Point, c: Point, d: Point) -> (r: Vec<Point>)
    ensures
        r@ == seq![a, b, c, d],
{
    let mut v: Vec<Point> = Vec::new();
    v.push(a);
    v.push(b);
    v.push(c);
    v.push(d);
    proof {
        assert(v@ =~= seq![a, b, c, d]);
    }
    v
}

/// Whether the eight corners handed to `rectangular_prism` are pairwise
/// distinct, as they are for any box of nonzero extent.
pub open spec fn distinct_corners(
    o: Point,
    x: Point,
    y: Point,
    z: Point,
    xy: Point,
    yz: Point,
    xz: Point,
    xyz: Point,
) -> bool {
    &&& o != x && o != y && o != z && o != xy && o != yz && o != xz && o != xyz
    &&& x != y && x != z && x != xy && x != yz && x != xz && x != xyz
    &&& y != z && y != xy && y != yz && y != xz && y != xyz
    &&& z != xy && z != yz && z != xz && z != xyz
    &&& xy != yz && xy != xz && xy != xyz
    &&& yz != xz && yz != xyz
    &&& xz != xyz
}

/// Whether the `j`-th two-triangle panel of a twelve-face prism touches
/// the point `p`.
pub open spec fn panel_touches(faces: Seq<Face>, j: int, p: Point) -> bool
    recommends
        faces.len() == 12,
        0 <= j < 6,
{
    faces[2 * j].touches(p) || faces[2 * j + 1].touches(p)
}

/// 1 if the condition holds, else 0; used to count panels.
pub open spec fn count_one(b: bool) -> int {
    if b {
        1
    } else {
        0
    }
}

/// How many of the six panels of a twelve-face prism touch the point `p`.
pub open spec fn panel_count(faces: Seq<Face>, p: Point) -> int
    recommends
        faces.len() == 12,
{
    count_one(panel_touches(faces, 0, p)) + count_one(panel_touches(faces, 1, p)) + count_one(
        panel_touches(faces, 2, p),
    ) + count_one(panel_touches(faces, 3, p)) + count_one(panel_touches(faces, 4, p)) + count_one(
        panel_touches(faces, 5, p),
    )
}

/// Law: in a prism over eight distinct corners, every corner lies on
/// exactly three of the six rectangular panels.
pub proof fn lemma_prism_corner_panels(
    o: Point,
    x: Point,
    y: Point,
    z: Point,
    xy: Point,
    yz: Point,
    xz: Point,
    xyz: Point,
)
    requires
        distinct_corners(o, x, y, z, xy, yz, xz, xyz),
    ensures
        panel_count(spec_prism(o, x, y, z, xy, yz, xz, xyz), o) == 3,
        panel_count(spec_prism(o, x, y, z, xy, yz, xz, xyz), x) == 3,
        panel_count(spec_prism(o, x, y, z, xy, yz, xz, xyz), y) == 3,
        panel_count(spec_prism(o, x, y, z, xy, yz, xz, xyz), z) == 3,
        panel_count(spec_prism(o, x, y, z, xy, yz, xz, xyz), xy) == 3,
        panel_count(spec_prism(o, x, y, z, xy, yz, xz, xyz), yz) == 3,
        panel_count(spec_prism(o, x, y, z, xy, yz, xz, xyz), xz) == 3,
        panel_count(spec_prism(o, x, y, z, xy, yz, xz, xyz), xyz) == 3,
{
}

} // verus!
