//! The mesh type (`Object`) and its composition operators.
//!
//! An `Object` is an ordered sequence of independent triangular faces.
//! A `Shape` is the same type used, by convention, with every vertex in
//! the z = 0 plane to stand for a flat outline.

use vstd::prelude::*;

use crate::geometry::{Face, Point};
use crate::CadError;

verus! {

/// The three subdivision points of a triangle's edges, one per edge,
/// already projected wherever the caller wants them (for a sphere, onto
/// the unit sphere). `m01` belongs to the edge `v0`-`v1`, `m12` to
/// `v1`-`v2`, and `m02` to `v0`-`v2`.
#[derive(Clone, Copy, Debug, PartialEq, Eq, Structural)]
pub struct EdgeMidpoints {
    pub m01: Point,
    pub m12: Point,
    pub m02: Point,
}

/// Every face of `s` with its winding reversed, in order.
pub open spec fn spec_inverted(s: Seq<Face>) -> Seq<Face> {
    s.map_values(|f: Face| f.spec_invert())
}

/// The four faces that replace one face under midpoint subdivision:
/// one corner triangle per vertex, then the central triangle formed by
/// the three edge points.
pub open spec fn spec_subdivided(f: Face, m: EdgeMidpoints) -> Seq<Face> {
    seq![
        Face::spec_new(f.v0, m.m01, m.m02),
        Face::spec_new(f.v1, m.m12, m.m01),
        Face::spec_new(f.v2, m.m02, m.m12),
        Face::spec_new(m.m01, m.m12, m.m02),
    ]
}

/// Midpoint subdivision of a whole face list: the concatenation of each
/// face's four children, in the parents' order.
pub open spec fn spec_spherified(faces: Seq<Face>, mids: Seq<EdgeMidpoints>) -> Seq<Face>
    decreases faces.len(),
{
    if faces.len() == 0 {
        Seq::empty()
    } else {
        spec_spherified(faces.drop_last(), mids.drop_last())
            + spec_subdivided(faces.last(), mids.last())
    }
}

/// One subdivision pass yields exactly four faces per input face.
pub proof fn lemma_spherified_len(faces: Seq<Face>, mids: Seq<EdgeMidpoints>)
    ensures
        spec_spherified(faces, mids).len() == 4 * faces.len(),
    decreases faces.len(),
{
    if faces.len() > 0 {
        lemma_spherified_len(faces.drop_last(), mids.drop_last());
    }
}

/// Law: one subdivision pass lays the four children of face `i` at
/// positions `4·i` to `4·i + 3`, so the output is the concatenation of
/// every face's children in the parents' order.
pub proof fn lemma_spherified_order(faces: Seq<Face>, mids: Seq<EdgeMidpoints>, i: int)
    requires
        mids.len() == faces.len(),
        0 <= i < faces.len(),
    ensures
        spec_spherified(faces, mids).subrange(4 * i, 4 * i + 4) == spec_subdivided(
            faces[i],
            mids[i],
        ),
    decreases faces.len(),
{
    lemma_spherified_len(faces.drop_last(), mids.drop_last());
    if i == faces.len() - 1 {
        assert(spec_spherified(faces, mids).subrange(4 * i, 4 * i + 4) =~= spec_subdivided(
            faces[i],
            mids[i],
        ));
    } else {
        lemma_spherified_order(faces.drop_last(), mids.drop_last(), i);
        assert(spec_spherified(faces, mids).subrange(4 * i, 4 * i + 4) =~= spec_spherified(
            faces.drop_last(),
            mids.drop_last(),
        ).subrange(4 * i, 4 * i + 4));
    }
}

/// An ordered collection of triangular faces.
#[derive(Clone, Debug)]
pub struct Object {
    pub faces: Vec<Face>,
}

/// A mesh restricted, by convention only, to the z = 0 plane.
pub type Shape = Object;

impl View for Object {
    type V = Seq<Face>;

    open spec fn view(&self) -> Seq<Face> {
        self.faces@
    }
}

impl Object {
    /// The empty mesh.
    pub fn new() -> (r: Object)
        ensures
            r@ == Seq::<Face>::empty(),
    {
        Object { faces: Vec::new() }
    }

    /// Number of faces.
    pub fn len(&self) -> (r: usize)
        ensures
            r == self@.len(),
    {
        self.faces.len()
    }

    /// Add a single face at the end.
    pub fn append(&mut self, face: Face)
        ensures
            final(self)@ == old(self)@.push(face),
    {
        self.faces.push(face);
    }

    /// Append all of `other`'s faces, preserving both orders.
    pub fn merge(&mut self, other: &Object)
        ensures
            final(self)@ == old(self)@ + other@,
    {
        let n = other.faces.len();
        let mut i: usize = 0;
        while i < n
            invariant
                n == other@.len(),
                i <= n,
                self@ == old(self)@ + other@.take(i as int),
            decreases n - i,
        {
            self.faces.push(other.faces[i]);
            proof {
                assert(old(self)@ + other@.take(i as int) + seq![other@[i as int]] =~= old(
                    self,
                )@ + other@.take(i + 1));
            }
            i = i + 1;
        }
        proof {
            assert(other@.take(n as int) =~= other@);
        }
    }

    /// A copy of the mesh with every face's winding reversed, used to flip
    /// the outward direction of a generated batch without re-deriving its
    /// geometry.
    pub fn inverted(&self) -> (r: Object)
        ensures
            r@ == spec_inverted(self@),
            r@.len() == self@.len(),
    {
        let n = self.faces.len();
        let mut out: Vec<Face> = Vec::new();
        let mut i: usize = 0;
        while i < n
            invariant
                n == self@.len(),
                i <= n,
                out@.len() == i,
                forall|j: int| 0 <= j < i ==> out@[j] == self@[j].spec_invert(),
            decreases n - i,
        {
            let mut f = self.faces[i];
            f.invert();
            out.push(f);
            i = i + 1;
        }
        proof {
            assert(out@ =~= spec_inverted(self@));
        }
        Object { faces: out }
    }

    /// Fan triangulation of a disk: one triangle per consecutive pair of
    /// spokes, `(centre, spokes[i+1], spokes[i])`, plus a closing triangle
    /// `(centre, spokes[0], spokes[last])` back to the first spoke. With
    /// `k` spokes this emits exactly `k` faces.
    pub fn umbrella(centre: Point, spokes: &Vec<Point>) -> (r: Object)
        requires
            spokes@.len() >= 2,
        ensures
            r@.len() == spokes@.len(),
            forall|i: int|
                0 <= i < spokes@.len() - 1 ==> r@[i] == Face::spec_new(
                    centre,
                    spokes@[i + 1],
                    spokes@[i],
                ),
            r@[spokes@.len() - 1] == Face::spec_new(
                centre,
                spokes@[0],
                spokes@[spokes@.len() - 1],
            ),
    {
        let mut obj = Object::new();
        let n = spokes.len();
        let mut i: usize = 0;
        while i < n - 1
            invariant
                n == spokes@.len(),
                n >= 2,
                i <= n - 1,
                obj@.len() == i,
                forall|j: int|
                    0 <= j < i ==> obj@[j] == Face::spec_new(centre, spokes@[j + 1], spokes@[j]),
            decreases n - i,
        {
            obj.append(Face::new(centre, spokes[i + 1], spokes[i]));
            i = i + 1;
        }
        obj.append(Face::new(centre, spokes[0], spokes[n - 1]));
        obj
    }

    /// Fan triangulation of a convex (or star-shaped from its first
    /// vertex) polygon outline: triangles `(v0, v[i+1], v[i+2])`. No ear
    /// clipping is done, so non-convex outlines are the caller's risk.
    /// With `k` vertices this emits exactly `k - 2` faces.
    pub fn polygon(vertices: &Vec<Point>) -> (r: Object)
        requires
            vertices@.len() >= 3,
        ensures
            r@.len() == vertices@.len() - 2,
            forall|i: int|
                0 <= i < vertices@.len() - 2 ==> r@[i] == Face::spec_new(
                    vertices@[0],
                    vertices@[i + 1],
                    vertices@[i + 2],
                ),
    {
        let mut shape = Object::new();
        let n = vertices.len();
        let p1 = vertices[0];
        let mut i: usize = 0;
        while i < n - 2
            invariant
                n == vertices@.len(),
                n >= 3,
                i <= n - 2,
                p1 == vertices@[0],
                shape@.len() == i,
                forall|j: int|
                    0 <= j < i ==> shape@[j] == Face::spec_new(
                        p1,
                        vertices@[j + 1],
                        vertices@[j + 2],
                    ),
            decreases n - i,
        {
            shape.append(Face::new(p1, vertices[i + 1], vertices[i + 2]));
            i = i + 1;
        }
        shape
    }

    /// Midpoint subdivision of every face: face `i` is replaced by the
    /// four children `spec_subdivided(self[i], mids[i])`, in order. The
    /// caller supplies the subdivision points (for a sphere, the edge
    /// midpoints pushed out to the unit sphere), one triple per face.
    pub fn spherify(&self, mids: &Vec<EdgeMidpoints>) -> (r: Object)
        requires
            mids@.len() == self@.len(),
        ensures
            r@ == spec_spherified(self@, mids@),
            r@.len() == 4 * self@.len(),
    {
        let n = self.faces.len();
        let mut sphere = Object::new();
        let mut i: usize = 0;
        while i < n
            invariant
                n == self@.len(),
                mids@.len() == n,
                i <= n,
                sphere@ == spec_spherified(self@.take(i as int), mids@.take(i as int)),
            decreases n - i,
        {
            let f = self.faces[i];
            let m = mids[i];
            sphere.append(Face::new(f.v0, m.m01, m.m02));
            sphere.append(Face::new(f.v1, m.m12, m.m01));
            sphere.append(Face::new(f.v2, m.m02, m.m12));
            sphere.append(Face::new(m.m01, m.m12, m.m02));
            proof {
                let ft = self@.take(i + 1);
                let mt = mids@.take(i + 1);
                assert(ft.drop_last() =~= self@.take(i as int));
                assert(mt.drop_last() =~= mids@.take(i as int));
                assert(sphere@ =~= spec_spherified(ft.drop_last(), mt.drop_last())
                    + spec_subdivided(ft.last(), mt.last()));
            }
            i = i + 1;
        }
        proof {
            assert(self@.take(n as int) =~= self@);
            assert(mids@.take(n as int) =~= mids@);
            lemma_spherified_len(self@, mids@);
        }
        sphere
    }

    /// Extrusion from a flat outline: the mesh becomes its own inverted
    /// copy (the bottom cap, wound to face downward) followed by `top`,
    /// the caller's copy of the original faces lifted by the extrusion
    /// height. No side walls are generated, so the result is two parallel
    /// caps; `top` must carry one face per original face, and the face
    /// count exactly doubles.
    pub fn extrude(&mut self, top: Object)
        requires
            top@.len() == old(self)@.len(),
        ensures
            final(self)@ == spec_inverted(old(self)@) + top@,
            final(self)@.len() == 2 * old(self)@.len(),
    {
        let bottom = self.inverted();
        let mut faces = bottom.faces;
        let mut lifted = top;
        faces.append(&mut lifted.faces);
        self.faces = faces;
    }

    /// Declared transform with no behaviour yet.
    pub fn rotate(&self, _by: Point) -> (r: Result<Object, CadError>)
        ensures
            r == Err::<Object, CadError>(CadError::NotImplemented),
    {
        Err(CadError::NotImplemented)
    }

    /// Declared transform with no behaviour yet.
    pub fn resize(&self, _size: Point) -> (r: Result<Object, CadError>)
        ensures
            r == Err::<Object, CadError>(CadError::NotImplemented),
    {
        Err(CadError::NotImplemented)
    }

    /// Declared transform with no behaviour yet.
    pub fn mirror(&self, _around: Point) -> (r: Result<Object, CadError>)
        ensures
            r == Err::<Object, CadError>(CadError::NotImplemented),
    {
        Err(CadError::NotImplemented)
    }

    /// Declared transform with no behaviour yet; `alpha` is a
    /// single-precision bit pattern.
    pub fn color_by_name(&self, _colour_name: String, _alpha: u32) -> (r: Result<
        Object,
        CadError,
    >)
        ensures
            r == Err::<Object, CadError>(CadError::NotImplemented),
    {
        Err(CadError::NotImplemented)
    }

    /// Declared transform with no behaviour yet; the channels are
    /// single-precision bit patterns.
    pub fn color(&self, _r: u32, _g: u32, _b: u32, _a: u32) -> (res: Result<Object, CadError>)
        ensures
            res == Err::<Object, CadError>(CadError::NotImplemented),
    {
        Err(CadError::NotImplemented)
    }

    /// Declared transform with no behaviour yet; `r` is a
    /// single-precision bit pattern.
    pub fn offset(&self, _r: u32) -> (res: Result<Object, CadError>)
        ensures
            res == Err::<Object, CadError>(CadError::NotImplemented),
    {
        Err(CadError::NotImplemented)
    }

    /// Declared operation with no behaviour yet.
    pub fn hull(&self, _other: &Object) -> (r: Result<Object, CadError>)
        ensures
            r == Err::<Object, CadError>(CadError::NotImplemented),
    {
        Err(CadError::NotImplemented)
    }

    /// Declared operation with no behaviour yet.
    pub fn minkowski(&self, _other: &Object) -> (r: Result<Object, CadError>)
        ensures
            r == Err::<Object, CadError>(CadError::NotImplemented),
    {
        Err(CadError::NotImplemented)
    }

    /// Declared constructor with no behaviour yet.
    pub fn polyhedron(_points: Vec<Point>) -> (r: Result<Object, CadError>)
        ensures
            r == Err::<Object, CadError>(CadError::NotImplemented),
    {
        Err(CadError::NotImplemented)
    }

    /// Declared text outline with no behaviour yet.
    pub fn text(_text: String) -> (r: Result<Object, CadError>)
        ensures
            r == Err::<Object, CadError>(CadError::NotImplemented),
    {
        Err(CadError::NotImplemented)
    }
}

} // verus!
