//! Byte-exact STL serialization.
//!
//! The binary layout is: an 80-byte all-zero header, the little-endian
//! 32-bit face count, then 50 bytes per face (normal and three vertices
//! as three little-endian 32-bit words each, then a zero 16-bit
//! attribute count). Because the mesh already stores each coordinate as
//! its single-precision bit pattern, serializing a coordinate is
//! serializing that word: the bytes are pinned down exactly.
//!
//! The text layout is the line-oriented `solid object` form; the caller
//! supplies each point already rendered as text (one string per point,
//! four per face: normal first, then the three vertices), since turning
//! a coordinate into decimal text is numeric work.

use vstd::prelude::*;

use byteorder::{LittleEndian, WriteBytesExt};

use vstd::bytes::{
    lemma_auto_spec_u16_to_from_le_bytes, lemma_auto_spec_u32_to_from_le_bytes,
    spec_u16_to_le_bytes, spec_u32_from_le_bytes, spec_u32_to_le_bytes,
};
use vstd::string::StringExecFns;

use crate::geometry::{Face, Point};
use crate::mesh::Object;
use crate::CadError;

verus! {

/// Relies on byteorder's `WriteBytesExt::write_u32::<LittleEndian>`:
/// it appends exactly the four little-endian bytes of `v` to the
/// vector (writing into a `Vec` cannot fail).
#[verifier::external_body]
fn push_u32_le(buf: &mut Vec<u8>, v: u32)
    ensures
        final(buf)@ == old(buf)@ + spec_u32_to_le_bytes(v),
{
    buf.write_u32::<LittleEndian>(v).unwrap();
}

/// Relies on byteorder's `WriteBytesExt::write_u16::<LittleEndian>`:
/// it appends exactly the two little-endian bytes of `v` to the
/// vector (writing into a `Vec` cannot fail).
#[verifier::external_body]
fn push_u16_le(buf: &mut Vec<u8>, v: u16)
    ensures
        final(buf)@ == old(buf)@ + spec_u16_to_le_bytes(v),
{
    buf.write_u16::<LittleEndian>(v).unwrap();
}

/// The twelve bytes of one point: each axis as a little-endian word.
pub open spec fn spec_point_bytes(p: Point) -> Seq<u8> {
    spec_u32_to_le_bytes(p.x) + spec_u32_to_le_bytes(p.y) + spec_u32_to_le_bytes(p.z)
}

/// The fifty bytes of one face: normal, the three vertices, then the
/// zero attribute count.
pub open spec fn spec_face_bytes(f: Face) -> Seq<u8> {
    spec_point_bytes(f.normal) + spec_point_bytes(f.v0) + spec_point_bytes(f.v1) + spec_point_bytes(
        f.v2,
    ) + spec_u16_to_le_bytes(0u16)
}

/// The face records of a whole mesh, in face order.
pub open spec fn spec_faces_bytes(faces: Seq<Face>) -> Seq<u8>
    decreases faces.len(),
{
    if faces.len() == 0 {
        Seq::empty()
    } else {
        spec_faces_bytes(faces.drop_last()) + spec_face_bytes(faces.last())
    }
}

/// The 80-byte all-zero header.
pub open spec fn spec_stl_header() -> Seq<u8> {
    Seq::new(80, |i: int| 0u8)
}

/// The whole binary STL image of a face list.
pub open spec fn spec_stl_bytes(faces: Seq<Face>) -> Seq<u8>
    recommends
        faces.len() <= u32::MAX,
{
    spec_stl_header() + spec_u32_to_le_bytes(faces.len() as u32) + spec_faces_bytes(faces)
}

/// Each face record is exactly fifty bytes long.
pub proof fn lemma_faces_bytes_len(faces: Seq<Face>)
    ensures
        spec_faces_bytes(faces).len() == 50 * faces.len(),
    decreases faces.len(),
{
    lemma_auto_spec_u32_to_from_le_bytes();
    lemma_auto_spec_u16_to_from_le_bytes();
    if faces.len() > 0 {
        lemma_faces_bytes_len(faces.drop_last());
    }
}

/// Law: the binary image of a mesh of `N` faces is exactly `84 + 50·N`
/// bytes, and its bytes 80..84 are the little-endian encoding of `N` —
/// so decoding them gives `N` back.
pub proof fn lemma_stl_binary_size(faces: Seq<Face>)
    requires
        faces.len() <= u32::MAX,
    ensures
        spec_stl_bytes(faces).len() == 84 + 50 * faces.len(),
        spec_stl_bytes(faces).subrange(80, 84) == spec_u32_to_le_bytes(faces.len() as u32),
        spec_u32_from_le_bytes(spec_stl_bytes(faces).subrange(80, 84)) == faces.len() as u32,
{
    lemma_auto_spec_u32_to_from_le_bytes();
    lemma_faces_bytes_len(faces);
    assert(spec_stl_bytes(faces).subrange(80, 84) =~= spec_u32_to_le_bytes(faces.len() as u32));
}

/// Append the twelve bytes of one point.
fn push_point(buf: &mut Vec<u8>, p: Point)
    ensures
        final(buf)@ == old(buf)@ + spec_point_bytes(p),
{
    push_u32_le(buf, p.x);
    push_u32_le(buf, p.y);
    push_u32_le(buf, p.z);
    proof {
        assert(buf@ =~= old(buf)@ + spec_point_bytes(p));
    }
}

/// Serialize a mesh to its binary STL image: the exact bytes that
/// belong in the file, header to last attribute word.
pub fn stl_binary(obj: &Object) -> (r: Vec<u8>)
    requires
        obj@.len() <= u32::MAX,
    ensures
        r@ == spec_stl_bytes(obj@),
        r@.len() == 84 + 50 * obj@.len(),
{
    let mut buf: Vec<u8> = Vec::new();

    let mut i: usize = 0;
    while i < 80
        invariant
            i <= 80,
            buf@ == Seq::new(i as nat, |j: int| 0u8),
        decreases 80 - i,
    {
        buf.push(0u8);
        proof {
            assert(buf@ =~= Seq::new((i + 1) as nat, |j: int| 0u8));
        }
        i = i + 1;
    }

    let n = obj.faces.len();
    push_u32_le(&mut buf, n as u32);

    let mut k: usize = 0;
    while k < n
        invariant
            n == obj@.len(),
            n <= u32::MAX,
            k <= n,
            buf@ == spec_stl_header() + spec_u32_to_le_bytes(n as u32) + spec_faces_bytes(
                obj@.take(k as int),
            ),
        decreases n - k,
    {
        let f = obj.faces[k];
        push_point(&mut buf, f.normal);
        push_point(&mut buf, f.v0);
        push_point(&mut buf, f.v1);
        push_point(&mut buf, f.v2);
        push_u16_le(&mut buf, 0u16);
        proof {
            let ft = obj@.take(k + 1);
            assert(ft.drop_last() =~= obj@.take(k as int));
            assert(buf@ =~= spec_stl_header() + spec_u32_to_le_bytes(n as u32) + (spec_faces_bytes(
                ft.drop_last(),
            ) + spec_face_bytes(ft.last())));
        }
        k = k + 1;
    }

    proof {
        assert(obj@.take(n as int) =~= obj@);
        lemma_stl_binary_size(obj@);
    }
    buf
}

/// The views of a list of rendered strings.
pub open spec fn views_of(points: Seq<String>) -> Seq<Seq<char>> {
    points.map_values(|s: String| s@)
}

/// One `facet` block of the text form: the rendered normal is
/// `p[4*i]`, the rendered vertices are the three strings after it.
pub open spec fn spec_facet_text(p: Seq<Seq<char>>, i: int) -> Seq<char>
    recommends
        0 <= i,
        4 * i + 3 < p.len(),
{
    "facet normal "@ + p[4 * i] + "\n  outer loop\n    vertex "@ + p[4 * i + 1]
        + "\n    vertex "@ + p[4 * i + 2] + "\n    vertex "@ + p[4 * i + 3]
        + "\n  endloop\nendfacet\n"@
}

/// The first `k` facet blocks, in face order.
pub open spec fn spec_facets_text(p: Seq<Seq<char>>, k: int) -> Seq<char>
    decreases k,
{
    if k <= 0 {
        Seq::empty()
    } else {
        spec_facets_text(p, k - 1) + spec_facet_text(p, k - 1)
    }
}

/// The whole text STL image over a list of rendered points, four per
/// face.
pub open spec fn spec_stl_text(p: Seq<Seq<char>>) -> Seq<char>
    recommends
        p.len() % 4 == 0,
{
    "solid object\n"@ + spec_facets_text(p, p.len() as int / 4) + "endsolid object\n"@
}

/// Serialize a mesh to its text STL image. `points` holds one rendered
/// string per point in serialization order: for each face its normal,
/// then its three vertices.
pub fn stl_text(obj: &Object, points: &Vec<String>) -> (r: String)
    requires
        points@.len() == 4 * obj@.len(),
    ensures
        r@ == spec_stl_text(views_of(points@)),
{
    let ghost p = views_of(points@);
    let mut out = String::new();
    out.append("solid object\n");

    let n = obj.faces.len();
    let m = points.len();
    let mut i: usize = 0;
    while i < n
        invariant
            n == obj@.len(),
            m == points@.len(),
            points@.len() == 4 * n,
            p == views_of(points@),
            i <= n,
            out@ == "solid object\n"@ + spec_facets_text(p, i as int),
        decreases n - i,
    {
        proof {
            assert(4 * (i as int) + 3 < points@.len());
        }
        out.append("facet normal ");
        out.append(points[4 * i].as_str());
        out.append("\n  outer loop\n    vertex ");
        out.append(points[4 * i + 1].as_str());
        out.append("\n    vertex ");
        out.append(points[4 * i + 2].as_str());
        out.append("\n    vertex ");
        out.append(points[4 * i + 3].as_str());
        out.append("\n  endloop\nendfacet\n");
        proof {
            assert(out@ =~= "solid object\n"@ + spec_facets_text(p, i + 1));
        }
        i = i + 1;
    }

    out.append("endsolid object\n");
    proof {
        assert(p.len() / 4 == n as int);
        assert(out@ =~= spec_stl_text(p));
    }
    out
}

/// Declared binary STL reader with no behaviour yet: no mesh comes
/// back from it.
pub fn parse_stl(_bytes: &Vec<u8>) -> (r: Result<Object, CadError>)
    ensures
        r == Err::<Object, CadError>(CadError::NotImplemented),
{
    Err(CadError::NotImplemented)
}

/// Declared text STL reader with no behaviour yet: no mesh comes back
/// from it.
pub fn parse_text_stl(_text: &String) -> (r: Result<Object, CadError>)
    ensures
        r == Err::<Object, CadError>(CadError::NotImplemented),
{
    Err(CadError::NotImplemented)
}

} // verus!
