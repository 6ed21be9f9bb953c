//! Wavefront OBJ text for heightmap exports.
//!
//! A heightmap of `width × height` samples becomes one vertex per sample
//! (row-major, `z` outer, `x` inner), one UV per vertex and one normal per
//! vertex, followed by two triangles per grid quad.  Every face references
//! its corners with 1-based `v/vt/vn` triples.  The vertex, UV and normal
//! lines carry real-valued coordinates and are rendered by the caller; this
//! module owns the integer part of the format: the face section, the UV
//! fractions, the header and the assembly of the sections.
use vstd::prelude::*;
use vstd::string::StringSliceAdditionalSpecFns;

verus! {

/// ASCII `0`.
pub const DIGIT_ZERO: u8 = 48;
/// ASCII `/`.
pub const SLASH: u8 = 47;
/// ASCII space.
pub const SPACE: u8 = 32;
/// ASCII `f`, the face keyword.
pub const LETTER_F: u8 = 102;
/// ASCII line feed.
pub const NEWLINE: u8 = 10;

/// First line of every exported OBJ file.
pub const OBJ_HEADER: &'static str = "# symbios-ground-lab terrain export\n";

/// ASCII decimal rendering of a natural number, most significant digit first.
pub open spec fn decimal(n: nat) -> Seq<u8>
    decreases n,
{
    if n < 10 {
        seq![(DIGIT_ZERO + n) as u8]
    } else {
        decimal(n / 10).push((DIGIT_ZERO + n % 10) as u8)
    }
}

/// `i/i/i`: one corner of a face, reusing the vertex index for UV and normal.
pub open spec fn vertex_ref(i: nat) -> Seq<u8> {
    decimal(i) + seq![SLASH] + decimal(i) + seq![SLASH] + decimal(i)
}

/// `f a/a/a b/b/b c/c/c\n`: one triangle.
pub open spec fn face_line(a: nat, b: nat, c: nat) -> Seq<u8> {
    seq![LETTER_F, SPACE] + vertex_ref(a) + seq![SPACE] + vertex_ref(b) + seq![SPACE] + vertex_ref(c)
        + seq![NEWLINE]
}

/// 1-based index of the vertex at grid position `(x, z)` in a grid `w` wide.
pub open spec fn vertex_index(w: nat, x: nat, z: nat) -> nat {
    z * w + x + 1
}

/// The two triangles of the quad whose top-left corner is `(x, z)`:
/// `(tl, bl, br)` then `(tl, br, tr)`.
pub open spec fn quad_text(w: nat, x: nat, z: nat) -> Seq<u8> {
    let tl = vertex_index(w, x, z);
    let tr = vertex_index(w, x + 1, z);
    let bl = vertex_index(w, x, z + 1);
    let br = vertex_index(w, x + 1, z + 1);
    face_line(tl, bl, br) + face_line(tl, br, tr)
}

/// The first `n` quads of row `z`, left to right.
pub open spec fn row_text(w: nat, z: nat, n: nat) -> Seq<u8>
    decreases n,
{
    if n == 0 {
        Seq::empty()
    } else {
        row_text(w, z, (n - 1) as nat) + quad_text(w, (n - 1) as nat, z)
    }
}

/// Number of quads in one row of a grid `w` samples wide.
pub open spec fn quads_per_row(w: nat) -> nat {
    if w == 0 {
        0
    } else {
        (w - 1) as nat
    }
}

/// The face section for the first `rows` quad rows of a grid `w` wide.
pub open spec fn faces_text(w: nat, rows: nat) -> Seq<u8>
    decreases rows,
{
    if rows == 0 {
        Seq::empty()
    } else {
        faces_text(w, (rows - 1) as nat) + row_text(w, (rows - 1) as nat, quads_per_row(w))
    }
}

/// The complete face section of a `w × h` heightmap.
pub open spec fn obj_faces_spec(w: nat, h: nat) -> Seq<u8> {
    if h == 0 {
        Seq::empty()
    } else {
        faces_text(w, (h - 1) as nat)
    }
}

/// The whole OBJ file: header, vertex lines, UV lines, normal lines, faces.
pub open spec fn obj_document(
    w: nat,
    h: nat,
    vertices: Seq<u8>,
    uvs: Seq<u8>,
    normals: Seq<u8>,
) -> Seq<u8> {
    OBJ_HEADER.spec_bytes() + vertices + uvs + normals + obj_faces_spec(w, h)
}

/// Size guess for the output buffer before the text is written.
pub open spec fn obj_size_estimate(w: nat, h: nat) -> nat {
    let qw: nat = if w == 0 { 0 } else { (w - 1) as nat };
    let qh: nat = if h == 0 { 0 } else { (h - 1) as nat };
    w * h * 84 + qw * qh * 160
}

/// Upper bound on the pre-allocated buffer size.
pub open spec fn obj_capacity_cap() -> nat {
    128 * 1024 * 1024
}

/// Grids larger than this many samples are refused by the web build.
pub open spec fn web_obj_max_cells() -> nat {
    512 * 512
}

proof fn lemma_corner_bound(w: nat, h: nat, x: nat, z: nat)
    by (nonlinear_arith)
    requires
        x + 1 < w,
        z + 1 < h,
    ensures
        (z + 1) * w + x + 2 <= w * h,
        z * w + x + 2 <= (z + 1) * w + x + 2,
        z * w + w == (z + 1) * w,
{
}

/// Every face of the export references existing vertices: for each quad
/// `(x, z)` of a `w × h` grid, its four corner indices are distinct and lie
/// in `1..=w*h`, with the right neighbour one index on and the lower
/// neighbour one row (`w` indices) on.
pub proof fn lemma_quad_corners_valid(w: nat, h: nat, x: nat, z: nat)
    requires
        x + 1 < w,
        z + 1 < h,
    ensures
        1 <= vertex_index(w, x, z),
        vertex_index(w, x + 1, z) == vertex_index(w, x, z) + 1,
        vertex_index(w, x, z + 1) == vertex_index(w, x, z) + w,
        vertex_index(w, x + 1, z + 1) == vertex_index(w, x, z + 1) + 1,
        vertex_index(w, x + 1, z + 1) <= w * h,
{
    lemma_corner_bound(w, h, x, z);
}

/// Reads back an ASCII decimal number.
pub open spec fn parse_decimal(s: Seq<u8>) -> nat
    decreases s.len(),
{
    if s.len() == 0 {
        0
    } else {
        parse_decimal(s.drop_last()) * 10 + (s.last() - DIGIT_ZERO) as nat
    }
}

/// The indices written into the face section read back as the same
/// numbers: the decimal rendering consists of digits only and parses to the
/// number it renders.
pub proof fn lemma_decimal_roundtrip(n: nat)
    ensures
        parse_decimal(decimal(n)) == n,
        decimal(n).len() >= 1,
        forall|i: int|
            0 <= i < decimal(n).len() ==> DIGIT_ZERO <= #[trigger] decimal(n)[i] <= DIGIT_ZERO
                + 9,
    decreases n,
{
    if n >= 10 {
        lemma_decimal_roundtrip(n / 10);
        let d = decimal(n);
        assert(d.drop_last() == decimal(n / 10));
        assert(d.last() == (DIGIT_ZERO + n % 10) as u8);
        assert(d.last() - DIGIT_ZERO == n % 10);
        assert(parse_decimal(d) == parse_decimal(d.drop_last()) * 10 + (d.last() - DIGIT_ZERO) as nat);
        assert(n == (n / 10) * 10 + n % 10);
        assert forall|i: int| 0 <= i < d.len() implies DIGIT_ZERO <= #[trigger] d[i] <= DIGIT_ZERO
            + 9 by {
            if i < d.len() - 1 {
                assert(d[i] == decimal(n / 10)[i]);
            }
        }
    } else {
        let d = decimal(n);
        assert(d.drop_last() =~= Seq::<u8>::empty());
        assert(d.last() - DIGIT_ZERO == n);
        assert(parse_decimal(d.drop_last()) == 0);
        assert(parse_decimal(d) == parse_decimal(d.drop_last()) * 10 + (d.last() - DIGIT_ZERO) as nat);
    }
}

/// Appends the decimal rendering of `n`.
pub fn push_decimal(out: &mut Vec<u8>, n: usize)
    ensures
        final(out)@ == old(out)@ + decimal(n as nat),
    decreases n,
{
    if n >= 10 {
        push_decimal(out, n / 10);
    }
    let d: u8 = (n % 10) as u8;
    out.push(DIGIT_ZERO + d);
    proof {
        if n >= 10 {
            assert(decimal(n as nat) == decimal((n / 10) as nat).push((DIGIT_ZERO + n % 10) as u8));
        }
        assert(final(out)@ =~= old(out)@ + decimal(n as nat));
    }
}

fn push_vertex_ref(out: &mut Vec<u8>, i: usize)
    ensures
        final(out)@ == old(out)@ + vertex_ref(i as nat),
{
    let ghost start = out@;
    push_decimal(out, i);
    out.push(SLASH);
    push_decimal(out, i);
    out.push(SLASH);
    push_decimal(out, i);
    assert(out@ =~= start + vertex_ref(i as nat));
}

fn push_face_line(out: &mut Vec<u8>, a: usize, b: usize, c: usize)
    ensures
        final(out)@ == old(out)@ + face_line(a as nat, b as nat, c as nat),
{
    let ghost start = out@;
    out.push(LETTER_F);
    out.push(SPACE);
    push_vertex_ref(out, a);
    out.push(SPACE);
    push_vertex_ref(out, b);
    out.push(SPACE);
    push_vertex_ref(out, c);
    out.push(NEWLINE);
    assert(out@ =~= start + face_line(a as nat, b as nat, c as nat));
}

/// Renders the face section of a `width × height` heightmap: for every quad,
/// row by row and left to right, the triangles `(tl, bl, br)` and
/// `(tl, br, tr)` with 1-based `v/vt/vn` indices.
pub fn obj_faces(width: usize, height: usize) -> (out: Vec<u8>)
    requires
        height >= 1,
        height > 1 ==> width >= 1,
        width * height <= usize::MAX,
    ensures
        out@ == obj_faces_spec(width as nat, height as nat),
{
    let mut out: Vec<u8> = Vec::new();
    let mut z: usize = 0;
    while z < height - 1
        invariant
            height >= 1,
            height > 1 ==> width >= 1,
            width * height <= usize::MAX,
            z <= height - 1,
            out@ == faces_text(width as nat, z as nat),
        decreases height - 1 - z,
    {
        let mut x: usize = 0;
        while x < width - 1
            invariant
                height >= 1,
                width >= 1,
                width * height <= usize::MAX,
                z + 1 < height,
                x <= width - 1,
                out@ == faces_text(width as nat, z as nat) + row_text(
                    width as nat,
                    z as nat,
                    x as nat,
                ),
            decreases width - 1 - x,
        {
            proof {
                lemma_corner_bound(width as nat, height as nat, x as nat, z as nat);
            }
            let row: usize = z * width;
            let next_row: usize = row + width;
            let tl: usize = row + x + 1;
            let tr: usize = row + (x + 1) + 1;
            let bl: usize = next_row + x + 1;
            let br: usize = next_row + (x + 1) + 1;
            let ghost before = out@;
            push_face_line(&mut out, tl, bl, br);
            push_face_line(&mut out, tl, br, tr);
            proof {
                assert(next_row == (z + 1) * width) by (nonlinear_arith)
                    requires
                        next_row == z * width + width,
                ;
                assert(out@ =~= before + quad_text(width as nat, x as nat, z as nat));
                assert(row_text(width as nat, z as nat, (x + 1) as nat) == row_text(
                    width as nat,
                    z as nat,
                    x as nat,
                ) + quad_text(width as nat, x as nat, z as nat));
                assert(out@ =~= faces_text(width as nat, z as nat) + row_text(
                    width as nat,
                    z as nat,
                    (x + 1) as nat,
                ));
            }
            x = x + 1;
        }
        proof {
            assert(quads_per_row(width as nat) == x);
            assert(faces_text(width as nat, (z + 1) as nat) == faces_text(width as nat, z as nat)
                + row_text(width as nat, z as nat, quads_per_row(width as nat)));
        }
        z = z + 1;
    }
    out
}

fn append_bytes(out: &mut Vec<u8>, bytes: &[u8])
    ensures
        final(out)@ == old(out)@ + bytes@,
{
    let ghost start = out@;
    let mut i: usize = 0;
    while i < bytes.len()
        invariant
            i <= bytes@.len(),
            out@ == start + bytes@.subrange(0, i as int),
        decreases bytes@.len() - i,
    {
        out.push(bytes[i]);
        assert(bytes@.subrange(0, (i + 1) as int) =~= bytes@.subrange(0, i as int).push(bytes@[i as int]));
        i = i + 1;
    }
    assert(bytes@.subrange(0, bytes@.len() as int) =~= bytes@);
}

/// Assembles a complete OBJ file from the caller-rendered vertex (`v`), UV
/// (`vt`) and normal (`vn`) sections and the face section of a
/// `width × height` grid.
pub fn heightmap_obj(
    width: usize,
    height: usize,
    vertices: &[u8],
    uvs: &[u8],
    normals: &[u8],
) -> (out: Vec<u8>)
    requires
        height >= 1,
        height > 1 ==> width >= 1,
        width * height <= usize::MAX,
    ensures
        out@ == obj_document(width as nat, height as nat, vertices@, uvs@, normals@),
{
    let mut out: Vec<u8> = Vec::new();
    append_bytes(&mut out, OBJ_HEADER.as_bytes());
    append_bytes(&mut out, vertices);
    append_bytes(&mut out, uvs);
    append_bytes(&mut out, normals);
    let faces = obj_faces(width, height);
    append_bytes(&mut out, faces.as_slice());
    assert(out@ =~= obj_document(width as nat, height as nat, vertices@, uvs@, normals@));
    out
}

/// The UV coordinate of sample `i` along an axis of `n` samples, as the
/// fraction `num / den`: `i / (n - 1)` when the axis has more than one
/// sample and `0 / 1` otherwise, so the denominator is never zero and the
/// coordinate always lies in `[0, 1]`.
pub fn uv_fraction(i: usize, n: usize) -> (r: (usize, usize))
    requires
        i < n,
    ensures
        r.1 > 0,
        r.0 <= r.1,
        n > 1 ==> r == (i, (n - 1) as usize),
        n <= 1 ==> r == (0usize, 1usize),
{
    if n > 1 {
        (i, n - 1)
    } else {
        (0, 1)
    }
}

/// Pre-allocation size for the OBJ text of a `width × height` grid: the
/// size estimate, capped at 128 MiB.
pub fn obj_capacity_hint(width: usize, height: usize) -> (r: usize)
    requires
        obj_size_estimate(width as nat, height as nat) <= usize::MAX,
    ensures
        r == if obj_size_estimate(width as nat, height as nat) < obj_capacity_cap() {
            obj_size_estimate(width as nat, height as nat)
        } else {
            obj_capacity_cap()
        },
{
    let qw: usize = if width == 0 { 0 } else { width - 1 };
    let qh: usize = if height == 0 { 0 } else { height - 1 };
    proof {
        assert(width * height * 84 <= obj_size_estimate(width as nat, height as nat));
        assert(qw * qh * 160 <= obj_size_estimate(width as nat, height as nat));
        assert(width * height <= width * height * 84) by (nonlinear_arith);
        assert(qw * qh <= qw * qh * 160) by (nonlinear_arith);
    }
    let cells: usize = width * height;
    let quads: usize = qw * qh;
    let estimate: usize = cells * 84 + quads * 160;
    let cap: usize = 128 * 1024 * 1024;
    if estimate < cap {
        estimate
    } else {
        cap
    }
}

/// Whether the web build accepts an OBJ export of a `width × height` grid
/// (at most 512 × 512 samples).
pub fn web_obj_export_allowed(width: usize, height: usize) -> (r: bool)
    requires
        width * height <= usize::MAX,
    ensures
        r == (width * height <= web_obj_max_cells()),
{
    let cells: usize = width * height;
    cells <= 512 * 512
}

} // verus!
