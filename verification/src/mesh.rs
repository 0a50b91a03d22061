//! Collecting triangle index lists from a parsed text-format mesh. The
//! parser itself is an outside collaborator; this module takes the shapes it
//! yields, selects the triangles, and builds the three flat index lists a
//! draw call binds: vertex indices always, and normal and texture indices
//! only for triangles whose three corners all carry one.

use vstd::prelude::*;

use wavefront_obj::obj;
use wavefront_obj::obj::Primitive;

verus! {

/// The integer type of the collected index lists.
pub type IndexType = u16;

/// One corner of a parsed shape: a vertex index, with optional texture and
/// normal indices.
#[derive(Clone, Copy, Debug)]
pub struct Corner {
    pub v: usize,
    pub vt: Option<usize>,
    pub vn: Option<usize>,
}

/// A triangle from the parsed mesh, by its three corners.
#[derive(Clone, Copy, Debug)]
pub struct Triangle {
    pub a: Corner,
    pub b: Corner,
    pub c: Corner,
}

/// A shape from the parsed mesh: a point, a line, or a triangle.
#[derive(Clone, Copy, Debug)]
pub enum Shape {
    Point(Corner),
    Line(Corner, Corner),
    Triangle(Triangle),
}

/// The three index lists collected from a mesh: vertex indices, normal
/// indices and texture indices, three entries per contributing triangle.
#[derive(Clone, Debug)]
pub struct Indices {
    pub v: Vec<IndexType>,
    pub vn: Vec<IndexType>,
    pub vt: Vec<IndexType>,
}

/// An index stored into the 16-bit lists, truncated as a narrowing cast is.
pub open spec fn to_index(n: usize) -> u16 {
    (n % 0x10000) as u16
}

/// The vertex-index entries one triangle contributes.
pub open spec fn tri_v(t: Triangle) -> Seq<u16> {
    seq![to_index(t.a.v), to_index(t.b.v), to_index(t.c.v)]
}

/// The texture-index entries one triangle contributes: its three texture
/// indices when every corner carries one, nothing otherwise.
pub open spec fn tri_vt(t: Triangle) -> Seq<u16> {
    match (t.a.vt, t.b.vt, t.c.vt) {
        (Some(x), Some(y), Some(z)) => seq![to_index(x), to_index(y), to_index(z)],
        _ => Seq::empty(),
    }
}

/// The normal-index entries one triangle contributes: its three normal
/// indices when every corner carries one, nothing otherwise.
pub open spec fn tri_vn(t: Triangle) -> Seq<u16> {
    match (t.a.vn, t.b.vn, t.c.vn) {
        (Some(x), Some(y), Some(z)) => seq![to_index(x), to_index(y), to_index(z)],
        _ => Seq::empty(),
    }
}

/// The vertex-index list collected from `ts`, in order.
pub open spec fn v_indices(ts: Seq<Triangle>) -> Seq<u16>
    decreases ts.len(),
{
    if ts.len() == 0 {
        Seq::empty()
    } else {
        v_indices(ts.drop_last()) + tri_v(ts.last())
    }
}

/// The texture-index list collected from `ts`, in order.
pub open spec fn vt_indices(ts: Seq<Triangle>) -> Seq<u16>
    decreases ts.len(),
{
    if ts.len() == 0 {
        Seq::empty()
    } else {
        vt_indices(ts.drop_last()) + tri_vt(ts.last())
    }
}

/// The normal-index list collected from `ts`, in order.
pub open spec fn vn_indices(ts: Seq<Triangle>) -> Seq<u16>
    decreases ts.len(),
{
    if ts.len() == 0 {
        Seq::empty()
    } else {
        vn_indices(ts.drop_last()) + tri_vn(ts.last())
    }
}

impl Indices {
    /// Exactly the lists collected from `ts`.
    pub open spec fn collected_from(self, ts: Seq<Triangle>) -> bool {
        &&& self.v@ == v_indices(ts)
        &&& self.vn@ == vn_indices(ts)
        &&& self.vt@ == vt_indices(ts)
    }
}

/// Collect the three index lists from the given triangles: every triangle
/// contributes its three vertex indices; it contributes its texture (or
/// normal) indices only when all three of its corners carry one.
pub fn collect_indices(triangles: &Vec<Triangle>) -> (r: Indices)
    ensures
        r.collected_from(triangles@),
{
    let mut v: Vec<IndexType> = Vec::new();
    let mut vn: Vec<IndexType> = Vec::new();
    let mut vt: Vec<IndexType> = Vec::new();
    let mut i: usize = 0;
    while i < triangles.len()
        invariant
            i <= triangles.len(),
            v@ == v_indices(triangles@.take(i as int)),
            vn@ == vn_indices(triangles@.take(i as int)),
            vt@ == vt_indices(triangles@.take(i as int)),
        decreases triangles.len() - i,
    {
        let t = triangles[i];
        proof {
            assert(triangles@.take(i + 1).drop_last() =~= triangles@.take(i as int));
            assert(triangles@.take(i + 1).last() == t);
        }
        v.push((t.a.v % 0x10000) as u16);
        v.push((t.b.v % 0x10000) as u16);
        v.push((t.c.v % 0x10000) as u16);
        assert(v@ =~= v_indices(triangles@.take(i + 1)));
        match (t.a.vt, t.b.vt, t.c.vt) {
            (Some(x), Some(y), Some(z)) => {
                vt.push((x % 0x10000) as u16);
                vt.push((y % 0x10000) as u16);
                vt.push((z % 0x10000) as u16);
            },
            _ => {},
        }
        assert(vt@ =~= vt_indices(triangles@.take(i + 1)));
        match (t.a.vn, t.b.vn, t.c.vn) {
            (Some(x), Some(y), Some(z)) => {
                vn.push((x % 0x10000) as u16);
                vn.push((y % 0x10000) as u16);
                vn.push((z % 0x10000) as u16);
            },
            _ => {},
        }
        assert(vn@ =~= vn_indices(triangles@.take(i + 1)));
        i = i + 1;
    }
    proof {
        assert(triangles@.take(triangles@.len() as int) =~= triangles@);
    }
    Indices { v, vn, vt }
}

/// The triangles among `shapes`, in order; points and lines contribute none.
pub open spec fn triangles_of(shapes: Seq<Shape>) -> Seq<Triangle>
    decreases shapes.len(),
{
    if shapes.len() == 0 {
        Seq::empty()
    } else {
        triangles_of(shapes.drop_last()) + (match shapes.last() {
            Shape::Triangle(t) => seq![t],
            _ => Seq::<Triangle>::empty(),
        })
    }
}

/// Select the triangles from the given shapes, keeping their order; points
/// and lines are dropped.
pub fn select_triangles(shapes: &Vec<Shape>) -> (ts: Vec<Triangle>)
    ensures
        ts@ == triangles_of(shapes@),
{
    let mut ts: Vec<Triangle> = Vec::new();
    let mut i: usize = 0;
    while i < shapes.len()
        invariant
            i <= shapes.len(),
            ts@ == triangles_of(shapes@.take(i as int)),
        decreases shapes.len() - i,
    {
        proof {
            assert(shapes@.take(i + 1).drop_last() =~= shapes@.take(i as int));
            assert(shapes@.take(i + 1).last() == shapes@[i as int]);
        }
        match shapes[i] {
            Shape::Triangle(t) => {
                ts.push(t);
            },
            _ => {},
        }
        assert(ts@ =~= triangles_of(shapes@.take(i + 1)));
        i = i + 1;
    }
    proof {
        assert(shapes@.take(shapes@.len() as int) =~= shapes@);
    }
    ts
}

/// A decimal digit.
pub open spec fn is_dec_digit(c: char) -> bool {
    48 <= c as u32 <= 57
}

/// Whether a minus sign at position `i` begins a run of nineteen or more
/// decimal digits.
pub open spec fn huge_negative_at(text: Seq<char>, i: int) -> bool {
    &&& 0 <= i
    &&& i + 20 <= text.len()
    &&& text[i] == '-'
    &&& forall|j: int| i < j <= i + 19 ==> is_dec_digit(text[j])
}

/// Whether the text holds a minus sign followed by nineteen or more
/// consecutive decimal digits anywhere. Every integer token whose value the
/// parser's negative-index arithmetic cannot take is of this form.
pub open spec fn has_huge_negative(text: Seq<char>) -> bool {
    exists|i: int| huge_negative_at(text, i)
}

/// Scan the text for a minus sign followed by nineteen or more consecutive
/// decimal digits. [`load_model`] refuses a text holding one without calling
/// the parser, since a face index of that size overflows the parser's
/// negative-index arithmetic.
pub fn has_huge_negative_token(s: &str) -> (b: bool)
    ensures
        b == has_huge_negative(s@),
{
    let len = s.unicode_len();
    let mut i: usize = 0;
    while i < len
        invariant
            len == s@.len(),
            i <= len,
            forall|k: int| 0 <= k < i ==> !huge_negative_at(s@, k),
        decreases len - i,
    {
        if s.get_char(i) == '-' && len - i >= 20 {
            let mut j: usize = 0;
            let mut all_digits: bool = true;
            while j < 19
                invariant
                    len == s@.len(),
                    i + 20 <= len,
                    j <= 19,
                    all_digits == (forall|t: int| i < t <= i + j ==> is_dec_digit(s@[t])),
                decreases 19 - j,
            {
                let c = s.get_char(i + 1 + j);
                if !((c as u32) >= 48 && (c as u32) <= 57) {
                    all_digits = false;
                }
                j = j + 1;
            }
            if all_digits {
                assert(huge_negative_at(s@, i as int));
                return true;
            }
        }
        i = i + 1;
    }
    false
}

/// What the mesh parser yields for a given text: the shapes of the first
/// object's geometry, in order, or nothing when the text does not parse as a
/// mesh with at least one object.
pub uninterp spec fn parsed_shapes(text: Seq<char>) -> Option<Seq<Shape>>;

/// Relies on wavefront_obj::obj::parse: parsing is a function of the input
/// text alone, the parser rebases every index to the start of its object,
/// and each shape is a point, a line or a triangle. The parser rebases a
/// negative face index `x` as `max - x` in `isize`, which overflows — and
/// panics under overflow checks — when `x` is within the vertex count of the
/// `isize` minimum; every such index is written as a minus sign followed by
/// at least nineteen digits, which the `requires` excludes.
#[verifier::external_body]
fn parse_shapes(contents: &str) -> (r: Option<Vec<Shape>>)
    requires
        !has_huge_negative(contents@),
    ensures
        match r {
            Some(ss) => parsed_shapes(contents@) == Some(ss@),
            None => parsed_shapes(contents@) is None,
        },
{
    let objs = match obj::parse(contents) { Ok(o) => o, Err(_) => return None };
    let first = objs.objects.into_iter().next()?;
    let cn = |x: obj::VTNIndex| Corner { v: x.0, vt: x.1, vn: x.2 };
    Some(first.geometry.into_iter().flat_map(|g| g.shapes).map(|s| match s.primitive {
        Primitive::Point(a) => Shape::Point(cn(a)),
        Primitive::Line(a, b) => Shape::Line(cn(a), cn(b)),
        Primitive::Triangle(a, b, c) => Shape::Triangle(Triangle { a: cn(a), b: cn(b), c: cn(c) }),
    }).collect())
}

/// Load the index lists of a mesh from its textual form: parse the text,
/// select the triangles of the first object, and collect their vertex,
/// normal and texture index lists. `None` when the text does not parse as a
/// mesh with at least one object, and also for a text holding a minus sign
/// followed by nineteen or more decimal digits — a face index of that size
/// the parser cannot take.
pub fn load_model(contents: &str) -> (r: Option<Indices>)
    ensures
        match r {
            Some(ix) => !has_huge_negative(contents@) && (parsed_shapes(contents@) matches Some(ss)
                && ix.collected_from(triangles_of(ss))),
            None => has_huge_negative(contents@) || parsed_shapes(contents@) is None,
        },
{
    if has_huge_negative_token(contents) {
        return None;
    }
    match parse_shapes(contents) {
        Some(ss) => {
            let ts = select_triangles(&ss);
            Some(collect_indices(&ts))
        },
        None => None,
    }
}

} // verus!
