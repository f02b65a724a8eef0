//! The order in which widgets paint, and how a rectangle becomes triangles.
use vstd::prelude::*;

verus! {

/// The parts one after the other.
pub open spec fn concat_all<T>(parts: Seq<Seq<T>>) -> Seq<T>
    decreases parts.len(),
{
    if parts.len() == 0 {
        Seq::empty()
    } else {
        concat_all(parts.drop_last()) + parts.last()
    }
}

/// The draw list of a widget that holds others: its own rectangle first, so
/// that it lies behind, then the lists of its children in their order.
pub open spec fn composed<T>(own: T, children: Seq<Vec<T>>) -> Seq<T> {
    seq![own] + concat_all(children.map_values(|c: Vec<T>| c@))
}

/// Builds the draw list of a widget that holds others from its own item and
/// the lists its children drew, keeping the children's order.
pub fn compose<T: Copy>(own: T, children: &Vec<Vec<T>>) -> (out: Vec<T>)
    ensures
        out@ == composed(own, children@),
{
    let ghost parts = children@.map_values(|c: Vec<T>| c@);
    let mut out: Vec<T> = Vec::new();
    out.push(own);
    let n = children.len();
    let mut i: usize = 0;
    while i < n
        invariant
            n == children.len(),
            parts == children@.map_values(|c: Vec<T>| c@),
            0 <= i <= n,
            out@ == seq![own] + concat_all(parts.take(i as int)),
        decreases n - i,
    {
        let child = &children[i];
        let m = child.len();
        let mut j: usize = 0;
        while j < m
            invariant
                n == children.len(),
                parts == children@.map_values(|c: Vec<T>| c@),
                0 <= i < n,
                child == children@[i as int],
                m == child.len(),
                0 <= j <= m,
                out@ == seq![own] + concat_all(parts.take(i as int)) + child@.take(j as int),
            decreases m - j,
        {
            out.push(child[j]);
            assert(child@.take(j + 1) == child@.take(j as int).push(child@[j as int]));
            j = j + 1;
        }
        assert(parts.take(i + 1).drop_last() == parts.take(i as int));
        assert(child@.take(m as int) == child@);
        i = i + 1;
    }
    assert(parts.take(n as int) == parts);
    out
}

/// The two triangles that cover a rectangle given by its corners in the order
/// top-left, top-right, bottom-left, bottom-right: (tl, tr, bl) and (tr, br, bl).
pub open spec fn triangles<T>(q: [T; 4]) -> Seq<T> {
    seq![q@[0], q@[1], q@[2], q@[1], q@[3], q@[2]]
}

/// How many vertices the vertex buffer holds.
pub const VERTEX_CAPACITY: usize = 4096;

/// How many vertices each rectangle takes: two triangles of three.
pub const VERTICES_PER_RECT: usize = 6;

/// Lists the vertices of the triangles of each rectangle, rectangle by
/// rectangle; each rectangle is given by its corner vertices in the order
/// top-left, top-right, bottom-left, bottom-right.
pub fn triangulate<T: Copy>(quads: &Vec<[T; 4]>) -> (out: Vec<T>)
    ensures
        out@ == concat_all(quads@.map_values(|q: [T; 4]| triangles(q))),
        out.len() == VERTICES_PER_RECT * quads.len(),
{
    let ghost parts = quads@.map_values(|q: [T; 4]| triangles(q));
    let mut out: Vec<T> = Vec::new();
    let n = quads.len();
    let mut i: usize = 0;
    while i < n
        invariant
            n == quads.len(),
            parts == quads@.map_values(|q: [T; 4]| triangles(q)),
            0 <= i <= n,
            out@ == concat_all(parts.take(i as int)),
            out.len() == 6 * i,
        decreases n - i,
    {
        let q = &quads[i];
        let ghost before = out@;
        out.push(q[0]);
        out.push(q[1]);
        out.push(q[2]);
        out.push(q[1]);
        out.push(q[3]);
        out.push(q[2]);
        assert(out@ == before + triangles(*q));
        assert(parts.take(i + 1).drop_last() == parts.take(i as int));
        i = i + 1;
    }
    assert(parts.take(n as int) == parts);
    out
}

/// Whether the vertices of `rects` rectangles fit in the vertex buffer.
pub fn fits_vertex_buffer(rects: usize) -> (b: bool)
    ensures
        b == (VERTICES_PER_RECT * rects <= VERTEX_CAPACITY),
{
    rects <= VERTEX_CAPACITY / VERTICES_PER_RECT
}

/// The vertex buffer holds the triangles of at most 682 rectangles.
pub proof fn lemma_buffer_holds_682_rects(rects: nat)
    ensures
        (VERTICES_PER_RECT * rects <= VERTEX_CAPACITY) <==> rects <= 682,
{
}

/// The length of the parts one after the other is the sum of their lengths.
pub open spec fn total_len<T>(parts: Seq<Seq<T>>) -> nat
    decreases parts.len(),
{
    if parts.len() == 0 {
        0
    } else {
        total_len(parts.drop_last()) + parts.last().len()
    }
}

/// The parts one after the other are as long as all of them together.
pub proof fn lemma_concat_len<T>(parts: Seq<Seq<T>>)
    ensures
        concat_all(parts).len() == total_len(parts),
    decreases parts.len(),
{
    if parts.len() > 0 {
        lemma_concat_len(parts.drop_last());
    }
}

/// A composed draw list holds one item more than the children drew, and its
/// first item is the widget's own, painted beneath all of the children's.
pub proof fn lemma_composed_shape<T>(own: T, children: Seq<Vec<T>>)
    ensures
        composed(own, children).len() == 1 + total_len(children.map_values(|c: Vec<T>| c@)),
        composed(own, children)[0] == own,
{
    lemma_concat_len(children.map_values(|c: Vec<T>| c@));
}

/// No parts have no length; one more part adds its own length.
pub proof fn lemma_total_len_steps<T>(parts: Seq<Seq<T>>, part: Seq<T>)
    ensures
        total_len(Seq::<Seq<T>>::empty()) == 0,
        total_len(parts.push(part)) == total_len(parts) + part.len(),
{
    assert(parts.push(part).drop_last() == parts);
}

/// In the parts one after the other, item `j` of part `i` stands after all the
/// items of the parts before it.
pub proof fn lemma_concat_index<T>(parts: Seq<Seq<T>>, i: int, j: int)
    requires
        0 <= i < parts.len(),
        0 <= j < parts[i].len(),
    ensures
        total_len(parts.take(i)) + j < concat_all(parts).len(),
        concat_all(parts)[total_len(parts.take(i)) + j] == parts[i][j],
    decreases parts.len(),
{
    let dl = parts.drop_last();
    lemma_concat_len(dl);
    lemma_concat_len(parts);
    if i == parts.len() - 1 {
        assert(parts.take(i) == dl);
    } else {
        lemma_concat_index(dl, i, j);
        assert(dl.take(i) == parts.take(i));
    }
}

/// A composed draw list holds the widget's own item first and then, for each
/// child in order, that child's items in order: item `j` of child `i` stands
/// right after the own item and all the items of the children before it.
pub proof fn lemma_composed_positions<T>(own: T, children: Seq<Vec<T>>, i: int, j: int)
    requires
        0 <= i < children.len(),
        0 <= j < children[i].len(),
    ensures
        composed(own, children)[0] == own,
        composed(own, children).len() == 1 + total_len(children.map_values(|c: Vec<T>| c@)),
        1 + total_len(children.map_values(|c: Vec<T>| c@).take(i)) + j < composed(
            own,
            children,
        ).len(),
        composed(own, children)[1 + total_len(children.map_values(|c: Vec<T>| c@).take(i)) + j]
            == children[i]@[j],
{
    let parts = children.map_values(|c: Vec<T>| c@);
    lemma_concat_len(parts);
    lemma_concat_index(parts, i, j);
}

/// Each rectangle takes six vertices.
proof fn lemma_triangles_prefix_len<T>(quads: Seq<[T; 4]>, i: int)
    requires
        0 <= i <= quads.len(),
    ensures
        total_len(quads.map_values(|q: [T; 4]| triangles(q)).take(i)) == 6 * i,
    decreases i,
{
    let parts = quads.map_values(|q: [T; 4]| triangles(q));
    if i > 0 {
        lemma_triangles_prefix_len(quads, i - 1);
        assert(parts.take(i).drop_last() == parts.take(i - 1));
    }
}

/// The vertices of rectangle `i` are the six from position `6 * i` on: its
/// top-left, top-right and bottom-left corners, then its top-right,
/// bottom-right and bottom-left corners, so that the two triangles share the
/// diagonal from top-right to bottom-left.
pub proof fn lemma_triangulated_positions<T>(quads: Seq<[T; 4]>, i: int)
    requires
        0 <= i < quads.len(),
    ensures
        ({
            let out = concat_all(quads.map_values(|q: [T; 4]| triangles(q)));
            &&& out.len() == 6 * quads.len()
            &&& out[6 * i] == quads[i]@[0]
            &&& out[6 * i + 1] == quads[i]@[1]
            &&& out[6 * i + 2] == quads[i]@[2]
            &&& out[6 * i + 3] == quads[i]@[1]
            &&& out[6 * i + 4] == quads[i]@[3]
            &&& out[6 * i + 5] == quads[i]@[2]
        }),
{
    let parts = quads.map_values(|q: [T; 4]| triangles(q));
    lemma_concat_len(parts);
    lemma_triangles_prefix_len(quads, quads.len() as int);
    assert(parts.take(quads.len() as int) == parts);
    lemma_triangles_prefix_len(quads, i);
    assert(parts[i].len() == 6);
    lemma_concat_index(parts, i, 0);
    lemma_concat_index(parts, i, 1);
    lemma_concat_index(parts, i, 2);
    lemma_concat_index(parts, i, 3);
    lemma_concat_index(parts, i, 4);
    lemma_concat_index(parts, i, 5);
}

} // verus!
