//! A model of the rendered shape lists that selection highlighting
//! touches: text shapes made of rows of vertex colors.
//!
//! Painting a selection appends one highlight quad (four vertices) to each
//! affected row's mesh and records where; tearing a stale selection down
//! reverts exactly those vertices to transparent, in place.

use vstd::prelude::*;
use vstd::pervasive::VecAdditionalExecFns;

use crate::ids::LayerId;
use crate::text::{CCursorRange, Galley};

verus! {

/// The fully transparent vertex color: an erased highlight.
pub const TRANSPARENT: u32 = 0;

/// The vertex color of a freshly painted selection highlight.
pub const HIGHLIGHT: u32 = 0x90C8_FF40;

/// Which vertices of one row's mesh a selection highlight occupies.
#[derive(Clone, PartialEq, Eq, Debug)]
pub struct RowVertexIndices {
    pub row: usize,
    pub vertex_indices: Vec<usize>,
}

/// One rendered text shape: its layer and, per laid-out row, the colors of
/// the row mesh's vertices.
#[derive(Clone, PartialEq, Eq, Debug)]
pub struct TextShape {
    pub layer_id: LayerId,
    pub row_colors: Vec<Vec<u32>>,
}

/// Everything rendered this pass that the selection engine may revert.
#[derive(Clone, PartialEq, Eq, Debug)]
pub struct Scene {
    pub shapes: Vec<TextShape>,
}

impl Scene {
    pub fn new() -> (r: Scene)
        ensures
            r.shapes.len() == 0,
    {
        Scene { shapes: Vec::new() }
    }

    /// Add a shape; its index is how painted selections refer back to it.
    pub fn push_shape(&mut self, shape: TextShape) -> (idx: usize)
        ensures
            final(self).shapes@ == old(self).shapes@.push(shape),
            idx == old(self).shapes.len(),
    {
        let idx = self.shapes.len();
        self.shapes.push(shape);
        idx
    }
}

/// Does row `i` of `galley` intersect a nonempty selected range?
pub open spec fn spec_row_selected(g: Galley, range: CCursorRange, i: int) -> bool {
    range.spec_min() < range.spec_max() && g.rows[i].begin < range.spec_max() && range.spec_min()
        < g.rows[i].end
}

/// A glyph-mesh color distinct from both highlight states.
pub const GLYPH: u32 = 0xFFFF_FFFF;

/// The mesh a text shape starts with: one glyph vertex per laid-out
/// character of each row, no highlight yet.
pub fn build_text_shape(layer_id: LayerId, galley: &Galley) -> (shape: TextShape)
    requires
        galley.wf(),
    ensures
        shape.layer_id == layer_id,
        shape.row_colors.len() == galley.rows.len(),
        forall|i: int|
            0 <= i < galley.rows.len() ==> (#[trigger] shape.row_colors[i])@.len()
                == galley.rows[i].end - galley.rows[i].begin,
        forall|i: int, v: int|
            0 <= i < galley.rows.len() && 0 <= v < shape.row_colors[i]@.len()
                ==> (#[trigger] shape.row_colors[i]@[v]) == GLYPH,
{
    let mut row_colors: Vec<Vec<u32>> = Vec::new();
    let mut i: usize = 0;
    while i < galley.rows.len()
        invariant
            galley.wf(),
            0 <= i <= galley.rows.len(),
            row_colors.len() == i,
            forall|k: int|
                0 <= k < i ==> (#[trigger] row_colors[k])@.len() == galley.rows[k].end
                    - galley.rows[k].begin,
            forall|k: int, v: int|
                0 <= k < i && 0 <= v < row_colors[k]@.len() ==> (#[trigger] row_colors[k]@[v])
                    == GLYPH,
        decreases galley.rows.len() - i,
    {
        let row = galley.rows[i];
        let n = row.end - row.begin;
        let mut colors: Vec<u32> = Vec::new();
        let mut v: usize = 0;
        while v < n
            invariant
                0 <= v <= n,
                colors.len() == v,
                forall|c: int| 0 <= c < v ==> (#[trigger] colors@[c]) == GLYPH,
            decreases n - v,
        {
            colors.push(GLYPH);
            v = v + 1;
        }
        row_colors.push(colors);
        i = i + 1;
    }
    TextShape { layer_id, row_colors }
}

/// Paint the selection highlight into `shape`: append one highlight quad
/// to the mesh of every row the selected range touches, and report, per
/// such row, which vertex indices the quad occupies (so the highlight can
/// be reverted later).
pub fn paint_text_selection(shape: &mut TextShape, galley: &Galley, range: &CCursorRange) -> (marks:
    Vec<RowVertexIndices>)
    requires
        galley.wf(),
        old(shape).row_colors.len() == galley.rows.len(),
        forall|i: int|
            0 <= i < galley.rows.len() ==> (#[trigger] old(shape).row_colors[i])@.len() + 4
                <= usize::MAX,
    ensures
        final(shape).layer_id == old(shape).layer_id,
        final(shape).row_colors.len() == old(shape).row_colors.len(),
        forall|i: int|
            0 <= i < galley.rows.len() && spec_row_selected(*galley, *range, i)
                ==> (#[trigger] final(shape).row_colors[i])@ == old(shape).row_colors[i]@.push(
                HIGHLIGHT,
            ).push(HIGHLIGHT).push(HIGHLIGHT).push(HIGHLIGHT),
        forall|i: int|
            0 <= i < galley.rows.len() && !spec_row_selected(*galley, *range, i)
                ==> (#[trigger] final(shape).row_colors[i])@ == old(shape).row_colors[i]@,
        forall|k: int|
            0 <= k < marks.len() ==> ({
                let m = #[trigger] marks[k];
                &&& 0 <= m.row < galley.rows.len()
                &&& spec_row_selected(*galley, *range, m.row as int)
                &&& m.vertex_indices@ == seq![
                    old(shape).row_colors[m.row as int]@.len() as usize,
                    (old(shape).row_colors[m.row as int]@.len() + 1) as usize,
                    (old(shape).row_colors[m.row as int]@.len() + 2) as usize,
                    (old(shape).row_colors[m.row as int]@.len() + 3) as usize,
                ]
            }),
        forall|i: int|
            0 <= i < galley.rows.len() && spec_row_selected(*galley, *range, i) ==> exists|k: int|
                0 <= k < marks.len() && (#[trigger] marks[k].row) == i,
        forall|k1: int, k2: int|
            0 <= k1 < k2 < marks.len() ==> (#[trigger] marks[k1].row) < (#[trigger] marks[k2].row),
{
    let mut marks: Vec<RowVertexIndices> = Vec::new();
    let smin = range.sorted_min();
    let smax = range.sorted_max();
    let mut i: usize = 0;
    while i < galley.rows.len()
        invariant
            galley.wf(),
            shape.row_colors.len() == galley.rows.len(),
            shape.layer_id == old(shape).layer_id,
            0 <= i <= galley.rows.len(),
            smin == range.spec_min(),
            smax == range.spec_max(),
            forall|j: int|
                i <= j < galley.rows.len() ==> (#[trigger] shape.row_colors[j])@ == old(shape).row_colors[j]@,
            forall|j: int|
                0 <= j < i && spec_row_selected(*galley, *range, j)
                    ==> (#[trigger] shape.row_colors[j])@ == old(shape).row_colors[j]@.push(
                    HIGHLIGHT,
                ).push(HIGHLIGHT).push(HIGHLIGHT).push(HIGHLIGHT),
            forall|j: int|
                0 <= j < i && !spec_row_selected(*galley, *range, j)
                    ==> (#[trigger] shape.row_colors[j])@ == old(shape).row_colors[j]@,
            forall|k: int|
                0 <= k < marks.len() ==> ({
                    let m = #[trigger] marks[k];
                    &&& 0 <= m.row < i
                    &&& spec_row_selected(*galley, *range, m.row as int)
                    &&& m.vertex_indices@ == seq![
                        old(shape).row_colors[m.row as int]@.len() as usize,
                        (old(shape).row_colors[m.row as int]@.len() + 1) as usize,
                        (old(shape).row_colors[m.row as int]@.len() + 2) as usize,
                        (old(shape).row_colors[m.row as int]@.len() + 3) as usize,
                    ]
                }),
            forall|j: int|
                0 <= j < i && spec_row_selected(*galley, *range, j) ==> exists|k: int|
                    0 <= k < marks.len() && (#[trigger] marks[k].row) == j,
            forall|k1: int, k2: int|
                0 <= k1 < k2 < marks.len() ==> (#[trigger] marks[k1].row) < (#[trigger] marks[k2].row),
            forall|i2: int|
                0 <= i2 < galley.rows.len() ==> (#[trigger] old(shape).row_colors[i2])@.len() + 4
                    <= usize::MAX,
        decreases galley.rows.len() - i,
    {
        let row = galley.rows[i];
        if smin < smax && row.begin < smax && smin < row.end {
            let base = self_row_len(shape, i);
            let mut vertex_indices: Vec<usize> = Vec::new();
            vertex_indices.push(base);
            vertex_indices.push(base + 1);
            vertex_indices.push(base + 2);
            vertex_indices.push(base + 3);
            push_highlight_quad(shape, i);
            proof {
                assert(vertex_indices@ =~= seq![
                    old(shape).row_colors[i as int]@.len() as usize,
                    (old(shape).row_colors[i as int]@.len() + 1) as usize,
                    (old(shape).row_colors[i as int]@.len() + 2) as usize,
                    (old(shape).row_colors[i as int]@.len() + 3) as usize,
                ]);
            }
            let ghost m0 = marks@;
            marks.push(RowVertexIndices { row: i, vertex_indices });
            proof {
                assert forall|j: int| 0 <= j <= i && spec_row_selected(*galley, *range, j) implies
                    exists|k: int| 0 <= k < marks.len() && (#[trigger] marks[k].row) == j by {
                    if j < i {
                        let k0 = choose|k: int| 0 <= k < m0.len() && (#[trigger] m0[k].row) == j;
                        assert(marks@[k0].row == j);
                    } else {
                        assert(marks@[marks@.len() - 1].row == j);
                    }
                }
            }
        }
        i = i + 1;
    }
    marks
}

/// Length of row `i`'s mesh.
fn self_row_len(shape: &TextShape, i: usize) -> (r: usize)
    requires
        i < shape.row_colors.len(),
    ensures
        r == shape.row_colors[i as int]@.len(),
{
    let row: &Vec<u32> = &shape.row_colors[i];
    row.len()
}

/// Append the four highlight vertices to row `i`'s mesh.
fn push_highlight_quad(shape: &mut TextShape, i: usize)
    requires
        i < old(shape).row_colors.len(),
        old(shape).row_colors[i as int]@.len() + 4 <= usize::MAX,
    ensures
        final(shape).layer_id == old(shape).layer_id,
        final(shape).row_colors.len() == old(shape).row_colors.len(),
        final(shape).row_colors[i as int]@ == old(shape).row_colors[i as int]@.push(
            HIGHLIGHT,
        ).push(HIGHLIGHT).push(HIGHLIGHT).push(HIGHLIGHT),
        forall|j: int|
            0 <= j < old(shape).row_colors.len() && j != i ==> (#[trigger] final(shape).row_colors[j])@ == old(shape).row_colors[j]@,
{
    let row: &mut Vec<u32> = &mut shape.row_colors[i];
    row.push(HIGHLIGHT);
    row.push(HIGHLIGHT);
    row.push(HIGHLIGHT);
    row.push(HIGHLIGHT);
}

/// Is the vertex `(shape_idx, row, vertex)` recorded in `marks`?
pub open spec fn spec_marked(
    marks: Seq<(usize, Vec<RowVertexIndices>)>,
    s: int,
    r: int,
    v: int,
) -> bool {
    exists|a: int, b: int, c: int|
        0 <= a < marks.len() && (#[trigger] marks[a]).0 == s && 0 <= b < marks[a].1@.len() && (
        #[trigger] marks[a].1@[b]).row == r && 0 <= c < marks[a].1@[b].vertex_indices@.len() && (
        #[trigger] marks[a].1@[b].vertex_indices@[c]) == v
}

/// Is the offset `v` one of the listed indices?
pub open spec fn idx_listed(idxs: Seq<usize>, v: int) -> bool {
    exists|k: int| 0 <= k < idxs.len() && (#[trigger] idxs[k]) == v
}

/// Set every vertex listed in `idxs` (and in range) to transparent.
fn clear_row_marks(row: &mut Vec<u32>, idxs: &Vec<usize>)
    ensures
        final(row)@.len() == old(row)@.len(),
        forall|v: int|
            0 <= v < old(row)@.len() ==> (#[trigger] final(row)@[v]) == if idx_listed(idxs@, v) {
                TRANSPARENT
            } else {
                old(row)@[v]
            },
{
    let mut c: usize = 0;
    while c < idxs.len()
        invariant
            0 <= c <= idxs.len(),
            row@.len() == old(row)@.len(),
            forall|v: int|
                0 <= v < old(row)@.len() ==> (#[trigger] row@[v]) == if exists|k: int|
                    0 <= k < c && (#[trigger] idxs@[k]) == v {
                    TRANSPARENT
                } else {
                    old(row)@[v]
                },
        decreases idxs.len() - c,
    {
        let v = idxs[c];
        if v < row.len() {
            row.set(v, TRANSPARENT);
        }
        c = c + 1;
    }
}

/// Revert every vertex recorded in `marks` to transparent, leaving all
/// other vertices and the scene's structure untouched. Entries whose
/// indices fall outside the scene are skipped.
pub fn clear_marks(scene: &mut Scene, marks: &Vec<(usize, Vec<RowVertexIndices>)>)
    ensures
        final(scene).shapes.len() == old(scene).shapes.len(),
        forall|s: int|
            0 <= s < old(scene).shapes.len() ==> (#[trigger] final(scene).shapes[s]).layer_id == old(scene).shapes[s].layer_id && final(scene).shapes[s].row_colors@.len() == old(scene).shapes[s].row_colors@.len(),
        forall|s: int, r: int|
            0 <= s < old(scene).shapes.len() && 0 <= r < old(scene).shapes[s].row_colors@.len()
                ==> (#[trigger] final(scene).shapes[s].row_colors@[r])@.len() == old(scene).shapes[s].row_colors@[r]@.len(),
        forall|s: int, r: int, v: int|
            0 <= s < old(scene).shapes.len() && 0 <= r < old(scene).shapes[s].row_colors@.len() && 0
                <= v < old(scene).shapes[s].row_colors@[r]@.len() ==> (#[trigger] final(scene).shapes[s].row_colors@[r]@[v]) == if spec_marked(marks@, s, r, v) {
                TRANSPARENT
            } else {
                old(scene).shapes[s].row_colors@[r]@[v]
            },
{
    let mut a: usize = 0;
    while a < marks.len()
        invariant
            0 <= a <= marks.len(),
            scene.shapes.len() == old(scene).shapes.len(),
            forall|s: int|
                0 <= s < old(scene).shapes.len() ==> (#[trigger] scene.shapes[s]).layer_id == old(scene).shapes[s].layer_id && scene.shapes[s].row_colors@.len() == old(scene).shapes[s].row_colors@.len(),
            forall|s: int, r: int|
                0 <= s < old(scene).shapes.len() && 0 <= r < old(scene).shapes[s].row_colors@.len()
                    ==> (#[trigger] scene.shapes[s].row_colors@[r])@.len() == old(scene).shapes[s].row_colors@[r]@.len(),
            forall|s: int, r: int, v: int|
                0 <= s < old(scene).shapes.len() && 0 <= r < old(scene).shapes[s].row_colors@.len()
                    && 0 <= v < old(scene).shapes[s].row_colors@[r]@.len() ==> (#[trigger] scene
                    .shapes[s].row_colors@[r]@[v]) == if spec_marked(marks@.subrange(0, a as int), s, r, v) {
                    TRANSPARENT
                } else {
                    old(scene).shapes[s].row_colors@[r]@[v]
                },
        decreases marks.len() - a,
    {
        let ghost mid = *scene;
        let (shape_idx, row_marks) = mark_entry(marks, a);
        if shape_idx < scene.shapes.len() {
            clear_shape_marks_at(scene, shape_idx, row_marks);
        }
        proof {
            lemma_marked_extend(marks@, a as int);
            assert forall|s: int, r: int, v: int|
                0 <= s < old(scene).shapes.len() && 0 <= r < old(
                    scene,
                ).shapes[s].row_colors@.len() && 0 <= v < old(
                    scene,
                ).shapes[s].row_colors@[r]@.len() implies (#[trigger] scene
                .shapes[s].row_colors@[r]@[v]) == if spec_marked(
                marks@.subrange(0, a as int + 1),
                s,
                r,
                v,
            ) {
                TRANSPARENT
            } else {
                old(scene).shapes[s].row_colors@[r]@[v]
            } by {
                assert(mid.shapes[s].row_colors@[r]@[v] == if spec_marked(
                    marks@.subrange(0, a as int),
                    s,
                    r,
                    v,
                ) {
                    TRANSPARENT
                } else {
                    old(scene).shapes[s].row_colors@[r]@[v]
                });
            }
        }
        a = a + 1;
    }
    proof {
        assert(marks@.subrange(0, marks@.len() as int) =~= marks@);
    }
}

/// Borrow entry `a` of the mark list.
fn mark_entry<'a>(marks: &'a Vec<(usize, Vec<RowVertexIndices>)>, a: usize) -> (r: (
    usize,
    &'a Vec<RowVertexIndices>,
))
    requires
        a < marks.len(),
    ensures
        r.0 == marks[a as int].0,
        *r.1 == marks[a as int].1,
{
    let entry = &marks[a];
    (entry.0, &entry.1)
}

/// How one more mark entry extends the marked set.
proof fn lemma_marked_extend(marks: Seq<(usize, Vec<RowVertexIndices>)>, a: int)
    requires
        0 <= a < marks.len(),
    ensures
        forall|s: int, r: int, v: int|
            spec_marked(marks.subrange(0, a + 1), s, r, v) == (spec_marked(
                marks.subrange(0, a),
                s,
                r,
                v,
            ) || (marks[a].0 == s && spec_row_marked(marks[a].1, r, v))),
{
    assert forall|s: int, r: int, v: int|
        spec_marked(marks.subrange(0, a + 1), s, r, v) == (spec_marked(
            marks.subrange(0, a),
            s,
            r,
            v,
        ) || (marks[a].0 == s && spec_row_marked(marks[a].1, r, v))) by {
        let pre = marks.subrange(0, a);
        let ext = marks.subrange(0, a + 1);
        if spec_marked(pre, s, r, v) {
            let (i, b, c) = choose|i: int, b: int, c: int|
                0 <= i < pre.len() && (#[trigger] pre[i]).0 == s && 0 <= b < pre[i].1@.len() && (
                #[trigger] pre[i].1@[b]).row == r && 0 <= c < pre[i].1@[b].vertex_indices@.len()
                    && (#[trigger] pre[i].1@[b].vertex_indices@[c]) == v;
            assert(ext[i] == pre[i]);
            assert(spec_marked(ext, s, r, v));
        }
        if marks[a].0 == s && spec_row_marked(marks[a].1, r, v) {
            let (b, c) = choose|b: int, c: int|
                0 <= b < marks[a].1@.len() && (#[trigger] marks[a].1@[b]).row == r && 0 <= c
                    < marks[a].1@[b].vertex_indices@.len() && (
                #[trigger] marks[a].1@[b].vertex_indices@[c]) == v;
            assert(ext[a] == marks[a]);
            assert(spec_marked(ext, s, r, v));
        }
        if spec_marked(ext, s, r, v) {
            let (i, b, c) = choose|i: int, b: int, c: int|
                0 <= i < ext.len() && (#[trigger] ext[i]).0 == s && 0 <= b < ext[i].1@.len() && (
                #[trigger] ext[i].1@[b]).row == r && 0 <= c < ext[i].1@[b].vertex_indices@.len()
                    && (#[trigger] ext[i].1@[b].vertex_indices@[c]) == v;
            if i < a {
                assert(pre[i] == ext[i]);
                assert(spec_marked(pre, s, r, v));
            } else {
                assert(ext[i] == marks[a]);
                assert(spec_row_marked(marks[a].1, r, v));
            }
        }
    }
}

/// Is the vertex `(row, vertex)` recorded in one shape's row marks?
pub open spec fn spec_row_marked(row_marks: Vec<RowVertexIndices>, r: int, v: int) -> bool {
    exists|b: int, c: int|
        0 <= b < row_marks@.len() && (#[trigger] row_marks@[b]).row == r && 0 <= c
            < row_marks@[b].vertex_indices@.len() && (#[trigger] row_marks@[b].vertex_indices@[c])
            == v
}

/// Clear one shape's recorded highlight vertices.
fn clear_shape_marks_at(scene: &mut Scene, shape_idx: usize, row_marks: &Vec<RowVertexIndices>)
    requires
        shape_idx < old(scene).shapes.len(),
    ensures
        final(scene).shapes.len() == old(scene).shapes.len(),
        forall|s: int|
            0 <= s < old(scene).shapes.len() ==> (#[trigger] final(scene).shapes[s]).layer_id == old(scene).shapes[s].layer_id && final(scene).shapes[s].row_colors@.len() == old(scene).shapes[s].row_colors@.len(),
        forall|s: int, r: int|
            0 <= s < old(scene).shapes.len() && 0 <= r < old(scene).shapes[s].row_colors@.len()
                ==> (#[trigger] final(scene).shapes[s].row_colors@[r])@.len() == old(scene).shapes[s].row_colors@[r]@.len(),
        forall|s: int, r: int, v: int|
            0 <= s < old(scene).shapes.len() && 0 <= r < old(scene).shapes[s].row_colors@.len() && 0
                <= v < old(scene).shapes[s].row_colors@[r]@.len() ==> (#[trigger] final(scene).shapes[s].row_colors@[r]@[v]) == if s == shape_idx && spec_row_marked(
                *row_marks,
                r,
                v,
            ) {
                TRANSPARENT
            } else {
                old(scene).shapes[s].row_colors@[r]@[v]
            },
{
    let mut b: usize = 0;
    while b < row_marks.len()
        invariant
            0 <= b <= row_marks.len(),
            shape_idx < old(scene).shapes.len(),
            scene.shapes.len() == old(scene).shapes.len(),
            forall|s: int|
                0 <= s < old(scene).shapes.len() ==> (#[trigger] scene.shapes[s]).layer_id == old(scene).shapes[s].layer_id && scene.shapes[s].row_colors@.len() == old(scene).shapes[s].row_colors@.len(),
            forall|s: int, r: int|
                0 <= s < old(scene).shapes.len() && 0 <= r < old(scene).shapes[s].row_colors@.len()
                    ==> (#[trigger] scene.shapes[s].row_colors@[r])@.len() == old(scene).shapes[s].row_colors@[r]@.len(),
            forall|s: int, r: int, v: int|
                0 <= s < old(scene).shapes.len() && 0 <= r < old(scene).shapes[s].row_colors@.len()
                    && 0 <= v < old(scene).shapes[s].row_colors@[r]@.len() ==> (#[trigger] scene
                    .shapes[s].row_colors@[r]@[v]) == if s == shape_idx && spec_row_marked_prefix(
                    *row_marks,
                    b as int,
                    r,
                    v,
                ) {
                    TRANSPARENT
                } else {
                    old(scene).shapes[s].row_colors@[r]@[v]
                },
        decreases row_marks.len() - b,
    {
        let mark = &row_marks[b];
        clear_row_in_scene(scene, shape_idx, mark.row, &mark.vertex_indices);
        proof {
            lemma_row_marked_extend(*row_marks, b as int);
        }
        b = b + 1;
    }
}

/// Clear the listed vertices of one row of one shape, if the row exists.
fn clear_row_in_scene(scene: &mut Scene, shape_idx: usize, row_idx: usize, idxs: &Vec<usize>)
    requires
        shape_idx < old(scene).shapes.len(),
    ensures
        final(scene).shapes.len() == old(scene).shapes.len(),
        forall|s: int|
            0 <= s < old(scene).shapes.len() ==> (#[trigger] final(scene).shapes[s]).layer_id == old(scene).shapes[s].layer_id && final(scene).shapes[s].row_colors@.len() == old(scene).shapes[s].row_colors@.len(),
        forall|s: int, r: int|
            0 <= s < old(scene).shapes.len() && 0 <= r < old(scene).shapes[s].row_colors@.len()
                ==> (#[trigger] final(scene).shapes[s].row_colors@[r])@.len() == old(scene).shapes[s].row_colors@[r]@.len(),
        forall|s: int, r: int, v: int|
            0 <= s < old(scene).shapes.len() && 0 <= r < old(scene).shapes[s].row_colors@.len() && 0
                <= v < old(scene).shapes[s].row_colors@[r]@.len() ==> (#[trigger] final(scene).shapes[s].row_colors@[r]@[v]) == if s == shape_idx && r == row_idx && idx_listed(idxs@, v) {
                TRANSPARENT
            } else {
                old(scene).shapes[s].row_colors@[r]@[v]
            },
{
    let shape: &mut TextShape = &mut scene.shapes[shape_idx];
    if row_idx < shape.row_colors.len() {
        let row: &mut Vec<u32> = &mut shape.row_colors[row_idx];
        clear_row_marks(row, idxs);
    }
}

/// [`spec_row_marked`] restricted to the first `b` entries.
pub open spec fn spec_row_marked_prefix(
    row_marks: Vec<RowVertexIndices>,
    b: int,
    r: int,
    v: int,
) -> bool {
    exists|i: int, c: int|
        0 <= i < b && i < row_marks@.len() && (#[trigger] row_marks@[i]).row == r && 0 <= c
            < row_marks@[i].vertex_indices@.len() && (#[trigger] row_marks@[i].vertex_indices@[c])
            == v
}

/// How one more row mark extends the row-marked set.
proof fn lemma_row_marked_extend(row_marks: Vec<RowVertexIndices>, b: int)
    requires
        0 <= b < row_marks@.len(),
    ensures
        forall|r: int, v: int|
            spec_row_marked_prefix(row_marks, b + 1, r, v) == (spec_row_marked_prefix(
                row_marks,
                b,
                r,
                v,
            ) || (row_marks@[b].row == r && idx_listed(row_marks@[b].vertex_indices@, v))),
{
    assert forall|r: int, v: int|
        spec_row_marked_prefix(row_marks, b + 1, r, v) == (spec_row_marked_prefix(
            row_marks,
            b,
            r,
            v,
        ) || (row_marks@[b].row == r && idx_listed(row_marks@[b].vertex_indices@, v))) by {
        if row_marks@[b].row == r && idx_listed(row_marks@[b].vertex_indices@, v) {
            let c = choose|c: int|
                0 <= c < row_marks@[b].vertex_indices@.len() && (#[trigger] row_marks@[b].vertex_indices@[c])
                    == v;
            assert(0 <= b < b + 1 && b < row_marks@.len() && row_marks@[b].row == r && 0 <= c
                < row_marks@[b].vertex_indices@.len() && row_marks@[b].vertex_indices@[c] == v);
            assert(spec_row_marked_prefix(row_marks, b + 1, r, v));
        }
        if spec_row_marked_prefix(row_marks, b + 1, r, v) {
            let (i, c) = choose|i: int, c: int|
                0 <= i < b + 1 && i < row_marks@.len() && (#[trigger] row_marks@[i]).row == r && 0
                    <= c < row_marks@[i].vertex_indices@.len() && (
                #[trigger] row_marks@[i].vertex_indices@[c]) == v;
            if i == b {
                assert(idx_listed(row_marks@[b].vertex_indices@, v));
            }
        }
    }
}

} // verus!
