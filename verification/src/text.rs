//! A model of laid-out widget text: character cursors, cursor ranges, and
//! a galley of rows that answers geometric queries.
//!
//! The surrounding toolkit's text shaping engine is a collaborator; the
//! selection engine only needs the narrow oracle interface modelled here:
//! cursor for a point, point for a cursor, begin/end cursors, the row
//! heights, and slicing. A galley holds its text as characters, and each
//! row covers a contiguous character range at a fixed advance width.

use vstd::prelude::*;

use crate::geom::{COORD_MAX, Pos, Rect};

verus! {

/// A character-granularity cursor into a galley's text.
#[derive(Clone, Copy, PartialEq, Eq, Structural, Debug)]
pub struct CCursor {
    pub index: usize,
}

/// A pair of cursors. `primary` is where the user is dragging or moving;
/// `secondary` is the anchor. The two may come in either order, and may
/// coincide (an empty selection).
#[derive(Clone, Copy, PartialEq, Eq, Structural, Debug)]
pub struct CCursorRange {
    pub primary: CCursor,
    pub secondary: CCursor,
}

impl CCursorRange {
    /// The smaller of the two cursor offsets.
    pub open spec fn spec_min(self) -> int {
        if self.primary.index <= self.secondary.index {
            self.primary.index as int
        } else {
            self.secondary.index as int
        }
    }

    /// The larger of the two cursor offsets.
    pub open spec fn spec_max(self) -> int {
        if self.primary.index <= self.secondary.index {
            self.secondary.index as int
        } else {
            self.primary.index as int
        }
    }

    pub open spec fn spec_is_empty(self) -> bool {
        self.primary.index == self.secondary.index
    }

    /// Does `self` cover all of `other`?
    pub open spec fn spec_contains(self, other: CCursorRange) -> bool {
        self.spec_min() <= other.spec_min() && other.spec_max() <= self.spec_max()
    }

    /// A range from an anchor at `min` to a moving end at `max`.
    pub fn two(min: CCursor, max: CCursor) -> (r: CCursorRange)
        ensures
            r.secondary == min,
            r.primary == max,
    {
        CCursorRange { primary: max, secondary: min }
    }

    pub fn is_empty(&self) -> (r: bool)
        ensures
            r == self.spec_is_empty(),
    {
        self.primary.index == self.secondary.index
    }

    pub fn sorted_min(&self) -> (r: usize)
        ensures
            r == self.spec_min(),
    {
        if self.primary.index <= self.secondary.index {
            self.primary.index
        } else {
            self.secondary.index
        }
    }

    pub fn sorted_max(&self) -> (r: usize)
        ensures
            r == self.spec_max(),
    {
        if self.primary.index <= self.secondary.index {
            self.secondary.index
        } else {
            self.primary.index
        }
    }

    pub fn contains(&self, other: &CCursorRange) -> (r: bool)
        ensures
            r == self.spec_contains(*other),
    {
        self.sorted_min() <= other.sorted_min() && other.sorted_max() <= self.sorted_max()
    }
}

/// One laid-out row: the characters `begin..end` of the galley text,
/// drawn from `left` at a fixed advance of `char_w` per character,
/// occupying the vertical band `top..top + height`.
#[derive(Clone, Copy, PartialEq, Eq, Structural, Debug)]
pub struct Row {
    pub begin: usize,
    pub end: usize,
    pub left: i64,
    pub top: i64,
    pub height: i64,
    pub char_w: i64,
}

impl Row {
    pub open spec fn wf(self) -> bool {
        &&& self.begin <= self.end
        &&& self.end - self.begin <= COORD_MAX
        &&& 0 <= self.left
        &&& 0 <= self.top
        &&& 1 <= self.height
        &&& self.top + self.height <= COORD_MAX
        &&& 1 <= self.char_w
        &&& self.left + (self.end - self.begin) * self.char_w <= COORD_MAX
    }
}

/// Laid-out text of one widget. Rows cover a prefix of `text` (the laid-out,
/// possibly elided characters); `text` itself is the full source text.
#[derive(Debug)]
pub struct Galley {
    pub text: Vec<char>,
    pub rows: Vec<Row>,
    pub size_x: i64,
    pub size_y: i64,
}

impl Galley {
    /// How many characters the rows lay out; cursors range over `0..=` this.
    pub open spec fn spec_display_len(self) -> int {
        if self.rows.len() == 0 {
            0
        } else {
            self.rows[self.rows.len() - 1].end as int
        }
    }

    pub open spec fn wf(self) -> bool {
        &&& forall|i: int| 0 <= i < self.rows.len() ==> (#[trigger] self.rows[i]).wf()
        &&& self.rows.len() > 0 ==> self.rows[0].begin == 0
        &&& forall|i: int|
            0 <= i && i + 1 < self.rows.len() ==> (#[trigger] self.rows[i]).end
                == self.rows[i + 1].begin && self.rows[i].top <= self.rows[i + 1].top
        &&& self.spec_display_len() <= self.text.len()
        &&& 0 <= self.size_x <= COORD_MAX
        &&& 0 <= self.size_y <= COORD_MAX
    }

    /// A galley whose text fits on one row, `char_w` units per character
    /// and `height` units tall: the usual shape in tests and small labels.
    pub fn single_row(text: Vec<char>, char_w: i64, height: i64) -> (g: Galley)
        requires
            text.len() <= COORD_MAX,
            1 <= char_w,
            text@.len() * char_w <= COORD_MAX,
            1 <= height <= COORD_MAX,
        ensures
            g.wf(),
            g.text == text,
            g.rows.len() == 1,
            g.rows[0] == (Row {
                begin: 0,
                end: text.len(),
                left: 0,
                top: 0,
                height,
                char_w,
            }),
            g.spec_display_len() == text.len(),
            g.size_y == height,
    {
        let n = text.len();
        proof {
            vstd::arithmetic::mul::lemma_mul_inequality(n as int, COORD_MAX as int, char_w as int);
        }
        let size_x = if n == 0 {
            0
        } else {
            (n as i64) * char_w
        };
        let row = Row { begin: 0, end: n, left: 0, top: 0, height, char_w };
        let rows = vec![row];
        Galley { text, rows, size_x, size_y: height }
    }

    pub fn display_len(&self) -> (r: usize)
        requires
            self.wf(),
        ensures
            r == self.spec_display_len(),
    {
        if self.rows.len() == 0 {
            0
        } else {
            self.rows[self.rows.len() - 1].end
        }
    }

    /// The cursor before the first laid-out character.
    pub fn begin(&self) -> (r: CCursor)
        ensures
            r.index == 0,
    {
        CCursor { index: 0 }
    }

    /// The cursor after the last laid-out character.
    pub fn end(&self) -> (r: CCursor)
        requires
            self.wf(),
        ensures
            r.index == self.spec_display_len(),
    {
        CCursor { index: self.display_len() }
    }

    /// Index of the row that holds the cursor offset `idx`: the first row
    /// whose end lies beyond `idx`, or the last row.
    pub open spec fn spec_row_of(self, from: int, idx: int) -> int
        decreases self.rows.len() - from,
    {
        if from < 0 || from >= self.rows.len() - 1 {
            self.rows.len() - 1
        } else if idx < self.rows[from].end {
            from
        } else {
            self.spec_row_of(from + 1, idx)
        }
    }

    fn row_of(&self, idx: usize) -> (k: usize)
        requires
            self.wf(),
            self.rows.len() > 0,
        ensures
            k == self.spec_row_of(0, idx as int),
            k < self.rows.len(),
    {
        let mut i: usize = 0;
        while i < self.rows.len() - 1 && self.rows[i].end <= idx
            invariant
                self.wf(),
                self.rows.len() > 0,
                0 <= i < self.rows.len(),
                self.spec_row_of(0, idx as int) == self.spec_row_of(i as int, idx as int),
            decreases self.rows.len() - i,
        {
            i = i + 1;
        }
        i
    }

    /// Index of the row whose vertical band holds `y`: the first row whose
    /// bottom edge lies below `y`, or the last row.
    pub open spec fn spec_row_at_y(self, from: int, y: int) -> int
        decreases self.rows.len() - from,
    {
        if from < 0 || from >= self.rows.len() - 1 {
            self.rows.len() - 1
        } else if y < self.rows[from].top + self.rows[from].height {
            from
        } else {
            self.spec_row_at_y(from + 1, y)
        }
    }

    fn row_at_y(&self, y: i64) -> (k: usize)
        requires
            self.wf(),
            self.rows.len() > 0,
        ensures
            k == self.spec_row_at_y(0, y as int),
            k < self.rows.len(),
    {
        let mut i: usize = 0;
        while i < self.rows.len() - 1 && self.rows[i].top + self.rows[i].height <= y
            invariant
                self.wf(),
                self.rows.len() > 0,
                0 <= i < self.rows.len(),
                self.spec_row_at_y(0, y as int) == self.spec_row_at_y(i as int, y as int),
            decreases self.rows.len() - i,
        {
            i = i + 1;
        }
        i
    }

    /// The cursor offset within row `k` nearest to the x-coordinate `x`.
    pub open spec fn spec_col_at_x(self, k: int, x: int) -> int {
        let row = self.rows[k];
        if x <= row.left {
            0
        } else if (x - row.left) / (row.char_w as int) >= row.end - row.begin {
            row.end - row.begin
        } else {
            (x - row.left) / (row.char_w as int)
        }
    }

    /// The laid-out character offset nearest to the point `p`
    /// (in galley-local coordinates).
    pub open spec fn spec_cursor_from_pos(self, p: Pos) -> int {
        if self.rows.len() == 0 {
            0
        } else {
            let k = self.spec_row_at_y(0, p.y as int);
            self.rows[k].begin + self.spec_col_at_x(k, p.x as int)
        }
    }

    pub fn cursor_from_pos(&self, p: Pos) -> (r: CCursor)
        requires
            self.wf(),
            p.wide(),
        ensures
            r.index == self.spec_cursor_from_pos(p),
            r.index <= self.spec_display_len(),
    {
        if self.rows.len() == 0 {
            return CCursor { index: 0 };
        }
        let k = self.row_at_y(p.y);
        let row = self.rows[k];
        proof {
            lemma_row_end_le_display_len(*self, k as int);
        }
        let col: usize = if p.x <= row.left {
            0
        } else {
            let q = (p.x - row.left) / row.char_w;
            if q >= (row.end - row.begin) as i64 {
                row.end - row.begin
            } else {
                q as usize
            }
        };
        CCursor { index: row.begin + col }
    }

    /// The rectangle of the cursor `idx` within its row: zero-width, at the
    /// character's left edge, covering the row's vertical band.
    pub open spec fn spec_cursor_x(self, k: int, idx: int) -> int {
        let row = self.rows[k];
        let d = if idx <= row.begin {
            0
        } else if idx >= row.end {
            row.end - row.begin
        } else {
            idx - row.begin
        };
        row.left + d * (row.char_w as int)
    }

    pub fn pos_from_cursor(&self, c: CCursor) -> (r: Rect)
        requires
            self.wf(),
        ensures
            self.rows.len() == 0 ==> r == (Rect {
                min: Pos { x: 0, y: 0 },
                max: Pos { x: 0, y: self.size_y },
            }),
            self.rows.len() > 0 ==> ({
                let k = self.spec_row_of(0, c.index as int);
                &&& 0 <= k < self.rows.len()
                &&& r.min.x == self.spec_cursor_x(k, c.index as int)
                &&& r.max.x == r.min.x
                &&& r.min.y == self.rows[k].top
                &&& r.max.y == self.rows[k].top + self.rows[k].height
            }),
            0 <= r.min.x <= COORD_MAX,
            0 <= r.min.y <= r.max.y <= COORD_MAX,
            r.wf(),
    {
        if self.rows.len() == 0 {
            return Rect { min: Pos { x: 0, y: 0 }, max: Pos { x: 0, y: self.size_y } };
        }
        let k = self.row_of(c.index);
        let row = self.rows[k];
        let d: usize = if c.index <= row.begin {
            0
        } else if c.index >= row.end {
            row.end - row.begin
        } else {
            c.index - row.begin
        };
        proof {
            vstd::arithmetic::mul::lemma_mul_inequality(
                d as int,
                (row.end - row.begin) as int,
                row.char_w as int,
            );
            vstd::arithmetic::mul::lemma_mul_is_commutative(d as int, row.char_w as int);
            vstd::arithmetic::mul::lemma_mul_nonnegative(d as int, row.char_w as int);
        }
        let x = row.left + (d as i64) * row.char_w;
        Rect {
            min: Pos { x, y: row.top },
            max: Pos { x, y: row.top + row.height },
        }
    }
}

/// Every row ends at or before the display length.
proof fn lemma_row_end_le_display_len(g: Galley, k: int)
    requires
        g.wf(),
        0 <= k < g.rows.len(),
    ensures
        g.rows[k].end <= g.spec_display_len(),
    decreases g.rows.len() - k,
{
    if k < g.rows.len() - 1 {
        lemma_row_end_le_display_len(g, k + 1);
    }
}

/// The x-coordinate of the point that stands for the cursor `c`.
pub open spec fn spec_pos_in_galley_x(g: Galley, c: CCursor) -> int {
    if g.rows.len() == 0 {
        0
    } else {
        g.spec_cursor_x(g.spec_row_of(0, c.index as int), c.index as int)
    }
}

/// The top edge of the cursor's row.
pub open spec fn spec_cursor_top_y(g: Galley, c: CCursor) -> int {
    if g.rows.len() == 0 {
        0
    } else {
        g.rows[g.spec_row_of(0, c.index as int)].top as int
    }
}

/// The y-coordinate of the point that stands for the cursor `c`: the
/// vertical center of its row.
pub open spec fn spec_pos_in_galley_y(g: Galley, c: CCursor) -> int {
    if g.rows.len() == 0 {
        g.size_y as int / 2
    } else {
        let k = g.spec_row_of(0, c.index as int);
        g.rows[k].top + g.rows[k].height as int / 2
    }
}

/// The center of the cursor's rectangle: the on-screen point that stands
/// for a logical offset, in galley-local coordinates.
pub fn pos_in_galley(galley: &Galley, ccursor: CCursor) -> (r: Pos)
    requires
        galley.wf(),
    ensures
        r.x == spec_pos_in_galley_x(*galley, ccursor),
        r.y == spec_pos_in_galley_y(*galley, ccursor),
        0 <= r.x <= COORD_MAX,
        0 <= r.y <= COORD_MAX,
{
    let rect = galley.pos_from_cursor(ccursor);
    Pos { x: rect.min.x, y: rect.min.y + (rect.max.y - rect.min.y) / 2 }
}

/// The height of the first row, or the galley height where no row exists.
pub fn estimate_row_height(galley: &Galley) -> (r: i64)
    requires
        galley.wf(),
    ensures
        r == spec_estimate_row_height(*galley),
        0 <= r <= COORD_MAX,
{
    if galley.rows.len() > 0 {
        galley.rows[0].height
    } else {
        galley.size_y
    }
}

pub open spec fn spec_estimate_row_height(g: Galley) -> int {
    if g.rows.len() > 0 {
        g.rows[0].height as int
    } else {
        g.size_y as int
    }
}

/// The rectangle a scroll request should bring into view for a cursor:
/// at the cursor's left edge, `row_height` tall from the row's top.
pub fn cursor_rect(galley: &Galley, cursor: &CCursor, row_height: i64) -> (r: Rect)
    requires
        galley.wf(),
        0 <= row_height <= COORD_MAX,
    ensures
        r.min.x == spec_pos_in_galley_x(*galley, *cursor),
        r.max.x == r.min.x,
        r.min.y == spec_cursor_top_y(*galley, *cursor),
        r.max.y == r.min.y + row_height,
        0 <= r.min.x <= COORD_MAX,
        0 <= r.min.y <= COORD_MAX,
        r.max.y <= 2 * COORD_MAX,
{
    let p = galley.pos_from_cursor(*cursor);
    Rect {
        min: Pos { x: p.min.x, y: p.min.y },
        max: Pos { x: p.min.x, y: p.min.y + row_height },
    }
}

/// Characters `a..b` of `text`.
pub fn copy_char_range(text: &Vec<char>, a: usize, b: usize) -> (r: Vec<char>)
    requires
        a <= b <= text.len(),
    ensures
        r@ == text@.subrange(a as int, b as int),
{
    let mut out: Vec<char> = Vec::new();
    let mut i: usize = a;
    while i < b
        invariant
            a <= i <= b <= text.len(),
            out@ == text@.subrange(a as int, i as int),
        decreases b - i,
    {
        out.push(text[i]);
        proof {
            assert(out@ =~= text@.subrange(a as int, (i + 1) as int));
        }
        i = i + 1;
    }
    out
}

/// What a copy of `cursor_range` out of `galley` yields.
///
/// An empty range, or one that covers every laid-out character (even of an
/// elided label), yields the full un-elided text; otherwise the selected
/// slice of it.
pub open spec fn spec_selected_text(g: Galley, r: CCursorRange) -> Seq<char> {
    if r.spec_is_empty() || (r.spec_min() <= 0 && g.spec_display_len() <= r.spec_max()) {
        g.text@
    } else {
        g.text@.subrange(r.spec_min(), r.spec_max())
    }
}

pub fn selected_text(galley: &Galley, cursor_range: &CCursorRange) -> (r: Vec<char>)
    requires
        galley.wf(),
        cursor_range.primary.index <= galley.spec_display_len(),
        cursor_range.secondary.index <= galley.spec_display_len(),
    ensures
        r@ == spec_selected_text(*galley, *cursor_range),
{
    let all = CCursorRange::two(galley.begin(), galley.end());
    let everything_is_selected = cursor_range.contains(&all);
    let copy_everything = cursor_range.is_empty() || everything_is_selected;
    if copy_everything {
        copy_char_range(&galley.text, 0, galley.text.len())
    } else {
        copy_char_range(&galley.text, cursor_range.sorted_min(), cursor_range.sorted_max())
    }
}


/// A word character: an ASCII letter, digit, or underscore.
pub open spec fn spec_is_word_char(c: char) -> bool {
    (97 <= c as u32 && c as u32 <= 122) || (65 <= c as u32 && c as u32 <= 90) || (48 <= c as u32
        && c as u32 <= 57) || c as u32 == 95
}

pub fn is_word_char(c: char) -> (r: bool)
    ensures
        r == spec_is_word_char(c),
{
    let u = c as u32;
    (97 <= u && u <= 122) || (65 <= u && u <= 90) || (48 <= u && u <= 57) || u == 95
}

/// The start of the word-character run ending at offset `i`.
pub open spec fn spec_word_start(text: Seq<char>, i: int) -> int
    decreases i,
{
    if i <= 0 || i > text.len() {
        if i < 0 {
            0
        } else {
            i
        }
    } else if spec_is_word_char(text[i - 1]) {
        spec_word_start(text, i - 1)
    } else {
        i
    }
}

/// The end of the word-character run starting at offset `i`, at most `limit`.
pub open spec fn spec_word_end(text: Seq<char>, limit: int, i: int) -> int
    decreases limit - i,
{
    if i < 0 || i >= limit || i >= text.len() {
        i
    } else if spec_is_word_char(text[i]) {
        spec_word_end(text, limit, i + 1)
    } else {
        i
    }
}

/// The word under the cursor, for double-click selection: the run of word
/// characters around the offset, anchored at its start.
pub fn select_word_at(galley: &Galley, c: CCursor) -> (r: CCursorRange)
    requires
        galley.wf(),
        c.index <= galley.spec_display_len(),
    ensures
        r.secondary.index == spec_word_start(galley.text@, c.index as int),
        r.primary.index == spec_word_end(
            galley.text@,
            galley.spec_display_len(),
            c.index as int,
        ),
        r.secondary.index <= c.index,
        c.index <= r.primary.index <= galley.spec_display_len(),
{
    let limit = galley.display_len();
    let mut s: usize = c.index;
    while s > 0 && is_word_char(galley.text[s - 1])
        invariant
            s <= c.index <= limit <= galley.text.len(),
            spec_word_start(galley.text@, c.index as int) == spec_word_start(
                galley.text@,
                s as int,
            ),
        decreases s,
    {
        s = s - 1;
    }
    let mut e: usize = c.index;
    while e < limit && is_word_char(galley.text[e])
        invariant
            c.index <= e <= limit <= galley.text.len(),
            spec_word_end(galley.text@, limit as int, c.index as int) == spec_word_end(
                galley.text@,
                limit as int,
                e as int,
            ),
        decreases limit - e,
    {
        e = e + 1;
    }
    CCursorRange { primary: CCursor { index: e }, secondary: CCursor { index: s } }
}

} // verus!
