//! The cross-widget label selection state machine.
//!
//! One [`LabelSelectionState`] per UI root carries a selection whose two
//! endpoints may live in different text widgets. A rendering pass brackets
//! the widget visits with [`LabelSelectionState::begin_pass`] and
//! [`LabelSelectionState::end_pass`]; each text widget calls
//! [`LabelSelectionState::label_text_selection`] during its paint step.
//! Recovery comes first: if the widgets owning the two endpoints are not
//! both visited within one pass, the selection is dropped at pass end and
//! every painted highlight vertex is reverted to transparent.

use vstd::prelude::*;

use crate::geom::{COORD_MAX, Pos, Rect, Transform, max_i64, min_i64};
use crate::ids::{Id, LayerId};
use crate::input::{Event, Key, PassInput, got_copy_event, key_pressed, spec_got_copy_event, spec_key_pressed};
use crate::scene::{RowVertexIndices, Scene, clear_marks, spec_marked, spec_row_selected};
use crate::text::{
    spec_cursor_top_y,
    CCursor, CCursorRange, Galley, estimate_row_height, pos_in_galley, selected_text,
    spec_estimate_row_height, spec_pos_in_galley_x, spec_pos_in_galley_y, spec_selected_text,
};

verus! {

/// One end of a text selection, inside any widget.
#[derive(Clone, Copy, PartialEq, Eq, Structural, Debug)]
pub struct WidgetTextCursor {
    pub widget_id: Id,
    pub ccursor: CCursor,
    /// Last known position in the shared global space; stale between passes
    /// in which the owning widget is not visited.
    pub pos: Pos,
}

/// Where [`WidgetTextCursor::new`] puts the endpoint's screen position.
pub open spec fn spec_endpoint(widget_id: Id, c: CCursor, t: Transform, g: Galley) -> WidgetTextCursor {
    WidgetTextCursor {
        widget_id,
        ccursor: c,
        pos: Pos {
            x: (spec_pos_in_galley_x(g, c) + t.dx) as i64,
            y: (spec_pos_in_galley_y(g, c) + t.dy) as i64,
        },
    }
}

/// Bound on a transform composed of a layer transform and a galley offset.
pub open spec fn composed_wf(t: Transform) -> bool {
    -2 * (COORD_MAX as int) <= t.dx <= 2 * (COORD_MAX as int) && -2 * (COORD_MAX as int) <= t.dy
        <= 2 * (COORD_MAX as int)
}

impl WidgetTextCursor {
    pub fn new(widget_id: Id, cursor: CCursor, global_from_galley: Transform, galley: &Galley) -> (
        r: WidgetTextCursor)
        requires
            galley.wf(),
            composed_wf(global_from_galley),
        ensures
            r == spec_endpoint(widget_id, cursor, global_from_galley, *galley),
            r.pos.wide(),
    {
        let pos = global_from_galley.apply(pos_in_galley(galley, cursor));
        WidgetTextCursor { widget_id, ccursor: cursor, pos }
    }
}

/// The live cross-widget selection.
#[derive(Clone, Copy, PartialEq, Eq, Structural, Debug)]
pub struct CurrentSelection {
    /// The selection is confined to this layer.
    pub layer_id: LayerId,
    /// The end that moves under drag or keyboard navigation.
    pub primary: WidgetTextCursor,
    /// The anchor, fixed at selection start. The two ends come in any
    /// order and may coincide.
    pub secondary: WidgetTextCursor,
}

impl CurrentSelection {
    pub open spec fn wf(self) -> bool {
        self.primary.pos.wide() && self.secondary.pos.wide()
    }
}

/// The local cursor state one widget visit works on.
#[derive(Clone, Copy, PartialEq, Eq, Structural, Debug)]
pub struct TextCursorState {
    pub ccursor_range: Option<CCursorRange>,
}

impl TextCursorState {
    pub fn empty() -> (r: TextCursorState)
        ensures
            r.ccursor_range is None,
    {
        TextCursorState { ccursor_range: None }
    }
}

/// Handles text selection in labels (not in editable text fields).
///
/// One state for all labels, because only one label selection exists at a
/// time. Lives in a [`crate::store::StateStore`] keyed by viewport.
#[derive(Debug)]
pub struct LabelSelectionState {
    /// The current selection, if any.
    pub selection: Option<CurrentSelection>,
    /// Bounding box of the widgets the selection touched, previous pass.
    pub selection_bbox_last_frame: Option<Rect>,
    /// Bounding box of the widgets the selection touched, this pass.
    pub selection_bbox_this_frame: Option<Rect>,
    /// Was any label hovered this pass?
    pub any_hovered: bool,
    /// Are we in drag-to-select state? Sticky until button release.
    pub is_dragging: bool,
    /// Was the widget owning the primary endpoint visited yet this pass?
    pub has_reached_primary: bool,
    /// Was the widget owning the secondary endpoint visited yet this pass?
    pub has_reached_secondary: bool,
    /// Clipboard text accumulated across the widgets visited this pass.
    pub text_to_copy: Vec<char>,
    /// Bounding box of the last fragment appended to `text_to_copy`.
    pub last_copied_galley_rect: Option<Rect>,
    /// Which scene vertices were tinted for highlight this pass, per shape,
    /// so an incomplete pass can revert them.
    pub painted_selections: Vec<(usize, Vec<RowVertexIndices>)>,
}

/// What a fresh state holds: no selection, nothing reached, nothing painted.
pub open spec fn spec_default_state(s: LabelSelectionState) -> bool {
    &&& s.selection is None
    &&& s.selection_bbox_last_frame is None
    &&& s.selection_bbox_this_frame is None
    &&& !s.any_hovered
    &&& !s.is_dragging
    &&& !s.has_reached_primary
    &&& !s.has_reached_secondary
    &&& s.text_to_copy@.len() == 0
    &&& s.last_copied_galley_rect is None
    &&& s.painted_selections@.len() == 0
}

impl LabelSelectionState {
    /// Stored geometry stays within the derived-coordinate bounds.
    pub open spec fn wf(self) -> bool {
        &&& self.selection matches Some(sel) ==> sel.wf()
        &&& self.selection_bbox_last_frame matches Some(r) ==> r.wide()
        &&& self.selection_bbox_this_frame matches Some(r) ==> r.wide()
        &&& self.last_copied_galley_rect matches Some(r) ==> r.wide()
    }

    pub fn has_selection(&self) -> (r: bool)
        ensures
            r == (self.selection is Some),
    {
        self.selection.is_some()
    }

    pub fn clear_selection(&mut self)
        ensures
            final(self).selection is None,
            final(self).selection_bbox_last_frame == old(self).selection_bbox_last_frame,
            final(self).selection_bbox_this_frame == old(self).selection_bbox_this_frame,
            final(self).any_hovered == old(self).any_hovered,
            final(self).is_dragging == old(self).is_dragging,
            final(self).has_reached_primary == old(self).has_reached_primary,
            final(self).has_reached_secondary == old(self).has_reached_secondary,
            final(self).text_to_copy == old(self).text_to_copy,
            final(self).last_copied_galley_rect == old(self).last_copied_galley_rect,
            final(self).painted_selections == old(self).painted_selections,
            old(self).wf() ==> final(self).wf(),
    {
        self.selection = None;
    }

    /// Reset the per-pass fields and rotate the selection bounding box.
    ///
    /// Deliberately does not clear `selection` on a fresh unmodified
    /// pointer press: clearing here breaks the expected selection feel
    /// (a known rough edge, kept as the surrounding toolkit keeps it);
    /// click-elsewhere deselection happens in `end_pass` instead.
    pub fn begin_pass(&mut self)
        ensures
            final(self).selection == old(self).selection,
            final(self).selection_bbox_last_frame == old(self).selection_bbox_this_frame,
            final(self).selection_bbox_this_frame is None,
            !final(self).any_hovered,
            final(self).is_dragging == old(self).is_dragging,
            !final(self).has_reached_primary,
            !final(self).has_reached_secondary,
            final(self).text_to_copy@.len() == 0,
            final(self).last_copied_galley_rect is None,
            final(self).painted_selections@.len() == 0,
            old(self).wf() ==> final(self).wf(),
    {
        self.selection_bbox_last_frame = self.selection_bbox_this_frame;
        self.selection_bbox_this_frame = None;
        self.any_hovered = false;
        self.has_reached_primary = false;
        self.has_reached_secondary = false;
        self.text_to_copy.clear();
        self.last_copied_galley_rect = None;
        self.painted_selections.clear();
    }

    /// Append this widget's selected text to the pending clipboard text,
    /// joining intelligently: a fragment strictly below the previous one
    /// gets a newline (two, when the vertical gap exceeds half a row
    /// height: a paragraph break); an inline fragment gets one space,
    /// unless the seam already carries whitespace or opens with
    /// punctuation.
    pub fn copy_text(&mut self, new_galley_rect: Rect, galley: &Galley, cursor_range: &CCursorRange)
        requires
            galley.wf(),
            cursor_range.primary.index <= galley.spec_display_len(),
            cursor_range.secondary.index <= galley.spec_display_len(),
            new_galley_rect.wide(),
            old(self).wf(),
        ensures
            final(self).wf(),
            final(self).text_to_copy@ == spec_copy_effect_text(
                old(self).text_to_copy@,
                old(self).last_copied_galley_rect,
                new_galley_rect,
                *galley,
                *cursor_range,
            ),
            final(self).last_copied_galley_rect == spec_copy_effect_rect(
                old(self).last_copied_galley_rect,
                new_galley_rect,
                *galley,
                *cursor_range,
            ),
            final(self).selection == old(self).selection,
            final(self).selection_bbox_last_frame == old(self).selection_bbox_last_frame,
            final(self).selection_bbox_this_frame == old(self).selection_bbox_this_frame,
            final(self).any_hovered == old(self).any_hovered,
            final(self).is_dragging == old(self).is_dragging,
            final(self).has_reached_primary == old(self).has_reached_primary,
            final(self).has_reached_secondary == old(self).has_reached_secondary,
            final(self).painted_selections == old(self).painted_selections,
    {
        let mut new_text = selected_text(galley, cursor_range);
        if new_text.len() == 0 {
            return ;
        }
        if self.text_to_copy.len() == 0 {
            self.text_to_copy.append(&mut new_text);
            self.last_copied_galley_rect = Some(new_galley_rect);
            proof {
                assert(self.text_to_copy@ =~= spec_selected_text(*galley, *cursor_range));
            }
            return ;
        }
        let last = match self.last_copied_galley_rect {
            None => {
                self.text_to_copy.clear();
                self.text_to_copy.append(&mut new_text);
                self.last_copied_galley_rect = Some(new_galley_rect);
                proof {
                    assert(self.text_to_copy@ =~= spec_selected_text(*galley, *cursor_range));
                }
                return ;
            },
            Some(last) => last,
        };
        // Append or prepend the new text to the already copied text,
        // intelligently.
        let ghost before = self.text_to_copy@;
        if last.bottom() <= new_galley_rect.top() {
            self.text_to_copy.push('\n');
            let vertical_distance = new_galley_rect.top() - last.bottom();
            if estimate_row_height(galley) < 2 * vertical_distance {
                self.text_to_copy.push('\n');
            }
        } else {
            let last_idx = self.text_to_copy.len() - 1;
            let existing_ends_with_space = is_space_char(self.text_to_copy[last_idx]);
            let first = new_text[0];
            let new_text_starts_with_space_or_punctuation = is_space_char(first)
                || is_ascii_punct_char(first);
            if !existing_ends_with_space && !new_text_starts_with_space_or_punctuation {
                self.text_to_copy.push(' ');
            }
        }
        proof {
            assert(self.text_to_copy@ =~= before + spec_join_inserts(
                before,
                last,
                new_galley_rect,
                spec_estimate_row_height(*galley),
                new_text@,
            ));
        }
        self.text_to_copy.append(&mut new_text);
        self.last_copied_galley_rect = Some(new_galley_rect);
    }
}

/// What the pending clipboard text becomes when this widget's selection
/// is copied: unchanged for an empty fragment, the fragment alone when
/// nothing was accumulated, otherwise the accumulation, the join
/// characters, and the fragment.
pub open spec fn spec_copy_effect_text(
    text0: Seq<char>,
    last0: Option<Rect>,
    grect: Rect,
    g: Galley,
    r: CCursorRange,
) -> Seq<char> {
    let new_text = spec_selected_text(g, r);
    if new_text.len() == 0 {
        text0
    } else if text0.len() == 0 {
        new_text
    } else {
        match last0 {
            None => new_text,
            Some(last) => text0 + spec_join_inserts(
                text0,
                last,
                grect,
                spec_estimate_row_height(g),
                new_text,
            ) + new_text,
        }
    }
}

/// The last-copied-fragment rectangle after a copy: the fragment's
/// bounding box, unless the fragment was empty.
pub open spec fn spec_copy_effect_rect(
    last0: Option<Rect>,
    grect: Rect,
    g: Galley,
    r: CCursorRange,
) -> Option<Rect> {
    if spec_selected_text(g, r).len() == 0 {
        last0
    } else {
        Some(grect)
    }
}

/// What the join heuristic inserts between the accumulated clipboard text
/// and a new nonempty fragment.
pub open spec fn spec_join_inserts(
    existing: Seq<char>,
    last: Rect,
    new_rect: Rect,
    row_h: int,
    new: Seq<char>,
) -> Seq<char> {
    if last.spec_bottom() <= new_rect.spec_top() {
        if row_h < 2 * (new_rect.spec_top() - last.spec_bottom()) {
            seq!['\n', '\n']
        } else {
            seq!['\n']
        }
    } else {
        if existing.len() > 0 && !spec_is_space_char(existing.last()) && !(new.len() > 0 && (
        spec_is_space_char(new[0]) || spec_is_ascii_punct_char(new[0]))) {
            seq![' ']
        } else {
            Seq::<char>::empty()
        }
    }
}

/// The Unicode white-space characters, as the join heuristic recognizes
/// them: the ASCII ones, next line, no-break and ogham space, the en/em
/// family, line and paragraph separators, narrow and mathematical spaces,
/// and the ideographic space.
pub open spec fn spec_is_space_char(c: char) -> bool {
    let u = c as u32;
    (9 <= u && u <= 13) || u == 32 || u == 0x85 || u == 0xA0 || u == 0x1680 || (0x2000 <= u && u
        <= 0x200A) || u == 0x2028 || u == 0x2029 || u == 0x202F || u == 0x205F || u == 0x3000
}

pub fn is_space_char(c: char) -> (r: bool)
    ensures
        r == spec_is_space_char(c),
{
    let u = c as u32;
    (9 <= u && u <= 13) || u == 32 || u == 0x85 || u == 0xA0 || u == 0x1680 || (0x2000 <= u && u
        <= 0x200A) || u == 0x2028 || u == 0x2029 || u == 0x202F || u == 0x205F || u == 0x3000
}

/// ASCII punctuation, as the join heuristic recognizes it.
pub open spec fn spec_is_ascii_punct_char(c: char) -> bool {
    (33 <= c as u32 && c as u32 <= 47) || (58 <= c as u32 && c as u32 <= 64) || (91 <= c as u32
        && c as u32 <= 96) || (123 <= c as u32 && c as u32 <= 126)
}

pub fn is_ascii_punct_char(c: char) -> (r: bool)
    ensures
        r == spec_is_ascii_punct_char(c),
{
    let u = c as u32;
    (33 <= u && u <= 47) || (58 <= u && u <= 64) || (91 <= u && u <= 96) || (123 <= u && u <= 126)
}

impl Default for LabelSelectionState {
    fn default() -> (r: LabelSelectionState)
        ensures
            spec_default_state(r),
            r.wf(),
    {
        LabelSelectionState {
            selection: None,
            selection_bbox_last_frame: None,
            selection_bbox_this_frame: None,
            any_hovered: false,
            is_dragging: false,
            has_reached_primary: false,
            has_reached_secondary: false,
            text_to_copy: Vec::new(),
            last_copied_galley_rect: None,
            painted_selections: Vec::new(),
        }
    }
}


/// What `end_pass` asks the surrounding shell to do.
pub struct EndPassOutput {
    /// Request the text-selection pointer cursor (a drag is under way).
    pub request_text_cursor: bool,
    /// Text to hand to the clipboard sink, if any accumulated this pass.
    pub copied_text: Option<Vec<char>>,
}

/// Escape, or a pointer press over no participating widget, deselects.
pub open spec fn spec_deselects_everything(s: LabelSelectionState, input: PassInput) -> bool {
    spec_key_pressed(input, Key::Escape) || (input.pointer.any_pressed && !s.any_hovered)
}

/// Both selection endpoints were observed this pass; otherwise the
/// selection must be torn down.
pub open spec fn spec_both_reached(s: LabelSelectionState) -> bool {
    s.has_reached_primary && s.has_reached_secondary
}

impl LabelSelectionState {
    /// Reconcile at pass end, recovery first.
    ///
    /// If the widgets owning the two endpoints were not both visited this
    /// pass (scrolled away, or gone), the selection is dropped and every
    /// highlight vertex painted this pass is reverted to transparent in
    /// `scene`, rather than letting a stale highlight freeze on screen.
    /// Escape, or a pointer press over no participating widget, also
    /// clears the selection. A pointer release ends the drag. Accumulated
    /// copy text is handed out to be placed on the clipboard.
    pub fn end_pass(&mut self, input: &PassInput, scene: &mut Scene) -> (out: EndPassOutput)
        ensures
            out.request_text_cursor == old(self).is_dragging,
            final(self).selection == if !spec_both_reached(*old(self)) || spec_deselects_everything(
                *old(self),
                *input,
            ) {
                None::<CurrentSelection>
            } else {
                old(self).selection
            },
            final(self).is_dragging == (old(self).is_dragging && !input.pointer.any_released),
            final(self).text_to_copy@.len() == 0,
            out.copied_text == if old(self).text_to_copy@.len() == 0 {
                None::<Vec<char>>
            } else {
                Some(old(self).text_to_copy)
            },
            final(self).painted_selections@ == if !spec_both_reached(*old(self)) && old(self).selection is Some {
                Seq::<(usize, Vec<RowVertexIndices>)>::empty()
            } else {
                old(self).painted_selections@
            },
            // An incomplete pass reverts exactly the recorded vertices.
            if !spec_both_reached(*old(self)) && old(self).selection is Some {
                &&& final(scene).shapes.len() == old(scene).shapes.len()
                &&& forall|s: int|
                    0 <= s < old(scene).shapes.len() ==> (#[trigger] final(scene).shapes[s]).layer_id
                        == old(scene).shapes[s].layer_id && final(scene).shapes[s].row_colors@.len()
                        == old(scene).shapes[s].row_colors@.len()
                &&& forall|s: int, r: int|
                    0 <= s < old(scene).shapes.len() && 0 <= r < old(scene).shapes[s].row_colors@.len() ==> (#[trigger] final(scene).shapes[s].row_colors@[r])@.len() == old(scene).shapes[s].row_colors@[r]@.len()
                &&& forall|s: int, r: int, v: int|
                    0 <= s < old(scene).shapes.len() && 0 <= r < old(scene).shapes[s].row_colors@.len() && 0 <= v < old(scene).shapes[s].row_colors@[r]@.len() ==> (#[trigger] final(scene).shapes[s].row_colors@[r]@[v]) == if spec_marked(
                        old(self).painted_selections@,
                        s,
                        r,
                        v,
                    ) {
                        crate::scene::TRANSPARENT
                    } else {
                        old(scene).shapes[s].row_colors@[r]@[v]
                    }
            } else {
                *final(scene) == *old(scene)
            },
            final(self).selection_bbox_last_frame == old(self).selection_bbox_last_frame,
            final(self).selection_bbox_this_frame == old(self).selection_bbox_this_frame,
            final(self).any_hovered == old(self).any_hovered,
            final(self).has_reached_primary == old(self).has_reached_primary,
            final(self).has_reached_secondary == old(self).has_reached_secondary,
            final(self).last_copied_galley_rect == old(self).last_copied_galley_rect,
            old(self).wf() ==> final(self).wf(),
    {
        let request_text_cursor = self.is_dragging;

        if !self.has_reached_primary || !self.has_reached_secondary {
            // We did not see both ends of the selection this pass, maybe
            // because they are outside the visible area (scrolling), or one
            // disappeared. Either way there would be horrible glitches, so
            // deselect, and hide the first glitching frame by reverting all
            // painted selection highlights.
            let prev_selection = self.selection.take();
            if prev_selection.is_some() {
                clear_marks(scene, &self.painted_selections);
                self.painted_selections.clear();
            }
        }

        let pressed_escape = key_pressed(input, Key::Escape);
        let clicked_something_else = input.pointer.any_pressed && !self.any_hovered;
        let deselected_everything = pressed_escape || clicked_something_else;

        if deselected_everything {
            self.selection = None;
        }

        if input.pointer.any_released {
            self.is_dragging = false;
        }

        let mut text_to_copy: Vec<char> = Vec::new();
        core::mem::swap(&mut self.text_to_copy, &mut text_to_copy);
        let copied_text = if text_to_copy.len() == 0 {
            None
        } else {
            Some(text_to_copy)
        };

        EndPassOutput { request_text_cursor, copied_text }
    }
}


/// What the surrounding UI hands a widget visit besides the input: the
/// clipping rectangle, the widget's layer transform, and whether
/// selections may span several widgets.
#[derive(Clone, Copy, PartialEq, Eq, Structural, Debug)]
pub struct VisitEnv {
    /// Clip rectangle of the surrounding UI region, in global coordinates.
    pub clip_rect: Rect,
    /// Transform from the widget's layer to the shared global space.
    pub global_from_layer: Transform,
    /// May a selection span several widgets? (Off on touch platforms.)
    pub multi_widget_text_select: bool,
}

impl VisitEnv {
    pub open spec fn wf(self) -> bool {
        self.clip_rect.wf() && self.global_from_layer.wf()
    }
}

/// The widget's interaction state for this pass, as its layout step
/// reports it.
#[derive(Clone, Copy, PartialEq, Eq, Structural, Debug)]
pub struct Response {
    pub id: Id,
    pub layer_id: LayerId,
    /// The widget's rectangle in global coordinates.
    pub rect: Rect,
    pub hovered: bool,
    pub contains_pointer: bool,
    pub is_pointer_button_down_on: bool,
    pub double_clicked: bool,
}

impl Response {
    pub open spec fn wf(self) -> bool {
        self.rect.wf()
    }
}

/// The pointer position mapped into galley-local coordinates.
pub open spec fn spec_local_pointer(t: Transform, pointer: Pos) -> Pos {
    Pos { x: (pointer.x - t.dx) as i64, y: (pointer.y - t.dy) as i64 }
}

/// The widget's galley rectangle in global coordinates, clipped.
pub open spec fn spec_galley_rect_clipped(t: Transform, g: Galley, clip: Rect) -> Rect {
    Rect {
        min: Pos { x: max_i64(t.dx, clip.min.x), y: max_i64(t.dy, clip.min.y) },
        max: Pos {
            x: min_i64((g.size_x + t.dx) as i64, clip.max.x),
            y: min_i64((g.size_y + t.dy) as i64, clip.max.y),
        },
    }
}

/// Does the widget's clipped galley rectangle share a column with the
/// previous pass's selection bounding box?
pub open spec fn spec_is_in_same_column(s: LabelSelectionState, grect: Rect) -> bool {
    match s.selection_bbox_last_frame {
        Some(b) => grect.min.x <= b.max.x && b.min.x <= grect.max.x,
        None => false,
    }
}

/// Where an active drag moves the primary cursor within this widget, if
/// anywhere: under the pointer when the pointer is over the widget; to
/// the widget's first character when dragging upward past the topmost
/// reached widget in the same column; to its last character when dragging
/// downward past the bottommost; nowhere otherwise.
pub open spec fn spec_drag_target(
    s: LabelSelectionState,
    sel: CurrentSelection,
    env: VisitEnv,
    resp: Response,
    t: Transform,
    g: Galley,
    pointer: Pos,
) -> Option<CCursor> {
    let grect = spec_galley_rect_clipped(t, g, env.clip_rect);
    let same_col = spec_is_in_same_column(s, grect);
    let reached_primary = s.has_reached_primary || resp.id == sel.primary.widget_id;
    let reached_secondary = s.has_reached_secondary || resp.id == sel.secondary.widget_id;
    if resp.contains_pointer {
        Some(CCursor { index: g.spec_cursor_from_pos(spec_local_pointer(t, pointer)) as usize })
    } else if same_col && !s.has_reached_primary && sel.primary.pos.y <= sel.secondary.pos.y
        && pointer.y <= grect.min.y && grect.min.y <= sel.secondary.pos.y {
        // Dragging the selection upward, above the first selected widget.
        Some(CCursor { index: 0 })
    } else if same_col && reached_secondary && reached_primary && sel.secondary.pos.y
        <= sel.primary.pos.y && sel.secondary.pos.y <= grect.max.y && grect.max.y <= pointer.y {
        // Dragging the selection downward, below this widget.
        Some(CCursor { index: g.spec_display_len() as usize })
    } else {
        None
    }
}

/// The selection after the drag step of one widget visit: if a drag is
/// under way, this widget may take the primary endpoint; on the press
/// that starts a drag without shift, the anchor collapses onto it.
pub open spec fn spec_sel_after_drag(
    s: LabelSelectionState,
    sel: CurrentSelection,
    env: VisitEnv,
    input: PassInput,
    resp: Response,
    t: Transform,
    g: Galley,
) -> CurrentSelection {
    let may_select = env.multi_widget_text_select || sel.primary.widget_id == resp.id;
    if s.is_dragging && may_select && input.pointer.interact_pos is Some {
        let pointer = input.pointer.interact_pos->0;
        match spec_drag_target(s, sel, env, resp, t, g, pointer) {
            Some(np) => {
                let p = spec_endpoint(resp.id, np, t, g);
                let anchor = if input.pointer.any_pressed && !input.modifiers.shift {
                    p
                } else {
                    sel.secondary
                };
                CurrentSelection { layer_id: sel.layer_id, primary: p, secondary: anchor }
            },
            None => sel,
        }
    } else {
        sel
    }
}

/// The selection with the screen position of every endpoint this widget
/// owns refreshed from its logical offset.
pub open spec fn spec_sel_refreshed(
    sel: CurrentSelection,
    resp: Response,
    t: Transform,
    g: Galley,
) -> CurrentSelection {
    let p = if sel.primary.widget_id == resp.id {
        spec_endpoint(resp.id, sel.primary.ccursor, t, g)
    } else {
        sel.primary
    };
    let sec = if sel.secondary.widget_id == resp.id {
        spec_endpoint(resp.id, sel.secondary.ccursor, t, g)
    } else {
        sel.secondary
    };
    CurrentSelection { layer_id: sel.layer_id, primary: p, secondary: sec }
}

/// The local cursor range a widget shows for the global selection:
/// both endpoints here: exactly those two cursors; only the primary here:
/// the other end is this text's start if the anchor was already reached
/// (select up to the cursor) or its end otherwise (select from the cursor
/// on); symmetrically for only the anchor; neither here: the whole text
/// when this widget lies between the two endpoints in visit order
/// (exactly one reached so far), otherwise no selection.
pub open spec fn spec_local_range(
    sel: CurrentSelection,
    resp: Response,
    g: Galley,
    reached_primary: bool,
    reached_secondary: bool,
) -> Option<CCursorRange> {
    let has_primary = sel.primary.widget_id == resp.id;
    let has_secondary = sel.secondary.widget_id == resp.id;
    let begin = CCursor { index: 0 };
    let end = CCursor { index: g.spec_display_len() as usize };
    if has_primary && has_secondary {
        Some(CCursorRange { primary: sel.primary.ccursor, secondary: sel.secondary.ccursor })
    } else if has_primary {
        Some(CCursorRange {
            primary: sel.primary.ccursor,
            secondary: if reached_secondary { begin } else { end },
        })
    } else if has_secondary {
        Some(CCursorRange {
            primary: if reached_primary { begin } else { end },
            secondary: sel.secondary.ccursor,
        })
    } else {
        if reached_primary != reached_secondary {
            Some(CCursorRange { primary: end, secondary: begin })
        } else {
            None
        }
    }
}

/// The selection after one `cursor_for` step: untouched when none exists
/// or it belongs to another layer; otherwise the drag step may move the
/// primary endpoint here and the owned endpoints' positions are refreshed.
pub open spec fn spec_cursor_for_sel(
    s: LabelSelectionState,
    env: VisitEnv,
    input: PassInput,
    resp: Response,
    t: Transform,
    g: Galley,
) -> Option<CurrentSelection> {
    match s.selection {
        None => None,
        Some(sel) => if sel.layer_id != resp.layer_id {
            Some(sel)
        } else {
            Some(
                spec_sel_refreshed(spec_sel_after_drag(s, sel, env, input, resp, t, g), resp, t, g),
            )
        },
    }
}

/// Whether the primary endpoint counts as reached after this visit's
/// `cursor_for` step.
pub open spec fn spec_cursor_for_reached_primary(
    s: LabelSelectionState,
    env: VisitEnv,
    input: PassInput,
    resp: Response,
    t: Transform,
    g: Galley,
) -> bool {
    match s.selection {
        None => s.has_reached_primary,
        Some(sel) => if sel.layer_id != resp.layer_id {
            s.has_reached_primary
        } else {
            s.has_reached_primary || spec_sel_after_drag(
                s,
                sel,
                env,
                input,
                resp,
                t,
                g,
            ).primary.widget_id == resp.id
        },
    }
}

/// Whether the anchor counts as reached after this visit's `cursor_for`
/// step.
pub open spec fn spec_cursor_for_reached_secondary(
    s: LabelSelectionState,
    env: VisitEnv,
    input: PassInput,
    resp: Response,
    t: Transform,
    g: Galley,
) -> bool {
    match s.selection {
        None => s.has_reached_secondary,
        Some(sel) => if sel.layer_id != resp.layer_id {
            s.has_reached_secondary
        } else {
            s.has_reached_secondary || spec_sel_after_drag(
                s,
                sel,
                env,
                input,
                resp,
                t,
                g,
            ).secondary.widget_id == resp.id
        },
    }
}

/// The local cursor range `cursor_for` hands the widget: nothing for a
/// missing or cross-layer selection, otherwise [`spec_local_range`] of the
/// selection after drag and refresh.
pub open spec fn spec_cursor_for_range(
    s: LabelSelectionState,
    env: VisitEnv,
    input: PassInput,
    resp: Response,
    t: Transform,
    g: Galley,
) -> Option<CCursorRange> {
    match s.selection {
        None => None,
        Some(sel) => if sel.layer_id != resp.layer_id {
            None
        } else {
            spec_local_range(
                spec_sel_refreshed(spec_sel_after_drag(s, sel, env, input, resp, t, g), resp, t, g),
                resp,
                g,
                spec_cursor_for_reached_primary(s, env, input, resp, t, g),
                spec_cursor_for_reached_secondary(s, env, input, resp, t, g),
            )
        },
    }
}

impl LabelSelectionState {
    /// The local cursor state of one widget, given the global selection:
    /// nothing when no selection exists or it belongs to another layer
    /// (a selection never leaves its layer); otherwise the drag step may
    /// move the primary endpoint into this widget, owned endpoints get
    /// their screen positions refreshed and are marked reached, and the
    /// widget's local range is derived from which endpoints it owns.
    fn cursor_for(
        &mut self,
        env: &VisitEnv,
        input: &PassInput,
        response: &Response,
        global_from_galley: Transform,
        galley: &Galley,
    ) -> (r: TextCursorState)
        requires
            galley.wf(),
            composed_wf(global_from_galley),
            env.wf(),
            input.wf(),
            old(self).wf(),
        ensures
            final(self).wf(),
            final(self).selection == spec_cursor_for_sel(
                *old(self),
                *env,
                *input,
                *response,
                global_from_galley,
                *galley,
            ),
            final(self).has_reached_primary == spec_cursor_for_reached_primary(
                *old(self),
                *env,
                *input,
                *response,
                global_from_galley,
                *galley,
            ),
            final(self).has_reached_secondary == spec_cursor_for_reached_secondary(
                *old(self),
                *env,
                *input,
                *response,
                global_from_galley,
                *galley,
            ),
            r.ccursor_range == spec_cursor_for_range(
                *old(self),
                *env,
                *input,
                *response,
                global_from_galley,
                *galley,
            ),
            final(self).selection_bbox_last_frame == old(self).selection_bbox_last_frame,
            final(self).selection_bbox_this_frame == old(self).selection_bbox_this_frame,
            final(self).any_hovered == old(self).any_hovered,
            final(self).is_dragging == old(self).is_dragging,
            final(self).text_to_copy == old(self).text_to_copy,
            final(self).last_copied_galley_rect == old(self).last_copied_galley_rect,
            final(self).painted_selections == old(self).painted_selections,
    {
        let mut selection = match self.selection {
            Some(sel) => sel,
            None => {
                return TextCursorState::empty();
            },
        };
        if selection.layer_id != response.layer_id {
            // Selection is in another layer.
            return TextCursorState::empty();
        }
        let galley_from_global = global_from_galley.inverse();

        let multi_widget_text_select = env.multi_widget_text_select;
        let may_select_widget = multi_widget_text_select || selection.primary.widget_id
            == response.id;

        if self.is_dragging && may_select_widget {
            if let Some(pointer_pos) = input.pointer.interact_pos {
                let galley_rect = global_from_galley.apply_rect(
                    &Rect::from_min_size(Pos::new(0, 0), galley.size_x, galley.size_y),
                );
                let galley_rect = galley_rect.intersect(&env.clip_rect);

                let is_in_same_column = match self.selection_bbox_last_frame {
                    Some(b) => galley_rect.x_overlaps(&b),
                    None => false,
                };

                let reached_primary = self.has_reached_primary || response.id
                    == selection.primary.widget_id;
                let reached_secondary = self.has_reached_secondary || response.id
                    == selection.secondary.widget_id;

                let new_primary: Option<CCursor> = if response.contains_pointer {
                    // Dragging into this widget: the easy case.
                    Some(galley.cursor_from_pos(galley_from_global.apply(pointer_pos)))
                } else if is_in_same_column && !self.has_reached_primary
                    && selection.primary.pos.y <= selection.secondary.pos.y && pointer_pos.y
                    <= galley_rect.top() && galley_rect.top() <= selection.secondary.pos.y {
                    // Dragging the text selection upward, above the first
                    // selected widget (this one): include it from its start.
                    Some(galley.begin())
                } else if is_in_same_column && reached_secondary && reached_primary
                    && selection.secondary.pos.y <= selection.primary.pos.y
                    && selection.secondary.pos.y <= galley_rect.bottom() && galley_rect.bottom()
                    <= pointer_pos.y {
                    // Dragging the text selection downward, below this
                    // widget: move the cursor to this widget's end.
                    Some(galley.end())
                } else {
                    None
                };

                if let Some(new_primary) = new_primary {
                    selection.primary = WidgetTextCursor::new(
                        response.id,
                        new_primary,
                        global_from_galley,
                        galley,
                    );
                    // Without waiting out the drag-versus-click latency:
                    let drag_started = input.pointer.any_pressed;
                    if drag_started {
                        if input.modifiers.shift {
                            // A continuation of the previous selection.
                        } else {
                            // A new selection.
                            selection.secondary = selection.primary;
                        }
                    }
                }
            }
        }

        let has_primary = response.id == selection.primary.widget_id;
        let has_secondary = response.id == selection.secondary.widget_id;

        if has_primary {
            selection.primary = WidgetTextCursor::new(
                response.id,
                selection.primary.ccursor,
                global_from_galley,
                galley,
            );
        }
        if has_secondary {
            selection.secondary = WidgetTextCursor::new(
                response.id,
                selection.secondary.ccursor,
                global_from_galley,
                galley,
            );
        }

        self.has_reached_primary = self.has_reached_primary || has_primary;
        self.has_reached_secondary = self.has_reached_secondary || has_secondary;
        self.selection = Some(selection);

        // What follows assumes both ends of the cursor are encountered at
        // some point this pass, in either order; if one is not (outside the
        // visible scroll area), end_pass tears the selection down.
        let range: CCursorRange = if has_primary && has_secondary {
            // This is the only selected label.
            CCursorRange { primary: selection.primary.ccursor, secondary: selection.secondary.ccursor }
        } else if has_primary {
            // This label contains only the primary cursor.
            let secondary = if self.has_reached_secondary {
                // The anchor came earlier: select up to the cursor,
                // assuming left-to-right, top-down layout order.
                galley.begin()
            } else {
                // Select from the cursor onward.
                galley.end()
            };
            CCursorRange { primary: selection.primary.ccursor, secondary }
        } else if has_secondary {
            // This label contains only the secondary cursor.
            let primary = if self.has_reached_primary {
                galley.begin()
            } else {
                galley.end()
            };
            CCursorRange { primary, secondary: selection.secondary.ccursor }
        } else {
            // Neither endpoint is here.
            let is_in_middle = self.has_reached_primary != self.has_reached_secondary;
            if is_in_middle {
                // Between the two endpoints: fully selected.
                CCursorRange { primary: galley.end(), secondary: galley.begin() }
            } else {
                // Outside the selected range.
                return TextCursorState { ccursor_range: None };
            }
        };
        TextCursorState { ccursor_range: Some(range) }
    }
}


/// One cursor offset to the left, stopping at the text start.
pub open spec fn spec_dec_cursor(i: int) -> int {
    if i > 0 {
        i - 1
    } else {
        0
    }
}

/// One cursor offset to the right, stopping at `limit`.
pub open spec fn spec_inc_cursor(i: int, limit: int) -> int {
    if i + 1 <= limit {
        i + 1
    } else {
        limit
    }
}

/// How one input event moves a local cursor range: plain arrows collapse a
/// selection onto its edge or move the caret; with shift held they move
/// only the primary end; Home and End jump to the text's bounds; the
/// select-all chord covers everything. Other events leave it alone.
pub open spec fn spec_apply_event(g: Galley, r: CCursorRange, e: Event) -> CCursorRange {
    let dlen = g.spec_display_len();
    match e {
        Event::KeyPress { key, modifiers } => match key {
            Key::ArrowLeft => if modifiers.shift {
                CCursorRange {
                    primary: CCursor { index: spec_dec_cursor(r.primary.index as int) as usize },
                    secondary: r.secondary,
                }
            } else if !r.spec_is_empty() {
                CCursorRange {
                    primary: CCursor { index: r.spec_min() as usize },
                    secondary: CCursor { index: r.spec_min() as usize },
                }
            } else {
                CCursorRange {
                    primary: CCursor { index: spec_dec_cursor(r.primary.index as int) as usize },
                    secondary: CCursor { index: spec_dec_cursor(r.primary.index as int) as usize },
                }
            },
            Key::ArrowRight => if modifiers.shift {
                CCursorRange {
                    primary: CCursor {
                        index: spec_inc_cursor(r.primary.index as int, dlen) as usize,
                    },
                    secondary: r.secondary,
                }
            } else if !r.spec_is_empty() {
                CCursorRange {
                    primary: CCursor { index: r.spec_max() as usize },
                    secondary: CCursor { index: r.spec_max() as usize },
                }
            } else {
                CCursorRange {
                    primary: CCursor {
                        index: spec_inc_cursor(r.primary.index as int, dlen) as usize,
                    },
                    secondary: CCursor {
                        index: spec_inc_cursor(r.primary.index as int, dlen) as usize,
                    },
                }
            },
            Key::Home => CCursorRange {
                primary: CCursor { index: 0 },
                secondary: if modifiers.shift {
                    r.secondary
                } else {
                    CCursor { index: 0 }
                },
            },
            Key::End => CCursorRange {
                primary: CCursor { index: dlen as usize },
                secondary: if modifiers.shift {
                    r.secondary
                } else {
                    CCursor { index: dlen as usize }
                },
            },
            Key::A => if modifiers.command {
                CCursorRange {
                    primary: CCursor { index: dlen as usize },
                    secondary: CCursor { index: 0 },
                }
            } else {
                r
            },
            Key::Escape => r,
        },
        _ => r,
    }
}

/// The events from index `i` on, applied left to right.
pub open spec fn spec_apply_events_from(g: Galley, r: CCursorRange, events: Seq<Event>, i: int) -> CCursorRange
    decreases events.len() - i,
{
    if i < 0 || i >= events.len() {
        r
    } else {
        spec_apply_events_from(g, spec_apply_event(g, r, events[i]), events, i + 1)
    }
}

/// Did any single event change the range it was applied to? Folded left
/// to right from event `i` on: true as soon as one event moves the range
/// it meets, even when a later event moves it back.
pub open spec fn spec_events_changed(g: Galley, r: CCursorRange, events: Seq<Event>, i: int) -> bool
    decreases events.len() - i,
{
    if i < 0 || i >= events.len() {
        false
    } else {
        spec_apply_event(g, r, events[i]) != r || spec_events_changed(
            g,
            spec_apply_event(g, r, events[i]),
            events,
            i + 1,
        )
    }
}

/// Replay this pass's input events against a local cursor range. Only the
/// widget owning the primary endpoint does this. Reports whether any
/// event changed the range it was applied to (so true even when a later
/// event moves the range back).
pub fn process_selection_key_events(
    input: &PassInput,
    galley: &Galley,
    _widget_id: Id,
    cursor_range: &mut CCursorRange,
) -> (changed: bool)
    requires
        galley.wf(),
    ensures
        *final(cursor_range) == spec_apply_events_from(
            *galley,
            *old(cursor_range),
            input.events@,
            0,
        ),
        changed == spec_events_changed(*galley, *old(cursor_range), input.events@, 0),
        old(cursor_range).primary.index <= galley.spec_display_len() && old(
            cursor_range,
        ).secondary.index <= galley.spec_display_len() ==> final(cursor_range).primary.index
            <= galley.spec_display_len() && final(cursor_range).secondary.index
            <= galley.spec_display_len(),
{
    let orig: CCursorRange = *cursor_range;
    let mut changed = false;
    let mut i: usize = 0;
    while i < input.events.len()
        invariant
            galley.wf(),
            0 <= i <= input.events.len(),
            spec_apply_events_from(*galley, orig, input.events@, 0) == spec_apply_events_from(
                *galley,
                *cursor_range,
                input.events@,
                i as int,
            ),
            spec_events_changed(*galley, orig, input.events@, 0) == (changed
                || spec_events_changed(*galley, *cursor_range, input.events@, i as int)),
            orig.primary.index <= galley.spec_display_len() && orig.secondary.index
                <= galley.spec_display_len() ==> cursor_range.primary.index
                <= galley.spec_display_len() && cursor_range.secondary.index
                <= galley.spec_display_len(),
        decreases input.events.len() - i,
    {
        let e = input.events[i];
        let step = apply_selection_event(galley, cursor_range, e);
        changed = changed || step;
        i = i + 1;
    }
    changed
}

/// Apply one event to the local cursor range; true when it changed it.
fn apply_selection_event(galley: &Galley, r: &mut CCursorRange, e: Event) -> (changed: bool)
    requires
        galley.wf(),
    ensures
        *final(r) == spec_apply_event(*galley, *old(r), e),
        changed == (*final(r) != *old(r)),
        old(r).primary.index <= galley.spec_display_len() && old(r).secondary.index
            <= galley.spec_display_len() ==> final(r).primary.index <= galley.spec_display_len()
            && final(r).secondary.index <= galley.spec_display_len(),
{
    let before: CCursorRange = *r;
    let dlen = galley.display_len();
    match e {
        Event::KeyPress { key, modifiers } => {
            match key {
                Key::ArrowLeft => {
                    if modifiers.shift {
                        r.primary = dec_cursor(r.primary);
                    } else if !r.is_empty() {
                        let m = CCursor { index: r.sorted_min() };
                        r.primary = m;
                        r.secondary = m;
                    } else {
                        let m = dec_cursor(r.primary);
                        r.primary = m;
                        r.secondary = m;
                    }
                },
                Key::ArrowRight => {
                    if modifiers.shift {
                        r.primary = inc_cursor(r.primary, dlen);
                    } else if !r.is_empty() {
                        let m = CCursor { index: r.sorted_max() };
                        r.primary = m;
                        r.secondary = m;
                    } else {
                        let m = inc_cursor(r.primary, dlen);
                        r.primary = m;
                        r.secondary = m;
                    }
                },
                Key::Home => {
                    r.primary = CCursor { index: 0 };
                    if !modifiers.shift {
                        r.secondary = CCursor { index: 0 };
                    }
                },
                Key::End => {
                    r.primary = CCursor { index: dlen };
                    if !modifiers.shift {
                        r.secondary = CCursor { index: dlen };
                    }
                },
                Key::A => {
                    if modifiers.command {
                        r.primary = CCursor { index: dlen };
                        r.secondary = CCursor { index: 0 };
                    }
                },
                Key::Escape => {},
            }
        },
        _ => {},
    }
    !(r.primary.index == before.primary.index && r.secondary.index == before.secondary.index)
}

fn dec_cursor(c: CCursor) -> (r: CCursor)
    ensures
        r.index == spec_dec_cursor(c.index as int),
{
    if c.index > 0 {
        CCursor { index: c.index - 1 }
    } else {
        CCursor { index: 0 }
    }
}

fn inc_cursor(c: CCursor, limit: usize) -> (r: CCursor)
    ensures
        r.index == spec_inc_cursor(c.index as int, limit as int),
{
    if c.index < limit {
        CCursor { index: c.index + 1 }
    } else {
        CCursor { index: limit }
    }
}

/// What a click does to the local cursor state: a double click selects the
/// word under the pointer; a press collapses the cursor onto the pointer,
/// or moves only the primary end there when shift extends an existing
/// range. Anything else leaves the state alone (drag motion is handled by
/// the drag step of the visit).
pub open spec fn spec_pointer_interaction(
    s: TextCursorState,
    input: PassInput,
    resp: Response,
    cursor_at_pointer: CCursor,
    g: Galley,
) -> TextCursorState {
    if resp.double_clicked {
        TextCursorState {
            ccursor_range: Some(
                CCursorRange {
                    primary: CCursor {
                        index: crate::text::spec_word_end(
                            g.text@,
                            g.spec_display_len(),
                            cursor_at_pointer.index as int,
                        ) as usize,
                    },
                    secondary: CCursor {
                        index: crate::text::spec_word_start(
                            g.text@,
                            cursor_at_pointer.index as int,
                        ) as usize,
                    },
                },
            ),
        }
    } else if input.pointer.any_pressed {
        if input.modifiers.shift && s.ccursor_range is Some {
            TextCursorState {
                ccursor_range: Some(
                    CCursorRange {
                        primary: cursor_at_pointer,
                        secondary: s.ccursor_range->0.secondary,
                    },
                ),
            }
        } else {
            TextCursorState {
                ccursor_range: Some(
                    CCursorRange { primary: cursor_at_pointer, secondary: cursor_at_pointer },
                ),
            }
        }
    } else {
        s
    }
}

/// Start-of-click and double-click handling for one widget visit.
fn pointer_interaction(
    s: &mut TextCursorState,
    input: &PassInput,
    response: &Response,
    cursor_at_pointer: CCursor,
    galley: &Galley,
)
    requires
        galley.wf(),
        cursor_at_pointer.index <= galley.spec_display_len(),
        old(s).ccursor_range matches Some(r0) ==> r0.primary.index <= galley.spec_display_len()
            && r0.secondary.index <= galley.spec_display_len(),
    ensures
        *final(s) == spec_pointer_interaction(
            *old(s),
            *input,
            *response,
            cursor_at_pointer,
            *galley,
        ),
        final(s).ccursor_range matches Some(r) ==> r.primary.index <= galley.spec_display_len()
            && r.secondary.index <= galley.spec_display_len(),
{
    if response.double_clicked {
        let w = crate::text::select_word_at(galley, cursor_at_pointer);
        s.ccursor_range = Some(w);
    } else if input.pointer.any_pressed {
        if input.modifiers.shift && s.ccursor_range.is_some() {
            let secondary = match s.ccursor_range {
                Some(r) => r.secondary,
                None => cursor_at_pointer,
            };
            s.ccursor_range = Some(CCursorRange { primary: cursor_at_pointer, secondary });
        } else {
            s.ccursor_range = Some(
                CCursorRange { primary: cursor_at_pointer, secondary: cursor_at_pointer },
            );
        }
    }
}


/// A cursor offset clamped into the galley's laid-out range: a stored
/// logical offset may be stale when the widget's text shrank between
/// passes.
pub open spec fn spec_clamp_cursor(i: int, limit: int) -> int {
    if i <= limit {
        i
    } else {
        limit
    }
}

pub open spec fn spec_clamp_range(r: CCursorRange, limit: int) -> CCursorRange {
    CCursorRange {
        primary: CCursor { index: spec_clamp_cursor(r.primary.index as int, limit) as usize },
        secondary: CCursor { index: spec_clamp_cursor(r.secondary.index as int, limit) as usize },
    }
}

fn clamp_range(r: CCursorRange, limit: usize) -> (res: CCursorRange)
    ensures
        res == spec_clamp_range(r, limit as int),
        res.primary.index <= limit,
        res.secondary.index <= limit,
{
    CCursorRange {
        primary: CCursor {
            index: if r.primary.index <= limit {
                r.primary.index
            } else {
                limit
            },
        },
        secondary: CCursor {
            index: if r.secondary.index <= limit {
                r.secondary.index
            } else {
                limit
            },
        },
    }
}

/// The scroll request of one visit: when this visit moved the primary
/// cursor and it now lives in this widget, and the widget is not fully
/// inside the clip rectangle, the cursor's rectangle (in global
/// coordinates, one estimated row tall) is to be brought into view.
pub open spec fn spec_scroll_request(
    env: VisitEnv,
    resp: Response,
    old_sel: Option<CurrentSelection>,
    sel: Option<CurrentSelection>,
    new_range: Option<CCursorRange>,
    changed: bool,
    t: Transform,
    g: Galley,
) -> Option<Rect> {
    if new_range is Some && sel is Some {
        let np = sel->0.primary;
        let primary_changed = match old_sel {
            None => true,
            Some(o) => !(o.primary.widget_id == np.widget_id) || !(o.primary.ccursor.index
                == np.ccursor.index),
        };
        if primary_changed && np.widget_id == resp.id && changed && !Rect::spec_contains_rect(
            env.clip_rect,
            resp.rect,
        ) {
            let c = new_range->0.primary;
            let x = spec_pos_in_galley_x(g, c);
            let topy = spec_cursor_top_y(g, c);
            let rh = spec_estimate_row_height(g);
            Some(
                Rect {
                    min: Pos { x: (x + t.dx) as i64, y: (topy + t.dy) as i64 },
                    max: Pos { x: (x + t.dx) as i64, y: (topy + rh + t.dy) as i64 },
                },
            )
        } else {
            None
        }
    } else {
        None
    }
}

fn compute_scroll_request(
    env: &VisitEnv,
    response: &Response,
    old_selection: Option<CurrentSelection>,
    selection: Option<CurrentSelection>,
    new_range: Option<CCursorRange>,
    selection_changed: bool,
    global_from_galley: Transform,
    galley: &Galley,
) -> (r: Option<Rect>)
    requires
        galley.wf(),
        composed_wf(global_from_galley),
        env.wf(),
        response.wf(),
    ensures
        r == spec_scroll_request(
            *env,
            *response,
            old_selection,
            selection,
            new_range,
            selection_changed,
            global_from_galley,
            *galley,
        ),
{
    let mut scroll_to: Option<Rect> = None;
    if let Some(range) = new_range {
        let new_primary = match selection {
            Some(sel) => Some(sel.primary),
            None => None,
        };
        if let Some(np) = new_primary {
            let primary_changed = match old_selection {
                None => true,
                Some(o) => !(o.primary.widget_id == np.widget_id) || !(o.primary.ccursor.index
                    == np.ccursor.index),
            };
            if primary_changed && np.widget_id == response.id {
                let is_fully_visible = env.clip_rect.contains_rect(&response.rect);
                if selection_changed && !is_fully_visible {
                    let row_height = estimate_row_height(galley);
                    let local = crate::text::cursor_rect(galley, &range.primary, row_height);
                    scroll_to = Some(global_from_galley.apply_rect(&local));
                }
            }
        }
    }
    scroll_to
}

/// The galley-to-global transform of one visit: the layer transform
/// composed with the galley's offset within its layer.
pub open spec fn spec_global_from_galley(env: VisitEnv, galley_pos: Pos) -> Transform {
    Transform {
        dx: (env.global_from_layer.dx + galley_pos.x) as i64,
        dy: (env.global_from_layer.dy + galley_pos.y) as i64,
    }
}

/// The laid-out character under the pointer.
pub open spec fn spec_visit_cursor_at(t: Transform, g: Galley, pointer: Pos) -> CCursor {
    CCursor { index: g.spec_cursor_from_pos(spec_local_pointer(t, pointer)) as usize }
}

/// The local range after the click step: when the pointer is over the
/// widget, clicks and double clicks act on it; otherwise it is untouched.
pub open spec fn spec_after_pointer(
    r0: Option<CCursorRange>,
    input: PassInput,
    resp: Response,
    t: Transform,
    g: Galley,
) -> Option<CCursorRange> {
    if input.pointer.interact_pos is Some && resp.contains_pointer {
        spec_pointer_interaction(
            TextCursorState { ccursor_range: r0 },
            input,
            resp,
            spec_visit_cursor_at(t, g, input.pointer.interact_pos->0),
            g,
        ).ccursor_range
    } else {
        r0
    }
}

/// The widget's galley rectangle in global coordinates (not clipped).
pub open spec fn spec_galley_rect(t: Transform, g: Galley) -> Rect {
    Rect {
        min: Pos { x: t.dx, y: t.dy },
        max: Pos { x: (g.size_x + t.dx) as i64, y: (g.size_y + t.dy) as i64 },
    }
}

/// Does this widget own the selection's primary endpoint?
pub open spec fn spec_owner_primary(sel: Option<CurrentSelection>, resp: Response) -> bool {
    sel matches Some(s) && s.primary.widget_id == resp.id
}

/// The local range after keyboard replay: only the widget owning the
/// primary endpoint replays the pass's events.
pub open spec fn spec_after_keys(owner: bool, r: CCursorRange, g: Galley, events: Seq<Event>) -> CCursorRange {
    if owner {
        spec_apply_events_from(g, r, events, 0)
    } else {
        r
    }
}

/// Everything one widget visit decides, as a function of its inputs: the
/// state fields it may change, the final local cursor range it paints,
/// and the scroll request. The steps compose the exact contracts of the
/// visit's parts, in the order the visit performs them: flag updates,
/// [`spec_cursor_for_sel`] and friends, clamping, the click step, the
/// keyboard replay and copy accumulation, the selection write-back, and
/// the scroll decision.
pub struct VisitModel {
    pub sel: Option<CurrentSelection>,
    pub reached_primary: bool,
    pub reached_secondary: bool,
    pub any_hovered: bool,
    pub is_dragging: bool,
    pub bbox_this_frame: Option<Rect>,
    pub text_to_copy: Seq<char>,
    pub last_copied_galley_rect: Option<Rect>,
    pub cursor_range: Option<CCursorRange>,
    pub scroll_to: Option<Rect>,
}

pub open spec fn spec_visit(
    s: LabelSelectionState,
    env: VisitEnv,
    input: PassInput,
    resp: Response,
    galley_pos: Pos,
    g: Galley,
) -> VisitModel {
    let t = spec_global_from_galley(env, galley_pos);
    let any_hovered = s.any_hovered || resp.hovered;
    let is_dragging = s.is_dragging || resp.is_pointer_button_down_on;
    let s1 = LabelSelectionState { any_hovered, is_dragging, ..s };
    let sel_cf = spec_cursor_for_sel(s1, env, input, resp, t, g);
    let rp_cf = spec_cursor_for_reached_primary(s1, env, input, resp, t, g);
    let rs_cf = spec_cursor_for_reached_secondary(s1, env, input, resp, t, g);
    let r0 = match spec_cursor_for_range(s1, env, input, resp, t, g) {
        None => None,
        Some(r) => Some(spec_clamp_range(r, g.spec_display_len())),
    };
    let r1 = spec_after_pointer(r0, input, resp, t, g);
    let owner = spec_owner_primary(sel_cf, resp);
    let new_range = match r1 {
        None => None::<CCursorRange>,
        Some(r) => Some(spec_after_keys(owner, r, g, input.events@)),
    };
    let grect = spec_galley_rect(t, g);
    let bbox = if r1 is Some {
        Some(
            match s.selection_bbox_this_frame {
                Some(b) => Rect::spec_union(b, grect),
                None => grect,
            },
        )
    } else {
        s.selection_bbox_this_frame
    };
    let do_copy = r1 is Some && spec_got_copy_event(input);
    let text = if do_copy {
        spec_copy_effect_text(s.text_to_copy@, s.last_copied_galley_rect, grect, g, new_range->0)
    } else {
        s.text_to_copy@
    };
    let last_rect = if do_copy {
        spec_copy_effect_rect(s.last_copied_galley_rect, grect, g, new_range->0)
    } else {
        s.last_copied_galley_rect
    };
    let changed = new_range != r0;
    let write_back = changed && new_range is Some;
    let sel_fin = if write_back {
        Some(
            LabelSelectionState::spec_written_selection(
                sel_cf,
                env,
                resp,
                r0,
                new_range->0,
                t,
                g,
            ),
        )
    } else {
        sel_cf
    };
    let rp_fin = if write_back {
        LabelSelectionState::spec_written_reached_primary(rp_cf, sel_cf, env, r0, new_range->0)
    } else {
        rp_cf
    };
    let rs_fin = if write_back {
        LabelSelectionState::spec_written_reached_secondary(rs_cf, sel_cf, env, r0, new_range->0)
    } else {
        rs_cf
    };
    let scroll = spec_scroll_request(env, resp, s.selection, sel_fin, new_range, changed, t, g);
    VisitModel {
        sel: sel_fin,
        reached_primary: rp_fin,
        reached_secondary: rs_fin,
        any_hovered,
        is_dragging,
        bbox_this_frame: bbox,
        text_to_copy: text,
        last_copied_galley_rect: last_rect,
        cursor_range: new_range,
        scroll_to: scroll,
    }
}

/// What one widget visit asks the surrounding shell to do.
#[derive(Clone, Copy, PartialEq, Eq, Structural, Debug)]
pub struct VisitOutput {
    /// Request the text-selection pointer cursor (the widget is hovered).
    pub request_text_cursor: bool,
    /// Bring this rectangle (global coordinates) into view, if asked.
    pub scroll_to: Option<Rect>,
}

/// What `on_label` decided for one widget visit.
pub struct LabelVisit {
    /// The widget's final local cursor range, to be painted.
    pub cursor_range: Option<CCursorRange>,
    pub out: VisitOutput,
}

fn opt_range_eq(a: &Option<CCursorRange>, b: &Option<CCursorRange>) -> (r: bool)
    ensures
        r == (*a == *b),
{
    match (a, b) {
        (None, None) => true,
        (Some(x), Some(y)) => x.primary.index == y.primary.index && x.secondary.index
            == y.secondary.index,
        _ => false,
    }
}

impl LabelSelectionState {
    /// Handle one text widget's visit: route the drag, click and keyboard
    /// input of this pass into the global selection, decide the widget's
    /// local cursor range, accumulate copy text, and ask for scrolling
    /// where the primary cursor moved out of view.
    #[verifier::rlimit(100)]
    #[verifier::spinoff_prover]
    fn on_label(
        &mut self,
        env: &VisitEnv,
        input: &PassInput,
        response: &Response,
        galley_pos_in_layer: Pos,
        galley: &Galley,
    ) -> (visit: LabelVisit)
        requires
            galley.wf(),
            env.wf(),
            input.wf(),
            response.wf(),
            galley_pos_in_layer.wf(),
            old(self).wf(),
        ensures
            final(self).wf(),
            visit.out.request_text_cursor == response.hovered,
            final(self).selection_bbox_last_frame == old(self).selection_bbox_last_frame,
            final(self).painted_selections == old(self).painted_selections,
            ({
                let m = spec_visit(
                    *old(self),
                    *env,
                    *input,
                    *response,
                    galley_pos_in_layer,
                    *galley,
                );
                &&& final(self).selection == m.sel
                &&& final(self).has_reached_primary == m.reached_primary
                &&& final(self).has_reached_secondary == m.reached_secondary
                &&& final(self).any_hovered == m.any_hovered
                &&& final(self).is_dragging == m.is_dragging
                &&& final(self).selection_bbox_this_frame == m.bbox_this_frame
                &&& final(self).text_to_copy@ == m.text_to_copy
                &&& final(self).last_copied_galley_rect == m.last_copied_galley_rect
                &&& visit.cursor_range == m.cursor_range
                &&& visit.out.scroll_to == m.scroll_to
            }),
            // The local range this visit paints stays within the text.
            visit.cursor_range matches Some(r) ==> r.primary.index <= galley.spec_display_len()
                && r.secondary.index <= galley.spec_display_len(),
    {
        let widget_id = response.id;

        let global_from_layer = env.global_from_layer;
        let layer_from_galley = Transform::from_translation(galley_pos_in_layer);
        let galley_from_layer = layer_from_galley.inverse();
        let layer_from_global = global_from_layer.inverse();
        let galley_from_global = galley_from_layer.compose(&layer_from_global);
        let global_from_galley = global_from_layer.compose(&layer_from_galley);

        proof {
            assert(global_from_galley == spec_global_from_galley(*env, galley_pos_in_layer));
        }

        let request_text_cursor = response.hovered;

        self.any_hovered = self.any_hovered || response.hovered;
        // Without the initial latency of the drag-versus-click decision:
        self.is_dragging = self.is_dragging || response.is_pointer_button_down_on;

        let ghost s1 = *self;
        proof {
            assert(s1 == LabelSelectionState {
                any_hovered: old(self).any_hovered || response.hovered,
                is_dragging: old(self).is_dragging || response.is_pointer_button_down_on,
                ..*old(self)
            });
        }

        let old_selection = self.selection;

        let mut cursor_state = self.cursor_for(env, input, response, global_from_galley, galley);
        if let Some(r) = cursor_state.ccursor_range {
            // Reading a range out of the galley clamps stale offsets.
            cursor_state.ccursor_range = Some(clamp_range(r, galley.display_len()));
        }

        let old_range = cursor_state.ccursor_range;

        if let Some(pointer_pos) = input.pointer.interact_pos {
            if response.contains_pointer {
                let local_pointer = galley_from_global.apply(pointer_pos);
                proof {
                    assert(local_pointer == spec_local_pointer(global_from_galley, pointer_pos));
                }
                let cursor_at_pointer = galley.cursor_from_pos(local_pointer);
                // Start-of-drag and double-click-to-select; the drag motion
                // itself is handled in `cursor_for`.
                pointer_interaction(&mut cursor_state, input, response, cursor_at_pointer, galley);
            }
        }
        proof {
            assert(cursor_state.ccursor_range == spec_after_pointer(
                old_range,
                *input,
                *response,
                global_from_galley,
                *galley,
            ));
        }

        if let Some(r1) = cursor_state.ccursor_range {
            let r2 = self.process_visit_range(input, response, global_from_galley, galley, r1);
            cursor_state.ccursor_range = Some(r2);
        }

        // Changes due to keyboard or mouse interaction:
        let new_range = cursor_state.ccursor_range;
        let selection_changed = !opt_range_eq(&old_range, &new_range);

        if selection_changed {
            if let Some(range) = new_range {
                self.store_selection_change(
                    env,
                    response,
                    old_range,
                    range,
                    global_from_galley,
                    galley,
                );
            }
        }

        // Ask the surrounding scroll area to keep a moved primary cursor in
        // view.
        let scroll_to = compute_scroll_request(
            env,
            response,
            old_selection,
            self.selection,
            new_range,
            selection_changed,
            global_from_galley,
            galley,
        );

        LabelVisit {
            cursor_range: cursor_state.ccursor_range,
            out: VisitOutput { request_text_cursor, scroll_to },
        }
    }

    /// The middle of a visit, once a local range exists: grow the
    /// per-pass selection bounding box by this widget's galley rectangle,
    /// replay the pass's key events when this widget owns the primary
    /// endpoint, and accumulate copy text on a copy or cut event.
    fn process_visit_range(
        &mut self,
        input: &PassInput,
        response: &Response,
        global_from_galley: Transform,
        galley: &Galley,
        r1: CCursorRange,
    ) -> (r2: CCursorRange)
        requires
            galley.wf(),
            composed_wf(global_from_galley),
            old(self).wf(),
            r1.primary.index <= galley.spec_display_len(),
            r1.secondary.index <= galley.spec_display_len(),
        ensures
            final(self).wf(),
            r2 == spec_after_keys(
                spec_owner_primary(old(self).selection, *response),
                r1,
                *galley,
                input.events@,
            ),
            r2.primary.index <= galley.spec_display_len(),
            r2.secondary.index <= galley.spec_display_len(),
            final(self).selection_bbox_this_frame == Some(
                match old(self).selection_bbox_this_frame {
                    Some(b) => Rect::spec_union(b, spec_galley_rect(global_from_galley, *galley)),
                    None => spec_galley_rect(global_from_galley, *galley),
                },
            ),
            final(self).text_to_copy@ == if spec_got_copy_event(*input) {
                spec_copy_effect_text(
                    old(self).text_to_copy@,
                    old(self).last_copied_galley_rect,
                    spec_galley_rect(global_from_galley, *galley),
                    *galley,
                    r2,
                )
            } else {
                old(self).text_to_copy@
            },
            final(self).last_copied_galley_rect == if spec_got_copy_event(*input) {
                spec_copy_effect_rect(
                    old(self).last_copied_galley_rect,
                    spec_galley_rect(global_from_galley, *galley),
                    *galley,
                    r2,
                )
            } else {
                old(self).last_copied_galley_rect
            },
            final(self).selection == old(self).selection,
            final(self).selection_bbox_last_frame == old(self).selection_bbox_last_frame,
            final(self).any_hovered == old(self).any_hovered,
            final(self).is_dragging == old(self).is_dragging,
            final(self).has_reached_primary == old(self).has_reached_primary,
            final(self).has_reached_secondary == old(self).has_reached_secondary,
            final(self).painted_selections == old(self).painted_selections,
    {
        let mut cursor_range = r1;
        let galley_rect = global_from_galley.apply_rect(
            &Rect::from_min_size(Pos::new(0, 0), galley.size_x, galley.size_y),
        );
        proof {
            assert(galley_rect == spec_galley_rect(global_from_galley, *galley));
        }
        self.selection_bbox_this_frame = Some(
            match self.selection_bbox_this_frame {
                Some(b) => b.union(&galley_rect),
                None => galley_rect,
            },
        );

        let owns_primary = match self.selection {
            Some(sel) => sel.primary.widget_id == response.id,
            None => false,
        };
        if owns_primary {
            process_selection_key_events(input, galley, response.id, &mut cursor_range);
        }

        if got_copy_event(input) {
            self.copy_text(galley_rect, galley, &cursor_range);
        }

        cursor_range
    }

    /// The selection a changed local range writes back: this widget takes
    /// every endpoint whose cursor changed (or both, when selections
    /// cannot span widgets); with no prior selection, a fresh one with
    /// both endpoints here.
    pub open spec fn spec_written_selection(
        sel0: Option<CurrentSelection>,
        env: VisitEnv,
        resp: Response,
        old_range: Option<CCursorRange>,
        range: CCursorRange,
        t: Transform,
        g: Galley,
    ) -> CurrentSelection {
        match sel0 {
            None => CurrentSelection {
                layer_id: resp.layer_id,
                primary: spec_endpoint(resp.id, range.primary, t, g),
                secondary: spec_endpoint(resp.id, range.secondary, t, g),
            },
            Some(sel) => {
                let take_primary = old_range is None || range.primary.index
                    != old_range->0.primary.index || !env.multi_widget_text_select;
                let take_secondary = old_range is None || range.secondary.index
                    != old_range->0.secondary.index || !env.multi_widget_text_select;
                CurrentSelection {
                    layer_id: resp.layer_id,
                    primary: if take_primary {
                        spec_endpoint(resp.id, range.primary, t, g)
                    } else {
                        sel.primary
                    },
                    secondary: if take_secondary {
                        spec_endpoint(resp.id, range.secondary, t, g)
                    } else {
                        sel.secondary
                    },
                }
            },
        }
    }

    /// Whether the primary endpoint counts as reached after the write-back.
    pub open spec fn spec_written_reached_primary(
        rp0: bool,
        sel0: Option<CurrentSelection>,
        env: VisitEnv,
        old_range: Option<CCursorRange>,
        range: CCursorRange,
    ) -> bool {
        match sel0 {
            None => true,
            Some(_) => rp0 || old_range is None || range.primary.index
                != old_range->0.primary.index || !env.multi_widget_text_select,
        }
    }

    /// Whether the anchor counts as reached after the write-back.
    pub open spec fn spec_written_reached_secondary(
        rs0: bool,
        sel0: Option<CurrentSelection>,
        env: VisitEnv,
        old_range: Option<CCursorRange>,
        range: CCursorRange,
    ) -> bool {
        match sel0 {
            None => true,
            Some(_) => rs0 || old_range is None || range.secondary.index
                != old_range->0.secondary.index || !env.multi_widget_text_select,
        }
    }

    /// Write a changed local range back into the global selection: this
    /// widget takes every endpoint whose cursor changed (or both, when
    /// selections cannot span widgets), and a new selection is created
    /// from scratch when none existed.
    fn store_selection_change(
        &mut self,
        env: &VisitEnv,
        response: &Response,
        old_range: Option<CCursorRange>,
        range: CCursorRange,
        global_from_galley: Transform,
        galley: &Galley,
    )
        requires
            galley.wf(),
            composed_wf(global_from_galley),
            old(self).wf(),
        ensures
            final(self).wf(),
            final(self).selection == Some(
                LabelSelectionState::spec_written_selection(
                    old(self).selection,
                    *env,
                    *response,
                    old_range,
                    range,
                    global_from_galley,
                    *galley,
                ),
            ),
            final(self).has_reached_primary == LabelSelectionState::spec_written_reached_primary(
                old(self).has_reached_primary,
                old(self).selection,
                *env,
                old_range,
                range,
            ),
            final(self).has_reached_secondary
                == LabelSelectionState::spec_written_reached_secondary(
                old(self).has_reached_secondary,
                old(self).selection,
                *env,
                old_range,
                range,
            ),
            final(self).selection_bbox_last_frame == old(self).selection_bbox_last_frame,
            final(self).selection_bbox_this_frame == old(self).selection_bbox_this_frame,
            final(self).any_hovered == old(self).any_hovered,
            final(self).is_dragging == old(self).is_dragging,
            final(self).text_to_copy == old(self).text_to_copy,
            final(self).last_copied_galley_rect == old(self).last_copied_galley_rect,
            final(self).painted_selections == old(self).painted_selections,
    {
        let widget_id = response.id;
        if let Some(sel0) = self.selection {
            let mut sel = sel0;
            let primary_changed = match old_range {
                Some(o) => range.primary.index != o.primary.index,
                None => true,
            };
            let secondary_changed = match old_range {
                Some(o) => range.secondary.index != o.secondary.index,
                None => true,
            };

            sel.layer_id = response.layer_id;

            if primary_changed || !env.multi_widget_text_select {
                sel.primary = WidgetTextCursor::new(
                    widget_id,
                    range.primary,
                    global_from_galley,
                    galley,
                );
                self.has_reached_primary = true;
            }
            if secondary_changed || !env.multi_widget_text_select {
                sel.secondary = WidgetTextCursor::new(
                    widget_id,
                    range.secondary,
                    global_from_galley,
                    galley,
                );
                self.has_reached_secondary = true;
            }
            self.selection = Some(sel);
        } else {
            // Start of a new selection.
            self.selection = Some(
                CurrentSelection {
                    layer_id: response.layer_id,
                    primary: WidgetTextCursor::new(
                        widget_id,
                        range.primary,
                        global_from_galley,
                        galley,
                    ),
                    secondary: WidgetTextCursor::new(
                        widget_id,
                        range.secondary,
                        global_from_galley,
                        galley,
                    ),
                },
            );
            self.has_reached_primary = true;
            self.has_reached_secondary = true;
        }
    }

    /// Handle text selection for a label-like widget, and paint its text
    /// into the scene (with the selection highlighted).
    ///
    /// The widget must sense clicks and drags. The caller loads this state
    /// from its viewport's store at pass start and stores it back at pass
    /// end, between `begin_pass` and `end_pass`.
    pub fn label_text_selection(
        &mut self,
        env: &VisitEnv,
        input: &PassInput,
        response: &Response,
        galley_pos: Pos,
        galley: &Galley,
        scene: &mut Scene,
    ) -> (out: VisitOutput)
        requires
            galley.wf(),
            env.wf(),
            input.wf(),
            response.wf(),
            galley_pos.wf(),
            old(self).wf(),
            old(self).painted_selections@.len() + 1 <= usize::MAX,
            forall|i: int|
                0 <= i < galley.rows.len() ==> (#[trigger] galley.rows[i]).end
                    - galley.rows[i].begin + 4 <= usize::MAX,
        ensures
            final(self).wf(),
            // The visit's whole effect on the selection state, its final
            // local range, and its shell requests are the visit model's.
            ({
                let m = spec_visit(*old(self), *env, *input, *response, galley_pos, *galley);
                &&& final(self).selection == m.sel
                &&& final(self).has_reached_primary == m.reached_primary
                &&& final(self).has_reached_secondary == m.reached_secondary
                &&& final(self).any_hovered == m.any_hovered
                &&& final(self).is_dragging == m.is_dragging
                &&& final(self).selection_bbox_this_frame == m.bbox_this_frame
                &&& final(self).text_to_copy@ == m.text_to_copy
                &&& final(self).last_copied_galley_rect == m.last_copied_galley_rect
                &&& out == (VisitOutput {
                    request_text_cursor: response.hovered,
                    scroll_to: m.scroll_to,
                })
            }),
            final(self).selection_bbox_last_frame == old(self).selection_bbox_last_frame,
            // One text shape for this widget's galley is added to the scene,
            // in the widget's layer; earlier shapes stay as they were. Its
            // mesh holds each row's glyph vertices, and rows touched by the
            // final local range carry one appended highlight quad.
            final(scene).shapes.len() == old(scene).shapes.len() + 1,
            forall|s: int|
                0 <= s < old(scene).shapes.len() ==> (#[trigger] final(scene).shapes[s]) == old(scene).shapes[s],
            ({
                let m = spec_visit(*old(self), *env, *input, *response, galley_pos, *galley);
                let shape = final(scene).shapes[old(scene).shapes.len() as int];
                &&& shape.layer_id == response.layer_id
                &&& shape.row_colors@.len() == galley.rows.len()
                &&& forall|i: int|
                    0 <= i < galley.rows.len() ==> ({
                        let chars_i = galley.rows[i].end - galley.rows[i].begin;
                        let selected = m.cursor_range matches Some(r) && spec_row_selected(
                            *galley,
                            r,
                            i,
                        );
                        &&& (#[trigger] shape.row_colors@[i])@.len() == chars_i + if selected {
                            4int
                        } else {
                            0int
                        }
                        &&& forall|v: int|
                            0 <= v < chars_i ==> (#[trigger] shape.row_colors@[i]@[v])
                                == crate::scene::GLYPH
                        &&& forall|v: int|
                            chars_i <= v < shape.row_colors@[i]@.len()
                                ==> (#[trigger] shape.row_colors@[i]@[v]) == crate::scene::HIGHLIGHT
                    })
            }),
            // The painted rows are recorded, with the new shape's index, so
            // an incomplete pass can revert them; a visit that highlights
            // nothing records nothing.
            ({
                let m = spec_visit(*old(self), *env, *input, *response, galley_pos, *galley);
                if m.cursor_range matches Some(r) && exists|i: int|
                    0 <= i < galley.rows.len() && spec_row_selected(*galley, r, i) {
                    &&& final(self).painted_selections@.len() == old(self).painted_selections@.len() + 1
                    &&& final(self).painted_selections@.subrange(
                        0,
                        old(self).painted_selections@.len() as int,
                    ) == old(self).painted_selections@
                    &&& final(self).painted_selections@.last().0 == old(scene).shapes.len()
                    &&& ({
                        let marks = final(self).painted_selections@.last().1;
                        &&& forall|k: int|
                            0 <= k < marks@.len() ==> ({
                                let mk = #[trigger] marks@[k];
                                let chars_r = galley.rows[mk.row as int].end
                                    - galley.rows[mk.row as int].begin;
                                &&& 0 <= mk.row < galley.rows.len()
                                &&& spec_row_selected(*galley, m.cursor_range->0, mk.row as int)
                                &&& mk.vertex_indices@ == seq![
                                    chars_r as usize,
                                    (chars_r + 1) as usize,
                                    (chars_r + 2) as usize,
                                    (chars_r + 3) as usize,
                                ]
                            })
                        &&& forall|i: int|
                            0 <= i < galley.rows.len() && spec_row_selected(
                                *galley,
                                m.cursor_range->0,
                                i,
                            ) ==> exists|k: int| 0 <= k < marks@.len() && (#[trigger] marks@[k].row) == i
                        &&& forall|k1: int, k2: int|
                            0 <= k1 < k2 < marks@.len() ==> (#[trigger] marks@[k1].row) < (
                            #[trigger] marks@[k2].row)
                    })
                } else {
                    final(self).painted_selections@ == old(self).painted_selections@
                }
            }),
    {
        let visit = self.on_label(env, input, response, galley_pos, galley);

        let mut shape = crate::scene::build_text_shape(response.layer_id, galley);
        let ghost built = shape;
        let mut new_vertex_indices: Vec<RowVertexIndices> = Vec::new();
        if let Some(cursor_range) = visit.cursor_range {
            new_vertex_indices = crate::scene::paint_text_selection(
                &mut shape,
                galley,
                &cursor_range,
            );
        }
        let ghost marks_seq = new_vertex_indices@;
        let shape_idx = scene.push_shape(shape);

        proof {
            if visit.cursor_range is Some {
                let r = visit.cursor_range->0;
                if exists|i: int| 0 <= i < galley.rows.len() && spec_row_selected(*galley, r, i) {
                    let i0 = choose|i: int|
                        0 <= i < galley.rows.len() && spec_row_selected(*galley, r, i);
                    assert(exists|k: int|
                        0 <= k < marks_seq.len() && (#[trigger] marks_seq[k].row) == i0);
                    assert(marks_seq.len() > 0);
                }
                if marks_seq.len() > 0 {
                    assert(spec_row_selected(*galley, r, marks_seq[0].row as int));
                }
            }
        }

        if new_vertex_indices.len() > 0 {
            self.painted_selections.push((shape_idx, new_vertex_indices));
            proof {
                assert(self.painted_selections@.subrange(
                    0,
                    old(self).painted_selections@.len() as int,
                ) =~= old(self).painted_selections@);
                let marks = self.painted_selections@.last().1;
                assert(marks@ == marks_seq);
                assert forall|k: int| 0 <= k < marks@.len() implies ({
                    let mk = #[trigger] marks@[k];
                    let chars_r = galley.rows[mk.row as int].end - galley.rows[mk.row as int].begin;
                    mk.vertex_indices@ =~= seq![
                        chars_r as usize,
                        (chars_r + 1) as usize,
                        (chars_r + 2) as usize,
                        (chars_r + 3) as usize,
                    ]
                }) by {
                    let mk = marks@[k];
                    assert(built.row_colors[mk.row as int]@.len() == galley.rows[mk.row as int].end
                        - galley.rows[mk.row as int].begin);
                }
            }
        }

        visit.out
    }
}

} // verus!
