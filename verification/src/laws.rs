//! Statements, proved once and for all, about how the selection engine
//! behaves across whole widget visits and passes.

use vstd::prelude::*;

use crate::geom::{Pos, Transform};
use crate::input::PassInput;
use crate::selection::{
    CurrentSelection, LabelSelectionState, Response, VisitEnv, spec_cursor_for_range,
    spec_cursor_for_reached_primary, spec_cursor_for_reached_secondary, spec_cursor_for_sel,
    spec_deselects_everything, spec_drag_target, spec_galley_rect_clipped, spec_global_from_galley,
    spec_is_in_same_column, spec_sel_after_drag, spec_visit, spec_visit_cursor_at,
};
use crate::text::Galley;

verus! {

/// Dragging upward past the topmost reached widget of the selection's
/// column anchors the primary cursor to that widget's very first
/// character: whenever, during a drag whose pointer is not over this
/// widget, the widget shares a column with the previous pass's selection
/// bounding box, the primary endpoint has not been reached yet and sits
/// above the anchor, and the pointer has moved above this widget's top
/// edge (which itself lies above the anchor), the drag step hands this
/// widget the primary endpoint, at the text's start.
pub proof fn lemma_upward_extension(
    s: LabelSelectionState,
    sel: CurrentSelection,
    env: VisitEnv,
    input: PassInput,
    resp: Response,
    t: Transform,
    g: Galley,
    pointer: Pos,
)
    requires
        s.is_dragging,
        env.multi_widget_text_select || sel.primary.widget_id == resp.id,
        input.pointer.interact_pos == Some(pointer),
        !resp.contains_pointer,
        spec_is_in_same_column(s, spec_galley_rect_clipped(t, g, env.clip_rect)),
        !s.has_reached_primary,
        sel.primary.pos.y <= sel.secondary.pos.y,
        pointer.y <= spec_galley_rect_clipped(t, g, env.clip_rect).min.y,
        spec_galley_rect_clipped(t, g, env.clip_rect).min.y <= sel.secondary.pos.y,
    ensures
        spec_drag_target(s, sel, env, resp, t, g, pointer) matches Some(c) && c.index == 0,
        spec_sel_after_drag(s, sel, env, input, resp, t, g).primary.widget_id == resp.id,
        spec_sel_after_drag(s, sel, env, input, resp, t, g).primary.ccursor.index == 0,
{
}

/// Dragging downward past the bottommost reached widget of the column
/// anchors the primary cursor to that widget's very last character: when,
/// during a drag whose pointer is not over this widget, both endpoints
/// count as reached, the anchor sits above the primary endpoint and above
/// this widget's bottom edge, and the pointer has moved below that edge,
/// the drag step hands this widget the primary endpoint, at the text's
/// end.
pub proof fn lemma_downward_extension(
    s: LabelSelectionState,
    sel: CurrentSelection,
    env: VisitEnv,
    input: PassInput,
    resp: Response,
    t: Transform,
    g: Galley,
    pointer: Pos,
)
    requires
        s.is_dragging,
        env.multi_widget_text_select || sel.primary.widget_id == resp.id,
        input.pointer.interact_pos == Some(pointer),
        !resp.contains_pointer,
        spec_is_in_same_column(s, spec_galley_rect_clipped(t, g, env.clip_rect)),
        s.has_reached_primary || resp.id == sel.primary.widget_id,
        s.has_reached_secondary || resp.id == sel.secondary.widget_id,
        sel.secondary.pos.y <= sel.primary.pos.y,
        sel.secondary.pos.y <= spec_galley_rect_clipped(t, g, env.clip_rect).max.y,
        spec_galley_rect_clipped(t, g, env.clip_rect).max.y <= pointer.y,
        // The pointer sits below the widget, so the upward rule cannot
        // fire; where the two rules would overlap (all edges level), the
        // upward one wins, so rule it out.
        !(!s.has_reached_primary && sel.primary.pos.y <= sel.secondary.pos.y && pointer.y
            <= spec_galley_rect_clipped(t, g, env.clip_rect).min.y && spec_galley_rect_clipped(
            t,
            g,
            env.clip_rect,
        ).min.y <= sel.secondary.pos.y),
    ensures
        spec_drag_target(s, sel, env, resp, t, g, pointer) matches Some(c) && c.index
            == g.spec_display_len(),
        spec_sel_after_drag(s, sel, env, input, resp, t, g).primary.widget_id == resp.id,
        spec_sel_after_drag(s, sel, env, input, resp, t, g).primary.ccursor.index
            == g.spec_display_len(),
{
}

/// Escape, or a pointer press while no participating widget is hovered,
/// deselects unconditionally by pass end, drag or no drag: the pass-end
/// reconciliation clears the selection whenever that condition holds,
/// whatever else the pass did.
pub proof fn lemma_escape_or_click_elsewhere_deselects(s: LabelSelectionState, input: PassInput)
    requires
        spec_deselects_everything(s, input),
    ensures
        // This is the very expression end_pass's contract leaves in
        // `selection`: the deselect condition overrides every other
        // outcome.
        (if !(s.has_reached_primary && s.has_reached_secondary) || spec_deselects_everything(
            s,
            input,
        ) {
            None::<CurrentSelection>
        } else {
            s.selection
        }) is None,
{
}

/// A selection belongs to exactly one layer: a widget visit reporting
/// another layer neither reads nor moves it. The visit's cursor step
/// leaves the selection and the reached flags exactly as they were and
/// hands the widget no local range.
pub proof fn lemma_layer_confinement(
    s: LabelSelectionState,
    sel: CurrentSelection,
    env: VisitEnv,
    input: PassInput,
    resp: Response,
    t: Transform,
    g: Galley,
)
    requires
        s.selection == Some(sel),
        sel.layer_id != resp.layer_id,
    ensures
        spec_cursor_for_sel(s, env, input, resp, t, g) == s.selection,
        spec_cursor_for_reached_primary(s, env, input, resp, t, g) == s.has_reached_primary,
        spec_cursor_for_reached_secondary(s, env, input, resp, t, g) == s.has_reached_secondary,
        spec_cursor_for_range(s, env, input, resp, t, g) is None,
{
}

/// A press with no selection yet creates a fresh, collapsed selection at
/// the clicked character, owned by the pressed widget in its layer, with
/// both endpoints counting as reached: the first half of the
/// press-and-release story (releasing without movement then leaves this
/// empty selection in place).
pub proof fn lemma_press_creates_collapsed_selection(
    s: LabelSelectionState,
    env: VisitEnv,
    input: PassInput,
    resp: Response,
    galley_pos: Pos,
    g: Galley,
    pointer: Pos,
)
    requires
        s.selection is None,
        input.pointer.interact_pos == Some(pointer),
        input.pointer.any_pressed,
        !resp.double_clicked,
        resp.contains_pointer,
    ensures
        ({
            let m = spec_visit(s, env, input, resp, galley_pos, g);
            let cursor = spec_visit_cursor_at(spec_global_from_galley(env, galley_pos), g, pointer);
            &&& m.sel matches Some(sel)
            &&& m.sel->0.layer_id == resp.layer_id
            &&& m.sel->0.primary.widget_id == resp.id
            &&& m.sel->0.secondary.widget_id == resp.id
            &&& m.sel->0.primary.ccursor == cursor
            &&& m.sel->0.secondary.ccursor == cursor
            &&& m.reached_primary
            &&& m.reached_secondary
        }),
{
}

} // verus!
