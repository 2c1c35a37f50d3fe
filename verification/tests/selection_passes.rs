//! Whole-pass scenarios: press, drag, copy, teardown and layer rules,
//! driven through `begin_pass` / `label_text_selection` / `end_pass`.

use label_select::geom::{Pos, Rect};
use label_select::ids::{Id, LayerId};
use label_select::input::{Event, Key, Modifiers, PassInput, PointerInput};
use label_select::scene::{Scene, HIGHLIGHT, TRANSPARENT};
use label_select::selection::{CurrentSelection, LabelSelectionState, Response, VisitEnv, WidgetTextCursor};
use label_select::text::{CCursor, Galley};

fn chars(s: &str) -> Vec<char> {
    s.chars().collect()
}

fn galley(s: &str) -> Galley {
    // 10 units per character, 10 units tall.
    Galley::single_row(chars(s), 10, 10)
}

fn env() -> VisitEnv {
    VisitEnv {
        clip_rect: Rect::new(Pos::new(0, 0), Pos::new(100_000, 100_000)),
        global_from_layer: label_select::geom::Transform::identity(),
        multi_widget_text_select: true,
    }
}

fn response(id: u64, layer: u64, rect: Rect) -> Response {
    Response {
        id: Id(id),
        layer_id: LayerId(layer),
        rect,
        hovered: false,
        contains_pointer: false,
        is_pointer_button_down_on: false,
        double_clicked: false,
    }
}

fn input_idle() -> PassInput {
    PassInput {
        events: Vec::new(),
        pointer: PointerInput { any_pressed: false, any_released: false, interact_pos: None },
        modifiers: Modifiers { shift: false, command: false },
    }
}

/// A press with zero pointer movement yields a collapsed selection, and
/// copying it falls back to the widget's full text.
#[test]
fn empty_drag_copy_returns_full_text() {
    let g = galley("hello");
    let rect = Rect::new(Pos::new(0, 0), Pos::new(50, 10));
    let mut state = LabelSelectionState::default();

    // Pass 1: press over the widget, no movement, release.
    let mut scene = Scene::new();
    let mut input = input_idle();
    input.pointer.any_pressed = true;
    input.pointer.any_released = true;
    input.pointer.interact_pos = Some(Pos::new(5, 5));
    let mut resp = response(1, 1, rect);
    resp.hovered = true;
    resp.contains_pointer = true;
    resp.is_pointer_button_down_on = true;
    state.begin_pass();
    state.label_text_selection(&env(), &input, &resp, Pos::new(0, 0), &g, &mut scene);
    let end = state.end_pass(&input, &mut scene);
    assert!(state.has_selection());
    assert!(end.copied_text.is_none());

    // Pass 2: a copy event arrives; the collapsed selection copies the
    // whole text.
    let mut scene2 = Scene::new();
    let mut input2 = input_idle();
    input2.pointer.interact_pos = Some(Pos::new(5, 5));
    input2.events.push(Event::Copy);
    let mut resp2 = response(1, 1, rect);
    resp2.hovered = true;
    resp2.contains_pointer = true;
    state.begin_pass();
    state.label_text_selection(&env(), &input2, &resp2, Pos::new(0, 0), &g, &mut scene2);
    let end2 = state.end_pass(&input2, &mut scene2);
    assert_eq!(end2.copied_text, Some(chars("hello")));
}

/// Selecting offsets 1..4 of "hello" and copying returns "ell".
#[test]
fn single_widget_round_trip_copies_slice() {
    let g = galley("hello");
    let rect = Rect::new(Pos::new(0, 0), Pos::new(50, 10));
    let mut state = LabelSelectionState::default();

    // Pass 1: press at character 1.
    let mut scene = Scene::new();
    let mut input = input_idle();
    input.pointer.any_pressed = true;
    input.pointer.interact_pos = Some(Pos::new(15, 5));
    let mut resp = response(1, 1, rect);
    resp.hovered = true;
    resp.contains_pointer = true;
    resp.is_pointer_button_down_on = true;
    state.begin_pass();
    state.label_text_selection(&env(), &input, &resp, Pos::new(0, 0), &g, &mut scene);
    state.end_pass(&input, &mut scene);

    // Pass 2: drag to character 4.
    let mut scene2 = Scene::new();
    let mut input2 = input_idle();
    input2.pointer.interact_pos = Some(Pos::new(45, 5));
    let mut resp2 = response(1, 1, rect);
    resp2.hovered = true;
    resp2.contains_pointer = true;
    resp2.is_pointer_button_down_on = true;
    state.begin_pass();
    state.label_text_selection(&env(), &input2, &resp2, Pos::new(0, 0), &g, &mut scene2);
    state.end_pass(&input2, &mut scene2);

    // Pass 3: copy.
    let mut scene3 = Scene::new();
    let mut input3 = input_idle();
    input3.pointer.any_released = true;
    input3.pointer.interact_pos = Some(Pos::new(45, 5));
    input3.events.push(Event::Copy);
    let mut resp3 = response(1, 1, rect);
    resp3.hovered = true;
    resp3.contains_pointer = true;
    state.begin_pass();
    state.label_text_selection(&env(), &input3, &resp3, Pos::new(0, 0), &g, &mut scene3);
    let end3 = state.end_pass(&input3, &mut scene3);
    assert_eq!(end3.copied_text, Some(chars("ell")));
}

/// With an active two-widget selection, a pass that visits only one of the
/// owning widgets drops the selection and reverts every highlight vertex
/// painted that pass to transparent.
#[test]
fn visibility_loss_tears_down_and_reverts_highlight() {
    let g_a = galley("hello");
    let g_b = galley("world");
    let rect_a = Rect::new(Pos::new(0, 0), Pos::new(50, 10));
    let rect_b = Rect::new(Pos::new(0, 20), Pos::new(50, 30));
    let mut state = LabelSelectionState::default();

    // Pass 1: press in widget A at character 1.
    let mut scene = Scene::new();
    let mut input = input_idle();
    input.pointer.any_pressed = true;
    input.pointer.interact_pos = Some(Pos::new(15, 5));
    let mut resp_a = response(1, 1, rect_a);
    resp_a.hovered = true;
    resp_a.contains_pointer = true;
    resp_a.is_pointer_button_down_on = true;
    state.begin_pass();
    state.label_text_selection(&env(), &input, &resp_a, Pos::new(0, 0), &g_a, &mut scene);
    let resp_b = response(2, 1, rect_b);
    state.label_text_selection(&env(), &input, &resp_b, Pos::new(0, 20), &g_b, &mut scene);
    state.end_pass(&input, &mut scene);
    assert!(state.has_selection());

    // Pass 2: drag down into widget B; the selection now spans A and B.
    let mut scene2 = Scene::new();
    let mut input2 = input_idle();
    input2.pointer.interact_pos = Some(Pos::new(25, 25));
    let resp_a2 = response(1, 1, rect_a);
    let mut resp_b2 = response(2, 1, rect_b);
    resp_b2.hovered = true;
    resp_b2.contains_pointer = true;
    resp_b2.is_pointer_button_down_on = true;
    state.begin_pass();
    state.label_text_selection(&env(), &input2, &resp_a2, Pos::new(0, 0), &g_a, &mut scene2);
    state.label_text_selection(&env(), &input2, &resp_b2, Pos::new(0, 20), &g_b, &mut scene2);
    state.end_pass(&input2, &mut scene2);
    assert!(state.has_selection());
    let sel = state.selection.unwrap();
    assert_eq!(sel.primary.widget_id, Id(2));
    assert_eq!(sel.secondary.widget_id, Id(1));

    // Pass 3: only widget B is visited (A scrolled away): the selection is
    // dropped, and B's highlight quad, painted this pass, is reverted.
    let mut scene3 = Scene::new();
    let input3 = input_idle();
    let resp_b3 = response(2, 1, rect_b);
    state.begin_pass();
    state.label_text_selection(&env(), &input3, &resp_b3, Pos::new(0, 20), &g_b, &mut scene3);
    // Before end_pass the quad for B's selected row is highlighted:
    // 5 glyph vertices, then 4 highlight vertices.
    assert_eq!(scene3.shapes[0].row_colors[0].len(), 9);
    for v in 5..9 {
        assert_eq!(scene3.shapes[0].row_colors[0][v], HIGHLIGHT);
    }
    let end3 = state.end_pass(&input3, &mut scene3);
    assert!(!state.has_selection());
    assert!(end3.copied_text.is_none());
    for v in 5..9 {
        assert_eq!(scene3.shapes[0].row_colors[0][v], TRANSPARENT);
    }
    // The glyph vertices themselves are untouched.
    for v in 0..5 {
        assert_eq!(scene3.shapes[0].row_colors[0][v], label_select::scene::GLYPH);
    }
}

/// A selection started in one layer ignores cursor and position updates
/// from widgets reporting another layer.
#[test]
fn layer_confinement_ignores_other_layers() {
    let g_a = galley("hello");
    let g_c = galley("other");
    let rect_a = Rect::new(Pos::new(0, 0), Pos::new(50, 10));
    let rect_c = Rect::new(Pos::new(0, 40), Pos::new(50, 50));
    let mut state = LabelSelectionState::default();

    // Pass 1: press and release in widget A (layer 1).
    let mut scene = Scene::new();
    let mut input = input_idle();
    input.pointer.any_pressed = true;
    input.pointer.any_released = true;
    input.pointer.interact_pos = Some(Pos::new(25, 5));
    let mut resp_a = response(1, 1, rect_a);
    resp_a.hovered = true;
    resp_a.contains_pointer = true;
    resp_a.is_pointer_button_down_on = true;
    state.begin_pass();
    state.label_text_selection(&env(), &input, &resp_a, Pos::new(0, 0), &g_a, &mut scene);
    state.end_pass(&input, &mut scene);
    let before = state.selection.unwrap();
    assert_eq!(before.layer_id, LayerId(1));

    // Pass 2: the pointer hovers a widget of layer 2; without a fresh
    // press there, the selection does not move.
    let mut scene2 = Scene::new();
    let mut input2 = input_idle();
    input2.pointer.interact_pos = Some(Pos::new(25, 45));
    let resp_a2 = response(1, 1, rect_a);
    let mut resp_c = response(3, 2, rect_c);
    resp_c.hovered = true;
    resp_c.contains_pointer = true;
    state.begin_pass();
    state.label_text_selection(&env(), &input2, &resp_c, Pos::new(0, 40), &g_c, &mut scene2);
    state.label_text_selection(&env(), &input2, &resp_a2, Pos::new(0, 0), &g_a, &mut scene2);
    state.end_pass(&input2, &mut scene2);
    let after = state.selection.unwrap();
    assert_eq!(after.layer_id, LayerId(1));
    assert_eq!(after.primary.widget_id, Id(1));
    assert_eq!(after.primary.ccursor, before.primary.ccursor);
    assert_eq!(after.secondary.ccursor, before.secondary.ccursor);
}

/// Pressing Escape clears the selection by pass end, even mid-drag.
#[test]
fn escape_clears_selection_mid_drag() {
    let g = galley("hello");
    let rect = Rect::new(Pos::new(0, 0), Pos::new(50, 10));
    let mut state = LabelSelectionState::default();

    let mut scene = Scene::new();
    let mut input = input_idle();
    input.pointer.any_pressed = true;
    input.pointer.interact_pos = Some(Pos::new(15, 5));
    let mut resp = response(1, 1, rect);
    resp.hovered = true;
    resp.contains_pointer = true;
    resp.is_pointer_button_down_on = true;
    state.begin_pass();
    state.label_text_selection(&env(), &input, &resp, Pos::new(0, 0), &g, &mut scene);
    state.end_pass(&input, &mut scene);
    assert!(state.has_selection());

    // Next pass: Escape arrives while the button is still down.
    let mut scene2 = Scene::new();
    let mut input2 = input_idle();
    input2.pointer.interact_pos = Some(Pos::new(15, 5));
    input2.events.push(Event::KeyPress {
        key: Key::Escape,
        modifiers: Modifiers { shift: false, command: false },
    });
    let mut resp2 = response(1, 1, rect);
    resp2.hovered = true;
    resp2.contains_pointer = true;
    resp2.is_pointer_button_down_on = true;
    state.begin_pass();
    state.label_text_selection(&env(), &input2, &resp2, Pos::new(0, 0), &g, &mut scene2);
    state.end_pass(&input2, &mut scene2);
    assert!(!state.has_selection());
}

/// A pointer press over no participating widget clears the selection.
#[test]
fn click_elsewhere_clears_selection() {
    let g = galley("hello");
    let rect = Rect::new(Pos::new(0, 0), Pos::new(50, 10));
    let mut state = LabelSelectionState::default();

    let mut scene = Scene::new();
    let mut input = input_idle();
    input.pointer.any_pressed = true;
    input.pointer.any_released = true;
    input.pointer.interact_pos = Some(Pos::new(15, 5));
    let mut resp = response(1, 1, rect);
    resp.hovered = true;
    resp.contains_pointer = true;
    resp.is_pointer_button_down_on = true;
    state.begin_pass();
    state.label_text_selection(&env(), &input, &resp, Pos::new(0, 0), &g, &mut scene);
    state.end_pass(&input, &mut scene);
    assert!(state.has_selection());

    // Next pass: a press lands outside every label.
    let mut scene2 = Scene::new();
    let mut input2 = input_idle();
    input2.pointer.any_pressed = true;
    input2.pointer.interact_pos = Some(Pos::new(500, 500));
    let resp2 = response(1, 1, rect);
    state.begin_pass();
    state.label_text_selection(&env(), &input2, &resp2, Pos::new(0, 0), &g, &mut scene2);
    state.end_pass(&input2, &mut scene2);
    assert!(!state.has_selection());
}

/// Dragging upward past the topmost reached widget anchors the primary
/// cursor to that widget's first character.
#[test]
fn upward_extension_anchors_to_text_start() {
    let g_a = galley("hello");
    let rect_a = Rect::new(Pos::new(0, 0), Pos::new(50, 10));
    let mut state = LabelSelectionState::default();
    // A drag is under way; both selection endpoints live in widget B,
    // below widget A, and last pass's selection bounding box shares A's
    // column.
    state.selection = Some(CurrentSelection {
        layer_id: LayerId(1),
        primary: WidgetTextCursor { widget_id: Id(2), ccursor: CCursor { index: 0 }, pos: Pos::new(5, 25) },
        secondary: WidgetTextCursor { widget_id: Id(2), ccursor: CCursor { index: 5 }, pos: Pos::new(45, 25) },
    });
    state.selection_bbox_last_frame = Some(Rect::new(Pos::new(0, 20), Pos::new(50, 30)));
    state.is_dragging = true;

    // The pointer has moved above widget A's top edge; A is visited.
    let mut scene = Scene::new();
    let mut input = input_idle();
    input.pointer.interact_pos = Some(Pos::new(5, -5));
    let resp_a = response(1, 1, rect_a);
    state.label_text_selection(&env(), &input, &resp_a, Pos::new(0, 0), &g_a, &mut scene);

    let sel = state.selection.unwrap();
    assert_eq!(sel.primary.widget_id, Id(1));
    assert_eq!(sel.primary.ccursor.index, 0);
}

/// Dragging downward past the bottommost reached widget anchors the
/// primary cursor to that widget's last character.
#[test]
fn downward_extension_anchors_to_text_end() {
    let g_b = galley("hello");
    let g_c = galley("below");
    let rect_b = Rect::new(Pos::new(0, 20), Pos::new(50, 30));
    let rect_c = Rect::new(Pos::new(0, 40), Pos::new(50, 50));
    let mut state = LabelSelectionState::default();
    state.selection = Some(CurrentSelection {
        layer_id: LayerId(1),
        primary: WidgetTextCursor { widget_id: Id(2), ccursor: CCursor { index: 3 }, pos: Pos::new(35, 25) },
        secondary: WidgetTextCursor { widget_id: Id(2), ccursor: CCursor { index: 0 }, pos: Pos::new(5, 25) },
    });
    state.selection_bbox_last_frame = Some(Rect::new(Pos::new(0, 20), Pos::new(50, 30)));
    state.is_dragging = true;

    // The pointer has moved below widget C; B is visited first, then C.
    let mut scene = Scene::new();
    let mut input = input_idle();
    input.pointer.interact_pos = Some(Pos::new(25, 55));
    let resp_b = response(2, 1, rect_b);
    state.label_text_selection(&env(), &input, &resp_b, Pos::new(0, 20), &g_b, &mut scene);
    let resp_c = response(3, 1, rect_c);
    state.label_text_selection(&env(), &input, &resp_c, Pos::new(0, 40), &g_c, &mut scene);

    let sel = state.selection.unwrap();
    assert_eq!(sel.primary.widget_id, Id(3));
    assert_eq!(sel.primary.ccursor.index, 5);
}
