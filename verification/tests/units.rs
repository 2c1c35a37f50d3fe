//! Unit checks of the supporting pieces: the copy join heuristic with its
//! exact gaps, the text oracle model, key-event replay, the keyed store,
//! painting and reverting, and the integer geometry.

use label_select::geom::{Pos, Rect, Transform};
use label_select::ids::{Id, LayerId};
use label_select::input::{Event, Key, Modifiers, PassInput, PointerInput, got_copy_event, key_pressed};
use label_select::scene::{
    Scene, build_text_shape, clear_marks, paint_text_selection, GLYPH, HIGHLIGHT, TRANSPARENT,
};
use label_select::selection::{CurrentSelection, LabelSelectionState, WidgetTextCursor, process_selection_key_events};
use label_select::store::StateStore;
use label_select::text::{
    CCursor, CCursorRange, Galley, Row, estimate_row_height, pos_in_galley, select_word_at,
    selected_text,
};

fn chars(s: &str) -> Vec<char> {
    s.chars().collect()
}

fn galley(s: &str) -> Galley {
    Galley::single_row(chars(s), 10, 10)
}

fn input_with(events: Vec<Event>) -> PassInput {
    PassInput {
        events,
        pointer: PointerInput { any_pressed: false, any_released: false, interact_pos: None },
        modifiers: Modifiers { shift: false, command: false },
    }
}

fn copy_all(state: &mut LabelSelectionState, rect: Rect, g: &Galley) {
    // An empty range copies the full text.
    let r = CCursorRange { primary: CCursor { index: 0 }, secondary: CCursor { index: 0 } };
    state.copy_text(rect, g, &r);
}

/// A vertical gap above half a row height joins as a paragraph break: two
/// newlines.
#[test]
fn join_wide_vertical_gap_inserts_two_newlines() {
    let mut state = LabelSelectionState::default();
    let g = galley("alpha");
    copy_all(&mut state, Rect::new(Pos::new(0, 90), Pos::new(50, 100)), &g);
    // Fragment B starts 6 units below A's bottom: 10 < 2 * 6.
    let g2 = galley("beta");
    copy_all(&mut state, Rect::new(Pos::new(0, 106), Pos::new(40, 116)), &g2);
    assert_eq!(state.text_to_copy, chars("alpha\n\nbeta"));
}

/// A small vertical step joins with a single newline.
#[test]
fn join_small_vertical_gap_inserts_one_newline() {
    let mut state = LabelSelectionState::default();
    let g = galley("alpha");
    copy_all(&mut state, Rect::new(Pos::new(0, 90), Pos::new(50, 100)), &g);
    // Fragment B starts 2 units below A's bottom: not 10 < 2 * 2.
    let g2 = galley("beta");
    copy_all(&mut state, Rect::new(Pos::new(0, 102), Pos::new(40, 112)), &g2);
    assert_eq!(state.text_to_copy, chars("alpha\nbeta"));
}

/// Same-row adjacency with trailing whitespace already present inserts no
/// extra space.
#[test]
fn join_same_row_trailing_space_adds_nothing() {
    let mut state = LabelSelectionState::default();
    let g = galley("foo ");
    copy_all(&mut state, Rect::new(Pos::new(0, 0), Pos::new(40, 10)), &g);
    let g2 = galley("bar");
    copy_all(&mut state, Rect::new(Pos::new(40, 0), Pos::new(70, 10)), &g2);
    assert_eq!(state.text_to_copy, chars("foo bar"));
}

/// Same-row adjacency without whitespace at the seam inserts one space.
#[test]
fn join_same_row_without_space_inserts_space() {
    let mut state = LabelSelectionState::default();
    let g = galley("foo");
    copy_all(&mut state, Rect::new(Pos::new(0, 0), Pos::new(30, 10)), &g);
    let g2 = galley("bar");
    copy_all(&mut state, Rect::new(Pos::new(30, 0), Pos::new(60, 10)), &g2);
    assert_eq!(state.text_to_copy, chars("foo bar"));
}

/// A fragment opening with punctuation never gets a space before it.
#[test]
fn join_before_punctuation_adds_no_space() {
    let mut state = LabelSelectionState::default();
    let g = galley("foo");
    copy_all(&mut state, Rect::new(Pos::new(0, 0), Pos::new(30, 10)), &g);
    let g2 = galley(".bar");
    copy_all(&mut state, Rect::new(Pos::new(30, 0), Pos::new(70, 10)), &g2);
    assert_eq!(state.text_to_copy, chars("foo.bar"));
}

/// Copying nothing is a no-op, not an error.
#[test]
fn empty_copy_is_no_op() {
    let mut state = LabelSelectionState::default();
    let g = Galley::single_row(Vec::new(), 10, 10);
    let r = CCursorRange { primary: CCursor { index: 0 }, secondary: CCursor { index: 0 } };
    state.copy_text(Rect::new(Pos::new(0, 0), Pos::new(0, 10)), &g, &r);
    assert!(state.text_to_copy.is_empty());
    assert!(state.last_copied_galley_rect.is_none());

    // And end_pass hands out no clipboard text.
    let mut scene = Scene::new();
    state.has_reached_primary = true;
    state.has_reached_secondary = true;
    let end = state.end_pass(&input_with(Vec::new()), &mut scene);
    assert_eq!(end.copied_text, None);
}

/// A selection covering the whole laid-out text of an elided label copies
/// the full un-elided text.
#[test]
fn selected_text_elided_full_text_fallback() {
    // Rows lay out only "full"; the source text is longer.
    let g = Galley {
        text: chars("full text"),
        rows: vec![Row { begin: 0, end: 4, left: 0, top: 0, height: 10, char_w: 10 }],
        size_x: 40,
        size_y: 10,
    };
    let all = CCursorRange { primary: CCursor { index: 4 }, secondary: CCursor { index: 0 } };
    assert_eq!(selected_text(&g, &all), chars("full text"));
    let part = CCursorRange { primary: CCursor { index: 3 }, secondary: CCursor { index: 1 } };
    assert_eq!(selected_text(&g, &part), chars("ul"));
}

#[test]
fn selected_text_slice_and_empty() {
    let g = galley("hello");
    let r = CCursorRange { primary: CCursor { index: 1 }, secondary: CCursor { index: 4 } };
    assert_eq!(selected_text(&g, &r), chars("ell"));
    let empty = CCursorRange { primary: CCursor { index: 2 }, secondary: CCursor { index: 2 } };
    assert_eq!(selected_text(&g, &empty), chars("hello"));
}

#[test]
fn cursor_geometry_round_trip() {
    let g = galley("hello");
    // Character 3 starts at x = 30; its row center is y = 5.
    let p = pos_in_galley(&g, CCursor { index: 3 });
    assert_eq!(p, Pos::new(30, 5));
    let c = g.cursor_from_pos(Pos::new(35, 5));
    assert_eq!(c.index, 3);
    // Beyond the row, the cursor clamps to the text end.
    assert_eq!(g.cursor_from_pos(Pos::new(500, 5)).index, 5);
    assert_eq!(g.cursor_from_pos(Pos::new(-7, 5)).index, 0);
}

#[test]
fn multi_row_cursor_lookup() {
    let g = Galley {
        text: chars("abcdef"),
        rows: vec![
            Row { begin: 0, end: 3, left: 0, top: 0, height: 10, char_w: 10 },
            Row { begin: 3, end: 6, left: 0, top: 10, height: 10, char_w: 10 },
        ],
        size_x: 30,
        size_y: 20,
    };
    assert_eq!(g.cursor_from_pos(Pos::new(15, 15)).index, 4);
    assert_eq!(pos_in_galley(&g, CCursor { index: 4 }), Pos::new(10, 15));
    assert_eq!(estimate_row_height(&g), 10);
    let empty = Galley { text: Vec::new(), rows: Vec::new(), size_x: 0, size_y: 7 };
    assert_eq!(estimate_row_height(&empty), 7);
}

#[test]
fn word_selection_around_cursor() {
    let g = galley("foo bar baz");
    let w = select_word_at(&g, CCursor { index: 5 });
    assert_eq!(w.secondary.index, 4);
    assert_eq!(w.primary.index, 7);
    // At a boundary just past a word, the run to the left is taken.
    let w2 = select_word_at(&g, CCursor { index: 3 });
    assert_eq!(w2.secondary.index, 0);
    assert_eq!(w2.primary.index, 3);
}

#[test]
fn key_events_move_and_extend_cursor() {
    let g = galley("hello");
    let shift = Modifiers { shift: true, command: false };
    let plain = Modifiers { shift: false, command: false };

    // Shift+Right from a collapsed cursor extends the primary end.
    let mut r = CCursorRange { primary: CCursor { index: 1 }, secondary: CCursor { index: 1 } };
    let input = input_with(vec![Event::KeyPress { key: Key::ArrowRight, modifiers: shift }]);
    let changed = process_selection_key_events(&input, &g, Id(1), &mut r);
    assert!(changed);
    assert_eq!(r.primary.index, 2);
    assert_eq!(r.secondary.index, 1);

    // A plain Left on a nonempty range collapses to its smaller end.
    let input2 = input_with(vec![Event::KeyPress { key: Key::ArrowLeft, modifiers: plain }]);
    process_selection_key_events(&input2, &g, Id(1), &mut r);
    assert_eq!(r.primary.index, 1);
    assert_eq!(r.secondary.index, 1);

    // The select-all chord covers the whole text.
    let all = Modifiers { shift: false, command: true };
    let input3 = input_with(vec![Event::KeyPress { key: Key::A, modifiers: all }]);
    process_selection_key_events(&input3, &g, Id(1), &mut r);
    assert_eq!(r.secondary.index, 0);
    assert_eq!(r.primary.index, 5);

    // End and Home without shift collapse.
    let input4 = input_with(vec![Event::KeyPress { key: Key::End, modifiers: plain }]);
    process_selection_key_events(&input4, &g, Id(1), &mut r);
    assert_eq!(r.primary.index, 5);
    assert_eq!(r.secondary.index, 5);

    // Arrows clamp at the text bounds.
    let input5 = input_with(vec![
        Event::KeyPress { key: Key::ArrowRight, modifiers: plain },
        Event::KeyPress { key: Key::ArrowRight, modifiers: plain },
    ]);
    let changed5 = process_selection_key_events(&input5, &g, Id(1), &mut r);
    assert!(!changed5);
    assert_eq!(r.primary.index, 5);

    // An event that moves the range reports a change even when a later
    // event moves it back.
    let mut mid = CCursorRange { primary: CCursor { index: 2 }, secondary: CCursor { index: 2 } };
    let input6 = input_with(vec![
        Event::KeyPress { key: Key::ArrowLeft, modifiers: plain },
        Event::KeyPress { key: Key::ArrowRight, modifiers: plain },
    ]);
    let changed6 = process_selection_key_events(&input6, &g, Id(1), &mut mid);
    assert!(changed6);
    assert_eq!(mid.primary.index, 2);
    assert_eq!(mid.secondary.index, 2);
}

#[test]
fn copy_and_escape_event_detection() {
    assert!(got_copy_event(&input_with(vec![Event::Copy])));
    assert!(got_copy_event(&input_with(vec![Event::Cut])));
    assert!(!got_copy_event(&input_with(vec![Event::KeyPress {
        key: Key::A,
        modifiers: Modifiers { shift: false, command: false },
    }])));
    let esc = input_with(vec![Event::KeyPress {
        key: Key::Escape,
        modifiers: Modifiers { shift: false, command: false },
    }]);
    assert!(key_pressed(&esc, Key::Escape));
    assert!(!key_pressed(&esc, Key::A));
}

#[test]
fn store_round_trip_and_default() {
    let mut st = StateStore::new();
    // An unknown viewport loads a fresh default.
    let s1 = LabelSelectionState::load(&mut st, 7);
    assert!(!s1.has_selection());
    let mut s1 = s1;
    s1.any_hovered = true;
    s1.store(&mut st, 7);

    let mut other = LabelSelectionState::default();
    other.is_dragging = true;
    other.store(&mut st, 8);

    // Each viewport gets its own state back.
    let back7 = LabelSelectionState::load(&mut st, 7);
    assert!(back7.any_hovered);
    assert!(!back7.is_dragging);
    let back8 = LabelSelectionState::load(&mut st, 8);
    assert!(back8.is_dragging);

    // Storing twice under one key replaces.
    let mut a = LabelSelectionState::default();
    a.any_hovered = true;
    a.store(&mut st, 9);
    let b = LabelSelectionState::default();
    b.store(&mut st, 9);
    let back9 = LabelSelectionState::load(&mut st, 9);
    assert!(!back9.any_hovered);
}

#[test]
fn paint_and_revert_highlight_vertices() {
    let g = galley("hello");
    let mut shape = build_text_shape(LayerId(1), &g);
    assert_eq!(shape.row_colors.len(), 1);
    assert_eq!(shape.row_colors[0], vec![GLYPH; 5]);

    let r = CCursorRange { primary: CCursor { index: 4 }, secondary: CCursor { index: 1 } };
    let marks = paint_text_selection(&mut shape, &g, &r);
    assert_eq!(marks.len(), 1);
    assert_eq!(marks[0].row, 0);
    assert_eq!(marks[0].vertex_indices, vec![5, 6, 7, 8]);
    for v in 5..9 {
        assert_eq!(shape.row_colors[0][v], HIGHLIGHT);
    }

    let mut scene = Scene::new();
    let idx = scene.push_shape(shape);
    clear_marks(&mut scene, &vec![(idx, marks)]);
    for v in 5..9 {
        assert_eq!(scene.shapes[0].row_colors[0][v], TRANSPARENT);
    }
    for v in 0..5 {
        assert_eq!(scene.shapes[0].row_colors[0][v], GLYPH);
    }
}

#[test]
fn empty_selection_paints_nothing() {
    let g = galley("hello");
    let mut shape = build_text_shape(LayerId(1), &g);
    let r = CCursorRange { primary: CCursor { index: 2 }, secondary: CCursor { index: 2 } };
    let marks = paint_text_selection(&mut shape, &g, &r);
    assert!(marks.is_empty());
    assert_eq!(shape.row_colors[0], vec![GLYPH; 5]);
}

#[test]
fn begin_pass_rotates_bbox_and_resets_flags() {
    let mut state = LabelSelectionState::default();
    let bbox = Rect::new(Pos::new(1, 2), Pos::new(3, 4));
    state.selection_bbox_this_frame = Some(bbox);
    state.any_hovered = true;
    state.has_reached_primary = true;
    state.has_reached_secondary = true;
    state.is_dragging = true;
    state.text_to_copy = chars("x");
    state.begin_pass();
    assert_eq!(state.selection_bbox_last_frame, Some(bbox));
    assert!(state.selection_bbox_this_frame.is_none());
    assert!(!state.any_hovered);
    assert!(!state.has_reached_primary);
    assert!(!state.has_reached_secondary);
    assert!(state.is_dragging);
    assert!(state.text_to_copy.is_empty());
}

#[test]
fn clear_selection_drops_only_selection() {
    let mut state = LabelSelectionState::default();
    state.selection = Some(CurrentSelection {
        layer_id: LayerId(1),
        primary: WidgetTextCursor { widget_id: Id(1), ccursor: CCursor { index: 0 }, pos: Pos::new(0, 0) },
        secondary: WidgetTextCursor { widget_id: Id(1), ccursor: CCursor { index: 0 }, pos: Pos::new(0, 0) },
    });
    state.is_dragging = true;
    assert!(state.has_selection());
    state.clear_selection();
    assert!(!state.has_selection());
    assert!(state.is_dragging);
}

#[test]
fn geometry_primitives() {
    let a = Rect::new(Pos::new(0, 0), Pos::new(10, 10));
    let b = Rect::new(Pos::new(5, 5), Pos::new(20, 20));
    let i = a.intersect(&b);
    assert_eq!(i, Rect::new(Pos::new(5, 5), Pos::new(10, 10)));
    let u = a.union(&b);
    assert_eq!(u, Rect::new(Pos::new(0, 0), Pos::new(20, 20)));
    assert!(a.x_overlaps(&b));
    let far = Rect::new(Pos::new(100, 0), Pos::new(110, 10));
    assert!(!a.x_overlaps(&far));
    assert!(u.contains_rect(&a));
    assert!(!a.contains_rect(&u));

    let t = Transform::from_translation(Pos::new(3, 4));
    let t2 = t.compose(&Transform::from_translation(Pos::new(10, 20)));
    assert_eq!(t2.apply(Pos::new(1, 1)), Pos::new(14, 25));
    let inv = t2.inverse();
    assert_eq!(inv.apply(t2.apply(Pos::new(8, 9))), Pos::new(8, 9));
}
