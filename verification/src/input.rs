//! A per-pass snapshot of user input: pointer state, modifier keys and the
//! discrete events gathered since the previous pass.

use vstd::prelude::*;

use crate::geom::Pos;

verus! {

/// Modifier keys held during an event or a pass.
#[derive(Clone, Copy, PartialEq, Eq, Structural, Debug)]
pub struct Modifiers {
    pub shift: bool,
    /// The platform's primary command modifier (ctrl, or cmd on mac).
    pub command: bool,
}

/// Keys the selection engine reacts to.
#[derive(Clone, Copy, PartialEq, Eq, Structural, Debug)]
pub enum Key {
    ArrowLeft,
    ArrowRight,
    Home,
    End,
    A,
    Escape,
}

/// A discrete input event.
#[derive(Clone, Copy, PartialEq, Eq, Structural, Debug)]
pub enum Event {
    /// A request to copy the selection to the clipboard.
    Copy,
    /// A request to cut; labels cannot be edited, so this copies too.
    Cut,
    /// A key went down.
    KeyPress { key: Key, modifiers: Modifiers },
}

/// Pointer state for one pass.
#[derive(Clone, Copy, PartialEq, Eq, Structural, Debug)]
pub struct PointerInput {
    /// Did a pointer button go down this pass?
    pub any_pressed: bool,
    /// Did a pointer button come up this pass?
    pub any_released: bool,
    /// Where the pointer is, in global coordinates, if it is over the UI.
    pub interact_pos: Option<Pos>,
}

/// Everything the selection engine reads from the input for one pass.
#[derive(Clone, PartialEq, Eq, Debug)]
pub struct PassInput {
    pub events: Vec<Event>,
    pub pointer: PointerInput,
    pub modifiers: Modifiers,
}

impl PassInput {
    /// Input positions handed in from the windowing layer are bounded.
    pub open spec fn wf(self) -> bool {
        self.pointer.interact_pos is Some ==> self.pointer.interact_pos->0.wf()
    }
}

/// Does this pass carry a copy or cut event?
pub open spec fn spec_got_copy_event(input: PassInput) -> bool {
    exists|i: int|
        0 <= i < input.events.len() && ((#[trigger] input.events[i]) is Copy
            || input.events[i] is Cut)
}

pub fn got_copy_event(input: &PassInput) -> (r: bool)
    ensures
        r == spec_got_copy_event(*input),
{
    let mut i: usize = 0;
    while i < input.events.len()
        invariant
            0 <= i <= input.events.len(),
            forall|j: int|
                0 <= j < i ==> !((#[trigger] input.events[j]) is Copy || input.events[j] is Cut),
        decreases input.events.len() - i,
    {
        let found = match input.events[i] {
            Event::Copy => true,
            Event::Cut => true,
            _ => false,
        };
        if found {
            return true;
        }
        i = i + 1;
    }
    false
}

/// Was the given key pressed this pass?
pub open spec fn spec_key_pressed(input: PassInput, key: Key) -> bool {
    exists|i: int|
        0 <= i < input.events.len() && ((#[trigger] input.events[i]) matches Event::KeyPress {
            key: k,
            ..
        } && k == key)
}

pub fn key_pressed(input: &PassInput, key: Key) -> (r: bool)
    ensures
        r == spec_key_pressed(*input, key),
{
    let mut i: usize = 0;
    while i < input.events.len()
        invariant
            0 <= i <= input.events.len(),
            forall|j: int|
                0 <= j < i ==> !((#[trigger] input.events[j]) matches Event::KeyPress {
                    key: k,
                    ..
                } && k == key),
        decreases input.events.len() - i,
    {
        let found = match input.events[i] {
            Event::KeyPress { key: k, .. } => k == key,
            _ => false,
        };
        if found {
            return true;
        }
        i = i + 1;
    }
    false
}

} // verus!
