//! Opaque identities handed in by the surrounding toolkit: widget ids and
//! rendering-layer ids.

use vstd::prelude::*;

verus! {

/// Stable identity of a widget instance, unique within a frame.
#[derive(Clone, Copy, PartialEq, Eq, Structural, Debug)]
pub struct Id(pub u64);

/// Identity of a rendering layer (for example one window). A selection is
/// confined to a single layer.
#[derive(Clone, Copy, PartialEq, Eq, Structural, Debug)]
pub struct LayerId(pub u64);

} // verus!
