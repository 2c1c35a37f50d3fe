//! Cross-widget text selection for immediate-mode label widgets.
//!
//! A single [`selection::LabelSelectionState`] per UI root tracks a text
//! selection that may span several independently laid-out text widgets
//! within one rendering pass. Each pass brackets the widget visits with
//! [`selection::LabelSelectionState::begin_pass`] and
//! [`selection::LabelSelectionState::end_pass`]; each text widget calls
//! [`selection::LabelSelectionState::label_text_selection`] during its own
//! paint step. If both selection endpoints are not observed within the same
//! pass, the selection is torn down and any painted highlight is reverted.

pub mod geom;
pub mod ids;
pub mod laws;
pub mod input;
pub mod scene;
pub mod selection;
pub mod store;
pub mod text;
