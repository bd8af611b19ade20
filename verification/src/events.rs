//! The closed set of semantic application events and the control type tags
//! that scope overloaded command sub-codes.

use vstd::prelude::*;

verus! {

/// Semantic application event a raw message can resolve to.  A single raw
/// message yields zero, one, or two of these.
#[derive(Clone, Copy, Debug, PartialEq, Eq, Structural)]
pub enum Event {
    MouseUp,
    MouseDown,
    Focus,
    Click,
    ValueChanged,
    MaxValue,
    Removed,
    Resize,
    MenuOpen,
    MenuClose,
    SelectionChanged,
    Unknown,
}

/// Kind of a registered control.  The same command sub-code means different
/// things for different control kinds, so classification consults this tag.
#[derive(Clone, Copy, Debug, PartialEq, Eq, Structural)]
pub enum ControlType {
    Window,
    Button,
    CheckBox,
    GroupBox,
    RadioButton,
    TextInput,
    ComboBox,
    Label,
    Undefined,
}

} // verus!
