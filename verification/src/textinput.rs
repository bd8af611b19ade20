//! The text-input control template: the plain window description it
//! creates, the events it supports, and the pure parts of its property
//! handling.  The host glue performs the actual window creation and the
//! property message sends.

use vstd::prelude::*;

use crate::constants::{
    ES_AUTOHSCROLL, ES_CENTER, ES_LEFT, ES_NOHIDESEL, ES_PASSWORD, ES_READONLY, ES_RIGHT,
    WS_BORDER,
};
use crate::events::{ControlType, Event};

verus! {

/// Horizontal text alignment of a text-input control.
#[derive(Clone, Copy, Debug, PartialEq, Eq, Structural)]
pub enum HTextAlign {
    Left,
    Center,
    Right,
}

/// Configuration properties to create a simple text input.
///
/// * `text`: the initial text
/// * `size`: the control size (width, height) in pixels
/// * `position`: the control position (x, y) in the parent control
/// * `parent`: the parent control's identifier
pub struct TextInput {
    pub text: String,
    pub size: (u32, u32),
    pub position: (i32, i32),
    pub parent: u64,
    pub placeholder: Option<String>,
    pub text_align: HTextAlign,
    pub password: bool,
    pub readonly: bool,
}

/// Plain description of the native window a control template creates; the
/// host glue hands it to the windowing system's creation call.
pub struct WindowParams {
    pub text: String,
    pub size: (u32, u32),
    pub position: (i32, i32),
    pub visible: bool,
    pub resizable: bool,
    pub extra_style: u32,
    pub class: String,
    pub parent: Option<u64>,
}

/// The style word a text input's flags resolve to.
pub open spec fn text_input_style(align: HTextAlign, password: bool, readonly: bool) -> u32 {
    let h_align: u32 = match align {
        HTextAlign::Left => ES_LEFT,
        HTextAlign::Right => ES_RIGHT,
        HTextAlign::Center => ES_CENTER,
    };
    let extra0: u32 = 0;
    let extra1: u32 = if password {
        extra0 | ES_PASSWORD
    } else {
        extra0
    };
    let extra2: u32 = if readonly {
        extra1 | ES_READONLY
    } else {
        extra1
    };
    extra2 | h_align | WS_BORDER | ES_AUTOHSCROLL | ES_NOHIDESEL
}

impl TextInput {
    /// The window description this template creates: a bordered,
    /// auto-scrolling edit control with the alignment, password and
    /// read-only style bits its flags call for.
    pub fn build_window_params(&self) -> (r: WindowParams)
        ensures
            r.text@ == self.text@,
            r.size == self.size,
            r.position == self.position,
            r.visible,
            !r.resizable,
            r.extra_style == text_input_style(self.text_align, self.password, self.readonly),
            r.class@ == "EDIT"@,
            r.parent == Some(self.parent),
    {
        let h_align: u32 = match self.text_align {
            HTextAlign::Left => ES_LEFT,
            HTextAlign::Right => ES_RIGHT,
            HTextAlign::Center => ES_CENTER,
        };
        let mut extra: u32 = 0;
        if self.password {
            extra = extra | ES_PASSWORD;
        }
        if self.readonly {
            extra = extra | ES_READONLY;
        }
        WindowParams {
            text: self.text.clone(),
            size: self.size,
            position: self.position,
            visible: true,
            resizable: false,
            extra_style: extra | h_align | WS_BORDER | ES_AUTOHSCROLL | ES_NOHIDESEL,
            class: "EDIT".to_owned(),
            parent: Some(self.parent),
        }
    }

    /// The semantic events a text-input control supports.
    pub fn supported_events(&self) -> (r: Vec<Event>)
        ensures
            r@ == seq![
                Event::MouseUp,
                Event::MouseDown,
                Event::Focus,
                Event::ValueChanged,
                Event::MaxValue,
                Event::Removed,
                Event::Resize,
            ],
    {
        vec![
            Event::MouseUp,
            Event::MouseDown,
            Event::Focus,
            Event::ValueChanged,
            Event::MaxValue,
            Event::Removed,
            Event::Resize,
        ]
    }

    /// The control-type tag that scopes this control's command sub-codes.
    pub fn control_type(&self) -> (r: ControlType)
        ensures
            r is TextInput,
    {
        ControlType::TextInput
    }
}

/// Whether a native style word carries the read-only bit.
pub fn readonly_from_style(style: u64) -> (r: bool)
    ensures
        r == (style & (ES_READONLY as u64) == (ES_READONLY as u64)),
{
    style & (ES_READONLY as u64) == (ES_READONLY as u64)
}

} // verus!
