//! Raw message kinds, command sub-codes, and parameter masks of the host
//! windowing system's message protocol, as the dispatch engine reads them.

use vstd::prelude::*;

verus! {

// Raw message kinds.
pub const WM_SIZE: u32 = 0x0005;
pub const WM_ACTIVATEAPP: u32 = 0x001C;
pub const WM_COMMAND: u32 = 0x0111;
pub const WM_LBUTTONDOWN: u32 = 0x0201;
pub const WM_LBUTTONUP: u32 = 0x0202;
pub const WM_RBUTTONDOWN: u32 = 0x0204;
pub const WM_RBUTTONUP: u32 = 0x0205;
pub const WM_MBUTTONDOWN: u32 = 0x0207;
pub const WM_MBUTTONUP: u32 = 0x0208;
pub const WM_SIZING: u32 = 0x0214;
pub const WM_USER: u32 = 0x0400;

/// Synthetic message a control routes through its own hook right before its
/// native destruction; the classifier maps it to the `Removed` event.
pub const NWG_DESTROY_NOTICE: u32 = 0x0400;

// Button and modifier masks packed into the first parameter of mouse messages.
pub const BTN_MOUSE_LEFT: u32 = 0x0001;
pub const BTN_MOUSE_RIGHT: u32 = 0x0002;
pub const MOD_MOUSE_SHIFT: u32 = 0x0004;
pub const MOD_MOUSE_CTRL: u32 = 0x0008;
pub const BTN_MOUSE_MIDDLE: u32 = 0x0010;

// Command sub-codes of button-family controls.
pub const BN_CLICKED: u16 = 0;
pub const BN_SETFOCUS: u16 = 6;
pub const BN_KILLFOCUS: u16 = 7;

// Command sub-codes of text-input controls.
pub const EN_SETFOCUS: u16 = 0x0100;
pub const EN_KILLFOCUS: u16 = 0x0200;
pub const EN_CHANGE: u16 = 0x0300;
pub const EN_MAXTEXT: u16 = 0x0501;

// Command sub-codes of combo-box controls.
pub const CBN_SELCHANGE: u16 = 1;
pub const CBN_SETFOCUS: u16 = 3;
pub const CBN_KILLFOCUS: u16 = 4;
pub const CBN_DROPDOWN: u16 = 7;
pub const CBN_CLOSEUP: u16 = 8;

// Command sub-codes of label controls.
pub const STN_CLICKED: u16 = 0;

// Window style bits used when building a text-input control.
pub const ES_LEFT: u32 = 0x0000;
pub const ES_CENTER: u32 = 0x0001;
pub const ES_RIGHT: u32 = 0x0002;
pub const ES_PASSWORD: u32 = 0x0020;
pub const ES_AUTOHSCROLL: u32 = 0x0080;
pub const ES_NOHIDESEL: u32 = 0x0100;
pub const ES_READONLY: u32 = 0x0800;
pub const WS_BORDER: u32 = 0x0080_0000;

} // verus!
