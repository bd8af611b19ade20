//! Event translation and dispatch for native-control message streams.
//!
//! A host windowing system delivers raw messages (an integer kind and two
//! machine-word parameters) to subclassed controls.  This library classifies
//! such messages into semantic application events, disambiguates overloaded
//! command notifications by the originating control's type, extracts the
//! typed payload each event carries, and computes the ordered list of
//! callback invocations for the control's registration table.  The host
//! glue that performs system calls and runs the registered closures sits
//! outside the library and hands it plain values.

pub mod constants;
pub mod dispatch;
pub mod events;
pub mod payload;
pub mod registry;
pub mod text;
pub mod textinput;
