//! Input method client for X11: the decisions an IME client takes on the
//! X Input Method protocol, independent of the connection that carries them.

pub mod client;
pub mod format;
pub mod laws;
pub mod style;
pub mod text;

pub use client::{CreateIcRequest, EventAction, Ic, IcValues, ImeClient};
pub use style::InputStyle;
pub use text::{PreeditInfo, PreeditInfoView, XimEncoding, xim_encoding_to_utf8};
