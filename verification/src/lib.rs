//! Client-side driver logic for the AutoBox screen-mirroring dongle:
//! the wire-frame codec, the USB endpoint selection rules, and the
//! link-session state machine.

pub mod box_protocol;
pub mod errors;
pub mod link_session;
pub mod usb_setup;
