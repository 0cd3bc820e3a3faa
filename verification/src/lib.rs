//! A virtual USB HID mouse served over the USB/IP protocol.
//!
//! The library holds the protocol logic: the USB descriptors of the device,
//! the HID report format and the jiggle movements, the wire formats of the
//! USB/IP messages, and the decision procedures of the handshake and of the
//! URB session, written as state machines that a driver loop feeds with the
//! outcome of each read and write.
pub mod hid;
pub mod usbip;
pub mod wire;
