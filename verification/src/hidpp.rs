//! HID++ 2.0 protocol support.

pub mod device;
pub mod features;
pub mod protocol;
pub mod transport;
