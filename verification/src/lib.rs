//! Mushak: HID++ mouse control for the MX Master 2S, as a verified library.
//!
//! The library holds the protocol encoding and decoding, the per-feature
//! decisions, gesture classification, profile resolution, the shared state's
//! transitions and the text the program shows. Everything that touches the
//! operating system (the HID handle, hooks, input injection, files, the tray)
//! lives in the program around it.

pub mod channel;
pub mod config;
pub mod conflicts;
pub mod gestures;
pub mod gui;
pub mod hidpp;
pub mod hook;
pub mod injector;
pub mod logging;
pub mod profiles;
pub mod resident;
pub mod startup;
pub mod state;
pub mod statusfile;
pub mod text;
pub mod uiaccess;
