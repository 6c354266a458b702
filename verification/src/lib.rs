//! Verified core of the Krypt OS daemons and tools.

pub mod text;
pub mod luks;
pub mod stick;
pub mod interop;
pub mod config;
pub mod policy;
pub mod names;
pub mod vm;
pub mod usb;
pub mod ipc;
pub mod daemon;
pub mod xl;
pub mod kill_switch;
pub mod wayland;
pub mod frame;
pub mod xen;
pub mod input;
pub mod laws;
