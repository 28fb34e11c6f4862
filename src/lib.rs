//! A fleet of virtual byte-storage devices: each device is a growable,
//! randomly addressable in-memory file, and a registry names the devices
//! and tracks the handles under which a host exposes them.

pub mod error;
pub mod device;
pub mod naming;
pub mod registry;
pub mod config;
pub mod locked;
