//! Firmware lifecycle for a family of IoT devices: the configuration of
//! the tool, the per-device build flags, and the commands that are handed
//! to the toolchain.
//!
//! Nothing here touches the file system or starts a process. The functions
//! take what was read and return what is to be done.

pub mod credentials;
pub mod error;
pub mod tyr_arduino;
pub mod tyr_config;
pub mod tyr_mfr;
pub mod tyr_utils;
pub mod yaml;
