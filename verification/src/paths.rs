//! Per-platform installation directories and the probes shared between them.

pub mod branch;
pub mod linux;
pub mod mac;
pub mod shared;
pub mod windows;
