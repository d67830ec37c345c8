//! The installation records and probes the graphical front end consumes.
//!
//! A second, simpler view of the same installations: a lighter record, a
//! branch derived from the directory name's suffix rather than by substring
//! precedence, and, on Windows, the selection of the active versioned
//! application directory.

pub mod linux;
pub mod shared;
pub mod windows;
