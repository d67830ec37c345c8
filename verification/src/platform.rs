//! The platform strategy selector.
//!
//! Root directories, the resource-subdirectory convention and error-code
//! tables differ per operating system. Rather than scattering conditional
//! compilation, every platform-dependent function takes the platform as a
//! value, chosen once at startup by the caller.

use vstd::prelude::*;

verus! {

/// The operating system an installation lives on.
#[derive(Clone, Copy, Debug, PartialEq, Eq, Structural)]
pub enum Platform {
    Linux,
    MacOs,
    Windows,
}

} // verus!
