//! Discovery, probing and patching of Discord installations.
//!
//! The library models the filesystem state that the installer inspects and
//! rewrites as an explicit value, so that every decision the installer takes —
//! which directories count as installations, whether an installation is
//! already patched, which renames a patch performs and in what order — is a
//! verified function over that model. The unverified binary around the
//! library performs the actual directory walks, downloads and renames that
//! the library plans.

pub mod archive;
pub mod fs_model;
pub mod handler;
pub mod logic;
pub mod patch;
pub mod paths;
pub mod platform;
pub mod text;
pub mod update;
