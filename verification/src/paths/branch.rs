//! The release branch of an installation, derived from its directory name.

use vstd::prelude::*;
use crate::text::{contains_seq, str_contains};

verus! {

/// The branch of a Discord installation.
#[derive(Clone, Copy, Debug, PartialEq, Eq, Structural)]
pub enum DiscordBranch {
    Stable,
    PTB,
    Canary,
    Development,
}

/// The branch named by a path: substring matching, case-sensitive, with
/// precedence Canary over Development over PTB; anything else is Stable.
pub open spec fn branch_of(path: Seq<char>) -> DiscordBranch {
    if contains_seq(path, "Canary"@) {
        DiscordBranch::Canary
    } else if contains_seq(path, "Development"@) {
        DiscordBranch::Development
    } else if contains_seq(path, "PTB"@) {
        DiscordBranch::PTB
    } else {
        DiscordBranch::Stable
    }
}

impl DiscordBranch {
    /// Returns the branch the given path names.
    pub fn from_path(path: &str) -> (r: Self)
        ensures
            r == branch_of(path@),
    {
        if str_contains(path, "Canary") {
            DiscordBranch::Canary
        } else if str_contains(path, "Development") {
            DiscordBranch::Development
        } else if str_contains(path, "PTB") {
            DiscordBranch::PTB
        } else {
            DiscordBranch::Stable
        }
    }

    /// The branch's display name.
    pub fn label(&self) -> (s: &'static str)
        ensures
            s@ == match *self {
                DiscordBranch::Canary => "Canary"@,
                DiscordBranch::Development => "Development"@,
                DiscordBranch::PTB => "PTB"@,
                DiscordBranch::Stable => "Stable"@,
            },
    {
        match self {
            DiscordBranch::Canary => "Canary",
            DiscordBranch::Development => "Development",
            DiscordBranch::PTB => "PTB",
            DiscordBranch::Stable => "Stable",
        }
    }
}

/// One located installation. Re-derived on every scan, never persisted; the
/// probes settle `patched` and `openasar` from the filesystem state alone.
#[derive(Clone, Debug)]
pub struct DiscordLocation {
    /// The name of the Discord installation, e.g. `Discord.app`.
    pub name: String,
    /// The full path to the Discord installation.
    pub path: String,
    /// The branch of the Discord installation.
    pub branch: DiscordBranch,
    /// Whether the primary loader patch is installed.
    pub patched: bool,
    /// Whether the secondary OpenAsar patch is installed.
    pub openasar: bool,
    /// Whether this is a Flatpak installation.
    pub is_flatpak: bool,
    /// Whether the installation shares a system-wide Electron runtime and
    /// resolves resources at its root instead of a nested resource directory.
    pub is_system_electron: bool,
}

} // verus!
