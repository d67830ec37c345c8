//! The installation record and branch classification shared by the
//! graphical front end's scanners.

use vstd::prelude::*;
use crate::text::{ends_with_seq, lower_seq, str_ends_with, to_ascii_lower};

verus! {

/// The release branch, ordered as the front end lists installations.
#[derive(Clone, Copy, Debug, PartialEq, Eq, Structural, PartialOrd, Ord, Hash)]
pub enum DiscordBranch {
    Stable,
    Canary,
    PTB,
}

/// The branch a directory name ends in, after ASCII case folding: `ptb`
/// wins over `canary`; anything else is stable.
pub open spec fn filename_branch(s: Seq<char>) -> DiscordBranch {
    if ends_with_seq(lower_seq(s), "ptb"@) {
        DiscordBranch::PTB
    } else if ends_with_seq(lower_seq(s), "canary"@) {
        DiscordBranch::Canary
    } else {
        DiscordBranch::Stable
    }
}

impl DiscordBranch {
    /// Returns the branch the given directory name ends in.
    pub fn from_filename(s: &str) -> (r: Self)
        ensures
            r == filename_branch(s@),
    {
        let lower = to_ascii_lower(s);
        if str_ends_with(lower.as_str(), "ptb") {
            DiscordBranch::PTB
        } else if str_ends_with(lower.as_str(), "canary") {
            DiscordBranch::Canary
        } else {
            DiscordBranch::Stable
        }
    }
}

/// One installation as the front end shows it.
#[derive(Clone, Debug)]
pub struct DiscordInstall {
    /// The path the installation was found at.
    pub path: String,
    /// On Windows, the active versioned application directory below `path`.
    pub app_path: Option<String>,
    /// The release branch.
    pub branch: DiscordBranch,
    /// Whether the primary patch is installed.
    pub is_patched: bool,
    /// Whether this is a Flatpak installation.
    pub is_flatpak: bool,
}

} // verus!
