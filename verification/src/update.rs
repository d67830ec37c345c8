//! The decision side of the updater. The network fetches and version lookups
//! are the caller's collaborators; the library decides what their answers
//! mean.

use vstd::prelude::*;
use crate::text::str_eq;

verus! {

/// Whether fresh distribution files must be downloaded: a latest version is
/// known and it differs from the local one (or no local version exists).
pub fn should_download(latest: &Option<String>, local: &Option<String>) -> (r: bool)
    ensures
        r == match *latest {
            Some(l) => match *local {
                Some(o) => l@ != o@,
                None => true,
            },
            None => false,
        },
{
    match latest {
        None => false,
        Some(l) => match local {
            None => true,
            Some(o) => !str_eq(l.as_str(), o.as_str()),
        },
    }
}

} // verus!
