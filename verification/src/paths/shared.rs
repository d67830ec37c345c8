//! Probes and path conventions shared by every platform.
//!
//! The probes never fail: any state that cannot be read counts as "not
//! patched" / "no marker", so a scan always completes.

use vstd::prelude::*;
use crate::fs_model::FsTree;
use crate::paths::branch::{branch_of, DiscordBranch, DiscordLocation};
use crate::platform::Platform;
use crate::text::{
    contains_seq,
    get_last_path_component,
    join_path,
    join_path_seq,
    last_component,
    str_contains,
};

verus! {

/// The resource subdirectory of an installation root: `Contents/Resources`
/// inside a macOS bundle, `resources` elsewhere.
pub open spec fn resource_subpath(platform: Platform) -> Seq<char> {
    if platform == Platform::MacOs {
        "Contents/Resources"@
    } else {
        "resources"@
    }
}

/// Returns the resource subdirectory for the given platform.
pub fn get_resource_subpath(platform: Platform) -> (r: &'static str)
    ensures
        r@ == resource_subpath(platform),
{
    if platform == Platform::MacOs {
        "Contents/Resources"
    } else {
        "resources"
    }
}

/// The directory that holds the archive slot: the installation root itself
/// for a system-Electron installation on Linux, the platform's resource
/// subdirectory below the root otherwise.
pub open spec fn resource_dir_spec(path: Seq<char>, system_electron: bool, platform: Platform) -> Seq<
    char,
> {
    if platform == Platform::Linux && system_electron {
        path
    } else {
        join_path_seq(path, resource_subpath(platform))
    }
}

/// Returns the path of the directory that holds the archive slot.
pub fn resource_dir_path(discord_to_patch: &DiscordLocation, system_electron: bool, platform: Platform) -> (r:
    String)
    ensures
        r@ == resource_dir_spec(discord_to_patch.path@, system_electron, platform),
{
    if platform == Platform::Linux && system_electron {
        let mut p = String::new();
        p.append(discord_to_patch.path.as_str());
        p
    } else {
        join_path(discord_to_patch.path.as_str(), get_resource_subpath(platform))
    }
}

/// The archive name the secondary (OpenAsar) patch operates on: once the
/// primary patch is installed, the original archive lives under the backup
/// name `_app.asar`; otherwise it is `app.asar`.
pub open spec fn appropriate_asar(patched: bool) -> Seq<char> {
    if patched {
        "_app.asar"@
    } else {
        "app.asar"@
    }
}

/// Selects the archive file name that the secondary (OpenAsar) patch
/// operates on.
pub fn use_appropriate_asar(patched: bool) -> (name: &'static str)
    ensures
        name@ == appropriate_asar(patched),
{
    if patched {
        "_app.asar"
    } else {
        "app.asar"
    }
}

/// Whether the files of `tree` show the primary patch installed at `path`:
/// the backup archive exists under the resource directory, or, for a
/// system-Electron installation, the unpacked backup exists at the root.
pub open spec fn patched_probe(tree: FsTree, path: Seq<char>, system_electron: bool, platform: Platform) -> bool {
    if system_electron {
        tree.files().dom().contains(join_path_seq(path, "_app.asar.unpacked"@))
    } else {
        tree.files().dom().contains(
            join_path_seq(join_path_seq(path, resource_subpath(platform)), "_app.asar"@),
        )
    }
}

/// Whether the installation at `path` has been patched by the primary loader.
pub fn is_location_patched(tree: &FsTree, path: &str, system_electron: &bool, platform: Platform) -> (r:
    bool)
    ensures
        r == patched_probe(*tree, path@, *system_electron, platform),
{
    if *system_electron {
        let p = join_path(path, "_app.asar.unpacked");
        tree.has_file(p.as_str())
    } else {
        let dir = join_path(path, get_resource_subpath(platform));
        let p = join_path(dir.as_str(), "_app.asar");
        tree.has_file(p.as_str())
    }
}

/// The marker bytes the OpenAsar probe searches for: the ASCII characters of
/// `OpenAsar`.
pub open spec fn openasar_marker() -> Seq<u8> {
    seq![79u8, 112u8, 101u8, 110u8, 65u8, 115u8, 97u8, 114u8]
}

/// The marker bytes spell the ASCII text `OpenAsar`.
pub proof fn lemma_marker_spells_openasar()
    ensures
        openasar_marker() == crate::text::ascii_bytes("OpenAsar"@),
{
    reveal_strlit("OpenAsar");
    assert(openasar_marker() =~= crate::text::ascii_bytes("OpenAsar"@));
}

/// The byte offset at which the probe window starts.
pub open spec fn probe_offset() -> int {
    4858
}

/// The size of the probe window.
pub open spec fn probe_window_size() -> int {
    1024
}

/// The window of `data` that the probe scans: up to 1024 bytes starting at
/// offset 4858; empty when the data ends at or before the offset.
pub open spec fn probe_window(data: Seq<u8>) -> Seq<u8> {
    if data.len() <= probe_offset() {
        Seq::<u8>::empty()
    } else if data.len() >= probe_offset() + probe_window_size() {
        data.subrange(probe_offset(), probe_offset() + probe_window_size())
    } else {
        data.subrange(probe_offset(), data.len() as int)
    }
}

/// The marker occurs in `w` starting at index `i`.
pub open spec fn marker_at(w: Seq<u8>, i: int) -> bool {
    0 <= i && i + 8 <= w.len() && w.subrange(i, i + 8) == openasar_marker()
}

/// The marker occurs somewhere in `w`.
pub open spec fn has_marker(w: Seq<u8>) -> bool {
    exists|i: int| marker_at(w, i)
}

/// Does `data[i..i+8]` spell the marker?
fn marker_matches(data: &Vec<u8>, i: usize) -> (r: bool)
    requires
        i + 8 <= data@.len(),
    ensures
        r == (data@.subrange(i as int, i + 8) == openasar_marker()),
{
    let n = data.len();
    let r = data[i] == 79 && data[i + 1] == 112 && data[i + 2] == 101 && data[i + 3] == 110
        && data[i + 4] == 65 && data[i + 5] == 115 && data[i + 6] == 97 && data[i + 7] == 114;
    proof {
        if r {
            assert(data@.subrange(i as int, i + 8) =~= openasar_marker());
        } else {
            if data@.subrange(i as int, i + 8) == openasar_marker() {
                assert(forall|k: int|
                    0 <= k < 8 ==> data@.subrange(i as int, i + 8)[k] == openasar_marker()[k]);
            }
        }
    }
    r
}

/// Scans the probe window of `data` for the marker.
fn window_has_marker(data: &Vec<u8>) -> (r: bool)
    ensures
        r == has_marker(probe_window(data@)),
{
    let len = data.len();
    let ghost w = probe_window(data@);
    if len < 4858 + 8 {
        proof {
            assert(w.len() < 8);
            assert(forall|i: int| !marker_at(w, i));
        }
        return false;
    }
    let end: usize = if len >= 4858 + 1024 {
        4858 + 1024
    } else {
        len
    };
    proof {
        assert(w =~= data@.subrange(probe_offset(), end as int));
    }
    let mut i: usize = 4858;
    while i + 8 <= end
        invariant
            4858 <= i <= end,
            end <= data@.len(),
            end <= 4858 + 1024,
            w == probe_window(data@),
            w == data@.subrange(probe_offset(), end as int),
            forall|k: int| 0 <= k < i - 4858 ==> !marker_at(w, k),
        decreases end - i,
    {
        if marker_matches(data, i) {
            proof {
                assert(marker_at(w, i - 4858)) by {
                    assert(w.subrange(i - 4858, i - 4858 + 8) =~= data@.subrange(
                        i as int,
                        i + 8,
                    ));
                }
            }
            return true;
        }
        proof {
            assert(!marker_at(w, i - 4858)) by {
                assert(w.subrange(i - 4858, i - 4858 + 8) =~= data@.subrange(i as int, i + 8));
            }
        }
        i = i + 1;
    }
    proof {
        assert forall|k: int| !marker_at(w, k) by {
            if 0 <= k && k + 8 <= w.len() {
                assert(k < i - 4858);
            }
        }
    }
    false
}

/// Whether the files of `tree` show the secondary (OpenAsar) patch installed
/// at `path`: the archive currently active for the installation exists and
/// its probe window holds the marker.
pub open spec fn openasar_probe(tree: FsTree, path: Seq<char>, patched: bool, platform: Platform) -> bool {
    let active = join_path_seq(
        join_path_seq(path, resource_subpath(platform)),
        appropriate_asar(patched),
    );
    tree.files().dom().contains(active) && has_marker(probe_window(tree.files()[active]))
}

/// Whether the installation at `path` has been patched by OpenAsar. A missing
/// archive, one that ends before the probe offset, or one without the marker
/// in the window all yield `false`, never an error.
pub fn is_location_openasar(tree: &FsTree, path: &str, patched: bool, platform: Platform) -> (r:
    bool)
    requires
        tree.wf(),
    ensures
        r == openasar_probe(*tree, path@, patched, platform),
{
    let dir = join_path(path, get_resource_subpath(platform));
    let active = join_path(dir.as_str(), use_appropriate_asar(patched));
    match tree.read_file(active.as_str()) {
        Some(data) => window_has_marker(data),
        None => false,
    }
}

/// Whether the installation at `path` is a Flatpak installation: its path
/// runs through a `flatpak` directory. Only Linux has Flatpak.
pub open spec fn flatpak_probe(path: Seq<char>, platform: Platform) -> bool {
    platform == Platform::Linux && contains_seq(path, "/flatpak/"@)
}

/// Whether the installation at `path` is a Flatpak installation.
pub fn is_location_flatpak(path: &str, platform: Platform) -> (r: bool)
    ensures
        r == flatpak_probe(path@, platform),
{
    platform == Platform::Linux && str_contains(path, "/flatpak/")
}

/// Whether the installation at `path` shares a system-wide Electron runtime:
/// on Linux, exactly when it has no nested resource directory. Only Linux
/// packages installations this way.
pub open spec fn system_electron_probe(tree: FsTree, path: Seq<char>, platform: Platform) -> bool {
    platform == Platform::Linux && !tree.dirs().contains(join_path_seq(path, "resources"@))
}

/// Whether the installation at `path` shares a system-wide Electron runtime.
pub fn is_location_system_electron(tree: &FsTree, path: &str, platform: Platform) -> (r: bool)
    ensures
        r == system_electron_probe(*tree, path@, platform),
{
    if platform == Platform::Linux {
        let p = join_path(path, "resources");
        !tree.has_dir(p.as_str())
    } else {
        false
    }
}

/// What `get_custom_discord_location` accepts: the path must either be a
/// system-Electron installation or have the platform's resource directory.
pub open spec fn custom_location_valid(tree: FsTree, path: Seq<char>, platform: Platform) -> bool {
    system_electron_probe(tree, path, platform) || tree.dirs().contains(
        join_path_seq(path, resource_subpath(platform)),
    )
}

/// Classifies a user-supplied installation path, bypassing the scanner. The
/// path is taken as given, without a trailing separator, and is accepted
/// only if it satisfies the same resource-directory rule as scanned
/// installations; the probes then fill the patch flags exactly as a scan
/// would.
pub fn get_custom_discord_location(tree: &FsTree, full_path: String, platform: Platform) -> (r:
    Option<DiscordLocation>)
    requires
        tree.wf(),
    ensures
        match r {
            Some(loc) => {
                &&& custom_location_valid(*tree, full_path@, platform)
                &&& loc.name@ == last_component(full_path@)
                &&& loc.path@ == full_path@
                &&& loc.branch == branch_of(last_component(full_path@))
                &&& loc.patched == patched_probe(
                    *tree,
                    full_path@,
                    system_electron_probe(*tree, full_path@, platform),
                    platform,
                )
                &&& loc.openasar == openasar_probe(*tree, full_path@, loc.patched, platform)
                &&& loc.is_flatpak == flatpak_probe(full_path@, platform)
                &&& loc.is_system_electron == system_electron_probe(*tree, full_path@, platform)
            },
            None => !custom_location_valid(*tree, full_path@, platform),
        },
{
    let mut name = String::new();
    name.append(get_last_path_component(full_path.as_str()));

    let is_flatpak = is_location_flatpak(full_path.as_str(), platform);
    let system_electron = is_location_system_electron(tree, full_path.as_str(), platform);

    if !system_electron {
        let resources = join_path(full_path.as_str(), get_resource_subpath(platform));
        if !tree.has_dir(resources.as_str()) {
            return None;
        }
    }

    let patched = is_location_patched(tree, full_path.as_str(), &system_electron, platform);
    let openasar = is_location_openasar(tree, full_path.as_str(), patched, platform);
    let branch = DiscordBranch::from_path(name.as_str());

    Some(
        DiscordLocation {
            name,
            path: full_path,
            branch,
            patched,
            openasar,
            is_flatpak,
            is_system_electron: system_electron,
        },
    )
}

} // verus!
