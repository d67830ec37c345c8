//! The front end's installation probe on Linux.

use vstd::prelude::*;
use vstd::string::StringExecFns;
use crate::fs_model::FsTree;
use crate::logic::shared::{filename_branch, DiscordBranch, DiscordInstall};
use crate::paths::linux::{
    flatpak_dir_name,
    flatpak_install_dir_name,
    flatpak_name_ok,
    is_resolvable_flatpak_name,
};
use crate::text::{
    contains_seq,
    get_last_path_component,
    join_path,
    join_path_seq,
    last_component,
    str_contains,
    str_eq,
};

verus! {

/// Whether a directory name is one of the known installation names the scan
/// accepts, the Flatpak identifiers included.
pub fn is_discord_dir_name(name: &str) -> (r: bool)
    ensures
        r == crate::paths::linux::linux_location_names().contains(name@),
{
    let names = crate::paths::linux::get_discord_location_names();
    let ghost spec_names = crate::paths::linux::linux_location_names();
    let mut i: usize = 0;
    while i < names.len()
        invariant
            spec_names == crate::paths::linux::linux_location_names(),
            names@.len() == spec_names.len(),
            forall|k: int| 0 <= k < names@.len() ==> names@[k]@ == spec_names[k],
            i <= names@.len(),
            forall|k: int| 0 <= k < i ==> spec_names[k] != name@,
        decreases names@.len() - i,
    {
        if str_eq(names[i], name) {
            proof {
                assert(spec_names[i as int] == name@);
                assert(spec_names.contains(name@));
            }
            return true;
        }
        i = i + 1;
    }
    false
}

/// A path still needs resolving through the Flatpak deployment directory
/// when it runs through a `flatpak` directory but not yet through the
/// deployment path, and its base name is a resolvable reverse-domain
/// identifier.
pub open spec fn needs_flatpak_resolution(p: Seq<char>) -> bool {
    contains_seq(p, "/flatpak/"@) && !contains_seq(p, "/current/active/files"@) && flatpak_name_ok(
        last_component(p),
    )
}

/// Where the probe looks for the installation found at `p`.
pub open spec fn gui_resolved_path(p: Seq<char>) -> Seq<char> {
    if needs_flatpak_resolution(p) {
        join_path_seq(
            join_path_seq(p, "current/active/files"@),
            flatpak_dir_name(last_component(p)),
        )
    } else {
        p
    }
}

/// Classifies the installation at `path` for the front end: resolvable
/// Flatpak identifiers are resolved through the deployment directory, the
/// candidate is accepted only when its `resources` directory exists, and the
/// patch flag comes from the backup archive's existence.
pub fn parse_discord(tree: &FsTree, path: String) -> (r: Option<DiscordInstall>)
    requires
        tree.wf(),
    ensures
        ({
            let resolved = gui_resolved_path(path@);
            let resources = join_path_seq(resolved, "resources"@);
            match r {
                Some(inst) => {
                    &&& tree.dirs().contains(resources)
                    &&& inst.path@ == path@
                    &&& inst.app_path is None
                    &&& inst.branch == filename_branch(last_component(path@))
                    &&& inst.is_patched == tree.files().dom().contains(
                        join_path_seq(resources, "_app.asar"@),
                    )
                    &&& inst.is_flatpak == contains_seq(path@, "/flatpak/"@)
                },
                None => !tree.dirs().contains(resources),
            }
        }),
{
    let mut base = String::new();
    base.append(get_last_path_component(path.as_str()));

    let is_flatpak = str_contains(path.as_str(), "/flatpak/");

    let mut resolved = String::new();
    resolved.append(path.as_str());
    if is_flatpak && !str_contains(path.as_str(), "/current/active/files")
        && is_resolvable_flatpak_name(base.as_str()) {
        let discord_name = flatpak_install_dir_name(base.as_str());
        let deploy = join_path(resolved.as_str(), "current/active/files");
        resolved = join_path(deploy.as_str(), discord_name.as_str());
    }

    let resources = join_path(resolved.as_str(), "resources");
    if !tree.has_dir(resources.as_str()) {
        return None;
    }

    let backup = join_path(resources.as_str(), "_app.asar");
    let is_patched = tree.has_file(backup.as_str());
    let branch = DiscordBranch::from_filename(base.as_str());

    Some(DiscordInstall { path, app_path: None, branch, is_patched, is_flatpak })
}

} // verus!
