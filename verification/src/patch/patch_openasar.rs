//! The secondary patch transaction: swapping the active archive for the
//! OpenAsar alternative.
//!
//! Independent of the primary patch, but archive-name-aware: which file is
//! the active archive depends on whether the primary patch is installed. The
//! caller downloads the replacement bytes (a network fetch the library does
//! not perform); the transaction stages them at the temporary name, backs up
//! the active archive, and moves the staged file into the active slot.

use vstd::prelude::*;
use crate::fs_model::FsTree;
use crate::handler::{error_with_code, ErrorCode, InstallerError, InstallerResult};
use crate::patch::patch_mod::rename_map;
use crate::paths::branch::DiscordLocation;
use crate::paths::shared::{
    appropriate_asar,
    resource_dir_path,
    resource_dir_spec,
    use_appropriate_asar,
};
use crate::platform::Platform;
use crate::text::{join_path, join_path_seq};

verus! {

/// The staging name a downloaded replacement is written to.
pub open spec fn tmp_asar_path(rdir: Seq<char>) -> Seq<char> {
    join_path_seq(rdir, "app.asar.tmp"@)
}

/// The secondary patch's backup slot.
pub open spec fn openasar_backup_path(rdir: Seq<char>) -> Seq<char> {
    join_path_seq(rdir, "app.asar.backup"@)
}

/// The legacy backup name older installs used.
pub open spec fn openasar_original_path(rdir: Seq<char>) -> Seq<char> {
    join_path_seq(rdir, "app.asar.original"@)
}

/// The archive slot the secondary patch swaps: the active archive name under
/// the resource directory, which depends on whether the primary patch is
/// installed.
pub open spec fn openasar_active_path(loc: DiscordLocation, platform: Platform) -> Seq<char> {
    join_path_seq(
        resource_dir_spec(loc.path@, loc.is_system_electron, platform),
        appropriate_asar(loc.patched),
    )
}

/// The installer for the secondary (OpenAsar) patch.
#[derive(Default)]
pub struct OpenAsarInstaller;

impl OpenAsarInstaller {
    /// A fresh installer.
    pub fn new() -> Self {
        OpenAsarInstaller
    }

    /// Installs the secondary patch on the model filesystem `tree`, with
    /// `downloaded_asar` the replacement bytes the caller fetched.
    ///
    /// Fails with `ErrAlreadyPatched`, changing nothing, when OpenAsar is
    /// already installed; with `ErrWindowsMovedDirectory`, changing nothing,
    /// when the Windows relocation guard `scuffed` holds. Otherwise it writes
    /// the replacement to the staging name, renames the active archive to the
    /// backup name, and moves the staged file into the active slot — in that
    /// order, stopping with `ErrUnknown` when the active archive is missing
    /// and leaving the staged file behind.
    pub fn patch(
        &self,
        tree: &mut FsTree,
        discord_to_patch: &DiscordLocation,
        downloaded_asar: Vec<u8>,
        scuffed: bool,
        platform: Platform,
    ) -> (r: InstallerResult<()>)
        requires
            old(tree).wf(),
        ensures
            final(tree).wf(),
            final(tree).dir_list() == old(tree).dir_list(),
            ({
                let files = old(tree).files();
                let rdir = resource_dir_spec(
                    discord_to_patch.path@,
                    discord_to_patch.is_system_electron,
                    platform,
                );
                let active = openasar_active_path(*discord_to_patch, platform);
                let tmp = tmp_asar_path(rdir);
                if discord_to_patch.openasar {
                    r matches Err(e) && e.code == ErrorCode::ErrAlreadyPatched && e.message@
                        == "This location is already patched"@ && final(tree).files() == files
                } else if platform == Platform::Windows && scuffed {
                    r matches Err(e) && e.code == ErrorCode::ErrWindowsMovedDirectory && e.message@
                        == "This installation is scuffed"@ && final(tree).files() == files
                } else {
                    let f1 = files.insert(tmp, downloaded_asar@);
                    if !f1.dom().contains(active) {
                        r matches Err(e) && e.code == ErrorCode::ErrUnknown && final(tree).files()
                            == f1
                    } else {
                        let f2 = rename_map(f1, active, openasar_backup_path(rdir));
                        if !f2.dom().contains(tmp) {
                            r matches Err(e) && e.code == ErrorCode::ErrUnknown && final(tree).files() == f2
                        } else {
                            r is Ok && final(tree).files() == rename_map(f2, tmp, active)
                        }
                    }
                }
            }),
    {
        if discord_to_patch.openasar {
            return error_with_code(
                "This location is already patched",
                ErrorCode::ErrAlreadyPatched,
            );
        }
        if platform == Platform::Windows && scuffed {
            return error_with_code(
                "This installation is scuffed",
                ErrorCode::ErrWindowsMovedDirectory,
            );
        }

        let resource_dir = resource_dir_path(
            discord_to_patch,
            discord_to_patch.is_system_electron,
            platform,
        );
        let asar_path = join_path(resource_dir.as_str(), use_appropriate_asar(discord_to_patch.patched));
        let dl_tmp_asar_path = join_path(resource_dir.as_str(), "app.asar.tmp");

        tree.write_file(dl_tmp_asar_path.as_str(), downloaded_asar);

        let backup = join_path(resource_dir.as_str(), "app.asar.backup");
        if !tree.rename_file(asar_path.as_str(), backup.as_str()) {
            return error_with_code("The active archive is missing", ErrorCode::ErrUnknown);
        }
        if !tree.rename_file(dl_tmp_asar_path.as_str(), asar_path.as_str()) {
            return error_with_code("The staged archive is missing", ErrorCode::ErrUnknown);
        }

        Ok(())
    }

    /// The staging name and the ordered renames the secondary patch
    /// performs, for a caller that mirrors the transaction onto a real
    /// filesystem: the caller downloads to the staging name; then the active
    /// archive moves to the backup name, and the staged file into the active
    /// slot — in that order, since both renames target the same logical
    /// slot.
    pub fn patch_plan(&self, discord_to_patch: &DiscordLocation, platform: Platform) -> (r: (
        String,
        Vec<(String, String)>,
    ))
        ensures
            ({
                let rdir = resource_dir_spec(
                    discord_to_patch.path@,
                    discord_to_patch.is_system_electron,
                    platform,
                );
                let active = openasar_active_path(*discord_to_patch, platform);
                &&& r.0@ == tmp_asar_path(rdir)
                &&& r.1@.len() == 2
                &&& r.1@[0].0@ == active
                &&& r.1@[0].1@ == openasar_backup_path(rdir)
                &&& r.1@[1].0@ == tmp_asar_path(rdir)
                &&& r.1@[1].1@ == active
            }),
    {
        let resource_dir = resource_dir_path(
            discord_to_patch,
            discord_to_patch.is_system_electron,
            platform,
        );
        let staged = join_path(resource_dir.as_str(), "app.asar.tmp");
        let active = join_path(
            resource_dir.as_str(),
            use_appropriate_asar(discord_to_patch.patched),
        );
        let mut renames: Vec<(String, String)> = Vec::new();
        renames.push((active.clone(), join_path(resource_dir.as_str(), "app.asar.backup")));
        renames.push((staged.clone(), active));
        (staged, renames)
    }

    /// Removes the secondary patch from the model filesystem `tree`.
    ///
    /// Fails with `ErrAlreadyUnpatched`, changing nothing, when OpenAsar is
    /// not installed. Otherwise it deletes the active archive and restores
    /// from whichever backup exists, preferring `app.asar.backup` over the
    /// legacy `app.asar.original`. When neither backup exists the
    /// inconsistency is recoverable: the call still succeeds, with nothing
    /// restored, rather than failing destructively.
    pub fn unpatch(
        &self,
        tree: &mut FsTree,
        discord_to_patch: &DiscordLocation,
        platform: Platform,
    ) -> (r: InstallerResult<()>)
        requires
            old(tree).wf(),
        ensures
            final(tree).wf(),
            final(tree).dir_list() == old(tree).dir_list(),
            ({
                let files = old(tree).files();
                let rdir = resource_dir_spec(
                    discord_to_patch.path@,
                    discord_to_patch.is_system_electron,
                    platform,
                );
                let active = openasar_active_path(*discord_to_patch, platform);
                let backup = openasar_backup_path(rdir);
                let legacy = openasar_original_path(rdir);
                if !discord_to_patch.openasar {
                    r matches Err(e) && e.code == ErrorCode::ErrAlreadyUnpatched && e.message@
                        == "This location is already unpatched"@ && final(tree).files() == files
                } else if !files.dom().contains(active) {
                    r matches Err(e) && e.code == ErrorCode::ErrUnknown && final(tree).files()
                        == files
                } else {
                    let f1 = files.remove(active);
                    if f1.dom().contains(backup) {
                        r is Ok && final(tree).files() == rename_map(f1, backup, active)
                    } else if f1.dom().contains(legacy) {
                        r is Ok && final(tree).files() == rename_map(f1, legacy, active)
                    } else {
                        r is Ok && final(tree).files() == f1
                    }
                }
            }),
    {
        if !discord_to_patch.openasar {
            return error_with_code(
                "This location is already unpatched",
                ErrorCode::ErrAlreadyUnpatched,
            );
        }

        let resource_dir = resource_dir_path(
            discord_to_patch,
            discord_to_patch.is_system_electron,
            platform,
        );
        let asar_path = join_path(resource_dir.as_str(), use_appropriate_asar(discord_to_patch.patched));

        if !tree.remove_file(asar_path.as_str()) {
            return error_with_code("The active archive is missing", ErrorCode::ErrUnknown);
        }

        let backup = join_path(resource_dir.as_str(), "app.asar.backup");
        let legacy = join_path(resource_dir.as_str(), "app.asar.original");
        if tree.has_file(backup.as_str()) {
            tree.rename_file(backup.as_str(), asar_path.as_str());
        } else if tree.has_file(legacy.as_str()) {
            tree.rename_file(legacy.as_str(), asar_path.as_str());
        }

        Ok(())
    }
}

/// Which backup name the secondary unpatch restores from, preferring
/// `app.asar.backup` over the legacy `app.asar.original`; neither present
/// means there is nothing to restore.
pub fn openasar_restore_name(has_backup: bool, has_original: bool) -> (r: Option<&'static str>)
    ensures
        has_backup ==> (r matches Some(n) && n@ == "app.asar.backup"@),
        !has_backup && has_original ==> (r matches Some(n) && n@ == "app.asar.original"@),
        !has_backup && !has_original ==> r is None,
{
    if has_backup {
        Some("app.asar.backup")
    } else if has_original {
        Some("app.asar.original")
    } else {
        None
    }
}

} // verus!
