//! The primary patch transaction: swapping the application's main archive
//! for the loader archive, reversibly.
//!
//! A transaction is an ordered sequence of renames. The order matters: the
//! active archive must be moved to its backup name before the replacement is
//! moved into the active slot, since both renames target the same logical
//! slot. A failure between the two leaves the original archive backed up but
//! no active archive; by design no rollback is attempted, and the caller must
//! re-probe to learn the surviving state. The transactions here run on the
//! [`FsTree`] model; [`Installer::patch_renames`] and
//! [`Installer::unpatch_plan`] hand the same ordered steps to the unverified
//! binary, which mirrors them onto the real filesystem.

use vstd::prelude::*;
use crate::archive::{asar_bytes, asar_sizes_fit, build_app_asar, json_string_bytes};
use crate::fs_model::FsTree;
use crate::handler::{error_with_code, ErrorCode, InstallerError, InstallerResult};
use crate::paths::branch::DiscordLocation;
use crate::paths::shared::{resource_dir_path, resource_dir_spec};
use crate::platform::Platform;
use crate::text::{join_path, join_path_seq};

verus! {

/// What a successful rename does to the file map: the content leaves `from`
/// and lands at `to`, replacing anything there.
pub open spec fn rename_map(files: Map<Seq<char>, Seq<u8>>, from: Seq<char>, to: Seq<char>) -> Map<
    Seq<char>,
    Seq<u8>,
> {
    files.remove(from).insert(to, files[from])
}

/// The active archive slot under a resource directory.
pub open spec fn active_asar_path(rdir: Seq<char>) -> Seq<char> {
    join_path_seq(rdir, "app.asar"@)
}

/// The primary patch's backup slot under a resource directory.
pub open spec fn backup_asar_path(rdir: Seq<char>) -> Seq<char> {
    join_path_seq(rdir, "_app.asar"@)
}

/// The unpacked-resources directory slot of a system-Electron installation.
pub open spec fn unpacked_path(rdir: Seq<char>) -> Seq<char> {
    join_path_seq(rdir, "app.asar.unpacked"@)
}

/// The backup slot for the unpacked-resources variant.
pub open spec fn backup_unpacked_path(rdir: Seq<char>) -> Seq<char> {
    join_path_seq(rdir, "_app.asar.unpacked"@)
}

/// Whether the primary patch also renames the unpacked-resources variant:
/// only for system-Electron installations on Linux.
pub open spec fn renames_unpacked(loc: DiscordLocation, platform: Platform) -> bool {
    platform == Platform::Linux && loc.is_system_electron
}

/// The installer for the primary loader patch.
#[derive(Default)]
pub struct Installer;

impl Installer {
    /// A fresh installer.
    pub fn new() -> Self {
        Installer
    }

    /// Installs the primary patch on the model filesystem `tree`.
    ///
    /// Fails with `ErrAlreadyPatched`, changing nothing, when the location is
    /// already patched; with `ErrWindowsMovedDirectory`, changing nothing,
    /// when the Windows relocation guard `scuffed` holds. Otherwise it renames
    /// the active archive to the backup name, then moves the replacement at
    /// `patched_asar_file` into the active slot, and, for a system-Electron
    /// installation on Linux, renames the unpacked variant to its backup name
    /// — in that order, stopping with `ErrUnknown` at the first missing
    /// source and leaving the earlier steps applied.
    pub fn patch(
        &self,
        tree: &mut FsTree,
        discord_to_patch: &DiscordLocation,
        patched_asar_file: &str,
        scuffed: bool,
        platform: Platform,
    ) -> (r: InstallerResult<()>)
        requires
            old(tree).wf(),
        ensures
            final(tree).wf(),
            final(tree).dir_list() == old(tree).dir_list(),
            ({
                let files = old(tree).files();
                let rdir = resource_dir_spec(
                    discord_to_patch.path@,
                    discord_to_patch.is_system_electron,
                    platform,
                );
                let active = active_asar_path(rdir);
                let backup = backup_asar_path(rdir);
                if discord_to_patch.patched {
                    r matches Err(e) && e.code == ErrorCode::ErrAlreadyPatched && e.message@
                        == "This location is already patched"@ && final(tree).files() == files
                } else if platform == Platform::Windows && scuffed {
                    r matches Err(e) && e.code == ErrorCode::ErrWindowsMovedDirectory && e.message@
                        == "This installation is scuffed"@ && final(tree).files() == files
                } else if !files.dom().contains(active) {
                    r matches Err(e) && e.code == ErrorCode::ErrUnknown && final(tree).files()
                        == files
                } else {
                    let f1 = rename_map(files, active, backup);
                    if !f1.dom().contains(patched_asar_file@) {
                        r matches Err(e) && e.code == ErrorCode::ErrUnknown && final(tree).files()
                            == f1
                    } else {
                        let f2 = rename_map(f1, patched_asar_file@, active);
                        if renames_unpacked(*discord_to_patch, platform) {
                            let unpacked = unpacked_path(rdir);
                            if !f2.dom().contains(unpacked) {
                                r matches Err(e) && e.code == ErrorCode::ErrUnknown && final(tree).files() == f2
                            } else {
                                r is Ok && final(tree).files() == rename_map(
                                    f2,
                                    unpacked,
                                    backup_unpacked_path(rdir),
                                )
                            }
                        } else {
                            r is Ok && final(tree).files() == f2
                        }
                    }
                }
            }),
    {
        if discord_to_patch.patched {
            return error_with_code(
                "This location is already patched",
                ErrorCode::ErrAlreadyPatched,
            );
        }
        if platform == Platform::Windows && scuffed {
            return error_with_code(
                "This installation is scuffed",
                ErrorCode::ErrWindowsMovedDirectory,
            );
        }

        let resource_dir = resource_dir_path(
            discord_to_patch,
            discord_to_patch.is_system_electron,
            platform,
        );
        let asar_path = join_path(resource_dir.as_str(), "app.asar");
        let backup_path = join_path(resource_dir.as_str(), "_app.asar");

        if !tree.rename_file(asar_path.as_str(), backup_path.as_str()) {
            return error_with_code("The active archive is missing", ErrorCode::ErrUnknown);
        }
        if !tree.rename_file(patched_asar_file, asar_path.as_str()) {
            return error_with_code("The replacement archive is missing", ErrorCode::ErrUnknown);
        }

        if platform == Platform::Linux && discord_to_patch.is_system_electron {
            let unpacked = join_path(resource_dir.as_str(), "app.asar.unpacked");
            let backup_unpacked = join_path(resource_dir.as_str(), "_app.asar.unpacked");
            if !tree.rename_file(unpacked.as_str(), backup_unpacked.as_str()) {
                return error_with_code(
                    "The unpacked resources are missing",
                    ErrorCode::ErrUnknown,
                );
            }
        }

        Ok(())
    }

    /// Builds the loader archive for `patcher_path` and writes it at
    /// `out_file` on the model filesystem. Fails, writing nothing, only when
    /// the archive header would overflow its 32-bit size fields.
    pub fn write_app_asar(&self, tree: &mut FsTree, out_file: &str, patcher_path: &str) -> (r:
        InstallerResult<()>)
        requires
            old(tree).wf(),
        ensures
            final(tree).wf(),
            final(tree).dir_list() == old(tree).dir_list(),
            match r {
                Ok(_) => asar_sizes_fit(json_string_bytes(patcher_path@)) && final(tree).files()
                    == old(tree).files().insert(
                    out_file@,
                    asar_bytes(json_string_bytes(patcher_path@)),
                ),
                Err(e) => e.code == ErrorCode::ErrUnknown && !asar_sizes_fit(
                    json_string_bytes(patcher_path@),
                ) && final(tree).files() == old(tree).files(),
            },
    {
        match build_app_asar(patcher_path) {
            Ok(bytes) => {
                tree.write_file(out_file, bytes);
                Ok(())
            },
            Err(e) => Err(e),
        }
    }

    /// Permission fixes after patching on Linux; none are currently needed,
    /// so this does nothing.
    pub fn fix_permissions(&self) {
    }

    /// The ordered renames the primary patch performs, for a caller that
    /// mirrors the transaction onto a real filesystem: the active archive to
    /// its backup name, then the replacement into the active slot, then, for
    /// a system-Electron installation on Linux, the unpacked variant to its
    /// backup name. The order must be kept: the first two renames target the
    /// same logical slot.
    pub fn patch_renames(
        &self,
        discord_to_patch: &DiscordLocation,
        patched_asar_file: &str,
        platform: Platform,
    ) -> (r: Vec<(String, String)>)
        ensures
            ({
                let rdir = resource_dir_spec(
                    discord_to_patch.path@,
                    discord_to_patch.is_system_electron,
                    platform,
                );
                &&& r@.len() == if renames_unpacked(*discord_to_patch, platform) {
                    3int
                } else {
                    2int
                }
                &&& r@[0].0@ == active_asar_path(rdir)
                &&& r@[0].1@ == backup_asar_path(rdir)
                &&& r@[1].0@ == patched_asar_file@
                &&& r@[1].1@ == active_asar_path(rdir)
                &&& renames_unpacked(*discord_to_patch, platform) ==> r@[2].0@ == unpacked_path(
                    rdir,
                ) && r@[2].1@ == backup_unpacked_path(rdir)
            }),
    {
        let resource_dir = resource_dir_path(
            discord_to_patch,
            discord_to_patch.is_system_electron,
            platform,
        );
        let mut renames: Vec<(String, String)> = Vec::new();
        renames.push(
            (join_path(resource_dir.as_str(), "app.asar"), join_path(
                resource_dir.as_str(),
                "_app.asar",
            )),
        );
        let mut replacement = String::new();
        replacement.append(patched_asar_file);
        renames.push((replacement, join_path(resource_dir.as_str(), "app.asar")));
        if platform == Platform::Linux && discord_to_patch.is_system_electron {
            renames.push(
                (join_path(resource_dir.as_str(), "app.asar.unpacked"), join_path(
                    resource_dir.as_str(),
                    "_app.asar.unpacked",
                )),
            );
        }
        renames
    }

    /// What the primary unpatch does, for a caller that mirrors it onto a
    /// real filesystem: the file to delete, then the ordered renames that
    /// restore the backups.
    pub fn unpatch_plan(&self, discord_to_patch: &DiscordLocation, platform: Platform) -> (r: (
        String,
        Vec<(String, String)>,
    ))
        ensures
            ({
                let rdir = resource_dir_spec(
                    discord_to_patch.path@,
                    discord_to_patch.is_system_electron,
                    platform,
                );
                &&& r.0@ == active_asar_path(rdir)
                &&& r.1@.len() == if renames_unpacked(*discord_to_patch, platform) {
                    2int
                } else {
                    1int
                }
                &&& r.1@[0].0@ == backup_asar_path(rdir)
                &&& r.1@[0].1@ == active_asar_path(rdir)
                &&& renames_unpacked(*discord_to_patch, platform) ==> r.1@[1].0@
                    == backup_unpacked_path(rdir) && r.1@[1].1@ == unpacked_path(rdir)
            }),
    {
        let resource_dir = resource_dir_path(
            discord_to_patch,
            discord_to_patch.is_system_electron,
            platform,
        );
        let remove = join_path(resource_dir.as_str(), "app.asar");
        let mut renames: Vec<(String, String)> = Vec::new();
        renames.push(
            (join_path(resource_dir.as_str(), "_app.asar"), join_path(
                resource_dir.as_str(),
                "app.asar",
            )),
        );
        if platform == Platform::Linux && discord_to_patch.is_system_electron {
            renames.push(
                (join_path(resource_dir.as_str(), "_app.asar.unpacked"), join_path(
                    resource_dir.as_str(),
                    "app.asar.unpacked",
                )),
            );
        }
        (remove, renames)
    }

    /// Removes the primary patch from the model filesystem `tree`.
    ///
    /// Fails with `ErrAlreadyUnpatched`, changing nothing, when the location
    /// is not patched. Otherwise it deletes the active archive, then renames
    /// the backup archive back to the active name, and, for a system-Electron
    /// installation on Linux, restores the unpacked variant the same way —
    /// stopping with `ErrUnknown` at the first missing file and leaving the
    /// earlier steps applied.
    pub fn unpatch(
        &self,
        tree: &mut FsTree,
        discord_to_patch: &DiscordLocation,
        platform: Platform,
    ) -> (r: InstallerResult<()>)
        requires
            old(tree).wf(),
        ensures
            final(tree).wf(),
            final(tree).dir_list() == old(tree).dir_list(),
            ({
                let files = old(tree).files();
                let rdir = resource_dir_spec(
                    discord_to_patch.path@,
                    discord_to_patch.is_system_electron,
                    platform,
                );
                let active = active_asar_path(rdir);
                let backup = backup_asar_path(rdir);
                if !discord_to_patch.patched {
                    r matches Err(e) && e.code == ErrorCode::ErrAlreadyUnpatched && e.message@
                        == "This location is already unpatched"@ && final(tree).files() == files
                } else if !files.dom().contains(active) {
                    r matches Err(e) && e.code == ErrorCode::ErrUnknown && final(tree).files()
                        == files
                } else {
                    let f1 = files.remove(active);
                    if !f1.dom().contains(backup) {
                        r matches Err(e) && e.code == ErrorCode::ErrUnknown && final(tree).files()
                            == f1
                    } else {
                        let f2 = rename_map(f1, backup, active);
                        if renames_unpacked(*discord_to_patch, platform) {
                            let backup_unpacked = backup_unpacked_path(rdir);
                            if !f2.dom().contains(backup_unpacked) {
                                r matches Err(e) && e.code == ErrorCode::ErrUnknown && final(tree).files() == f2
                            } else {
                                r is Ok && final(tree).files() == rename_map(
                                    f2,
                                    backup_unpacked,
                                    unpacked_path(rdir),
                                )
                            }
                        } else {
                            r is Ok && final(tree).files() == f2
                        }
                    }
                }
            }),
    {
        if !discord_to_patch.patched {
            return error_with_code(
                "This location is already unpatched",
                ErrorCode::ErrAlreadyUnpatched,
            );
        }

        let resource_dir = resource_dir_path(
            discord_to_patch,
            discord_to_patch.is_system_electron,
            platform,
        );
        let asar_path = join_path(resource_dir.as_str(), "app.asar");
        let backup_path = join_path(resource_dir.as_str(), "_app.asar");

        if !tree.remove_file(asar_path.as_str()) {
            return error_with_code("The active archive is missing", ErrorCode::ErrUnknown);
        }
        if !tree.rename_file(backup_path.as_str(), asar_path.as_str()) {
            return error_with_code("The backup archive is missing", ErrorCode::ErrUnknown);
        }

        if platform == Platform::Linux && discord_to_patch.is_system_electron {
            let unpacked = join_path(resource_dir.as_str(), "app.asar.unpacked");
            let backup_unpacked = join_path(resource_dir.as_str(), "_app.asar.unpacked");
            if !tree.rename_file(backup_unpacked.as_str(), unpacked.as_str()) {
                return error_with_code(
                    "The unpacked resources backup is missing",
                    ErrorCode::ErrUnknown,
                );
            }
        }

        Ok(())
    }
}

/// Law: the primary patch followed immediately by its unpatch restores the
/// original active-archive bytes exactly and leaves no backup artifact — the
/// filesystem ends as it began, less the consumed replacement file.
pub proof fn lemma_patch_unpatch_round_trip(
    files: Map<Seq<char>, Seq<u8>>,
    rdir: Seq<char>,
    repl: Seq<char>,
)
    requires
        files.dom().contains(active_asar_path(rdir)),
        files.dom().contains(repl),
        !files.dom().contains(backup_asar_path(rdir)),
        repl != active_asar_path(rdir),
        repl != backup_asar_path(rdir),
    ensures
        ({
            let patched = rename_map(
                rename_map(files, active_asar_path(rdir), backup_asar_path(rdir)),
                repl,
                active_asar_path(rdir),
            );
            rename_map(patched.remove(active_asar_path(rdir)), backup_asar_path(rdir), active_asar_path(rdir))
                == files.remove(repl)
        }),
{
    let active = active_asar_path(rdir);
    let backup = backup_asar_path(rdir);
    let patched = rename_map(rename_map(files, active, backup), repl, active);
    assert(rename_map(patched.remove(active), backup, active) =~= files.remove(repl));
}

/// Law: on a system-Electron installation, where the patch also backs up the
/// unpacked-resources variant, the patch followed immediately by its unpatch
/// still restores the original active archive and the unpacked variant
/// exactly and leaves no backup artifact.
pub proof fn lemma_patch_unpatch_round_trip_system_electron(
    files: Map<Seq<char>, Seq<u8>>,
    rdir: Seq<char>,
    repl: Seq<char>,
)
    requires
        files.dom().contains(active_asar_path(rdir)),
        files.dom().contains(unpacked_path(rdir)),
        files.dom().contains(repl),
        !files.dom().contains(backup_asar_path(rdir)),
        !files.dom().contains(backup_unpacked_path(rdir)),
        repl != active_asar_path(rdir),
        repl != backup_asar_path(rdir),
        repl != unpacked_path(rdir),
        repl != backup_unpacked_path(rdir),
        active_asar_path(rdir) != unpacked_path(rdir),
        active_asar_path(rdir) != backup_unpacked_path(rdir),
        backup_asar_path(rdir) != unpacked_path(rdir),
        backup_asar_path(rdir) != backup_unpacked_path(rdir),
    ensures
        ({
            let active = active_asar_path(rdir);
            let backup = backup_asar_path(rdir);
            let unpacked = unpacked_path(rdir);
            let backup_unpacked = backup_unpacked_path(rdir);
            let patched = rename_map(
                rename_map(rename_map(files, active, backup), repl, active),
                unpacked,
                backup_unpacked,
            );
            rename_map(
                rename_map(patched.remove(active), backup, active),
                backup_unpacked,
                unpacked,
            ) == files.remove(repl)
        }),
{
    let active = active_asar_path(rdir);
    let backup = backup_asar_path(rdir);
    let unpacked = unpacked_path(rdir);
    let backup_unpacked = backup_unpacked_path(rdir);
    let patched = rename_map(
        rename_map(rename_map(files, active, backup), repl, active),
        unpacked,
        backup_unpacked,
    );
    assert(rename_map(
        rename_map(patched.remove(active), backup, active),
        backup_unpacked,
        unpacked,
    ) =~= files.remove(repl));
}

} // verus!
