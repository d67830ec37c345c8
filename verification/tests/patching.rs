use libvencord::fs_model::FsTree;
use libvencord::handler::ErrorCode;
use libvencord::patch::patch_mod::Installer;
use libvencord::patch::patch_openasar::{openasar_restore_name, OpenAsarInstaller};
use libvencord::paths::branch::{DiscordBranch, DiscordLocation};
use libvencord::platform::Platform;

fn location(path: &str, patched: bool, openasar: bool, system_electron: bool) -> DiscordLocation {
    DiscordLocation {
        name: "Discord".to_string(),
        path: path.to_string(),
        branch: DiscordBranch::Stable,
        patched,
        openasar,
        is_flatpak: false,
        is_system_electron: system_electron,
    }
}

fn unpatched_tree(original: &[u8], replacement: &[u8]) -> FsTree {
    let mut tree = FsTree::new();
    tree.mkdir("/opt/Discord/resources");
    tree.write_file("/opt/Discord/resources/app.asar", original.to_vec());
    tree.write_file("/dist/app.asar", replacement.to_vec());
    tree
}

#[test]
fn patch_swaps_the_archive_slots() {
    let mut tree = unpatched_tree(b"original bytes", b"patched bytes");
    let loc = location("/opt/Discord", false, false, false);
    Installer::new()
        .patch(&mut tree, &loc, "/dist/app.asar", false, Platform::Linux)
        .unwrap();
    assert_eq!(tree.read_file("/opt/Discord/resources/app.asar").unwrap(), b"patched bytes");
    assert_eq!(tree.read_file("/opt/Discord/resources/_app.asar").unwrap(), b"original bytes");
    assert!(!tree.has_file("/dist/app.asar"));
}

#[test]
fn patch_then_unpatch_restores_the_original_bytes() {
    let mut tree = unpatched_tree(b"original bytes", b"patched bytes");
    let installer = Installer::new();
    let loc = location("/opt/Discord", false, false, false);
    installer
        .patch(&mut tree, &loc, "/dist/app.asar", false, Platform::Linux)
        .unwrap();
    let loc = location("/opt/Discord", true, false, false);
    installer.unpatch(&mut tree, &loc, Platform::Linux).unwrap();
    assert_eq!(tree.read_file("/opt/Discord/resources/app.asar").unwrap(), b"original bytes");
    assert!(!tree.has_file("/opt/Discord/resources/_app.asar"));
    assert!(!tree.has_file("/dist/app.asar"));
}

#[test]
fn patch_on_patched_location_fails_without_mutation() {
    let mut tree = unpatched_tree(b"original bytes", b"patched bytes");
    tree.write_file("/opt/Discord/resources/_app.asar", b"old backup".to_vec());
    let loc = location("/opt/Discord", true, false, false);
    let err = Installer::new()
        .patch(&mut tree, &loc, "/dist/app.asar", false, Platform::Linux)
        .unwrap_err();
    assert!(matches!(err.code, ErrorCode::ErrAlreadyPatched));
    assert_eq!(err.message, "This location is already patched");
    assert_eq!(tree.read_file("/opt/Discord/resources/app.asar").unwrap(), b"original bytes");
    assert_eq!(tree.read_file("/opt/Discord/resources/_app.asar").unwrap(), b"old backup");
    assert_eq!(tree.read_file("/dist/app.asar").unwrap(), b"patched bytes");
}

#[test]
fn unpatch_on_unpatched_location_fails_without_mutation() {
    let mut tree = unpatched_tree(b"original bytes", b"patched bytes");
    let loc = location("/opt/Discord", false, false, false);
    let err = Installer::new()
        .unpatch(&mut tree, &loc, Platform::Linux)
        .unwrap_err();
    assert!(matches!(err.code, ErrorCode::ErrAlreadyUnpatched));
    assert_eq!(tree.read_file("/opt/Discord/resources/app.asar").unwrap(), b"original bytes");
}

#[test]
fn windows_relocation_guard_blocks_the_patch() {
    let mut tree = unpatched_tree(b"original bytes", b"patched bytes");
    let loc = location("/appdata/Discord/app-1.0.9", false, false, false);
    let err = Installer::new()
        .patch(&mut tree, &loc, "/dist/app.asar", true, Platform::Windows)
        .unwrap_err();
    assert!(matches!(err.code, ErrorCode::ErrWindowsMovedDirectory));
    assert_eq!(tree.read_file("/dist/app.asar").unwrap(), b"patched bytes");
}

#[test]
fn relocation_guard_is_windows_only() {
    let mut tree = unpatched_tree(b"original bytes", b"patched bytes");
    let loc = location("/opt/Discord", false, false, false);
    assert!(Installer::new()
        .patch(&mut tree, &loc, "/dist/app.asar", true, Platform::Linux)
        .is_ok());
}

#[test]
fn patch_with_missing_active_archive_fails_before_any_rename() {
    let mut tree = FsTree::new();
    tree.write_file("/dist/app.asar", b"patched bytes".to_vec());
    let loc = location("/opt/Discord", false, false, false);
    let err = Installer::new()
        .patch(&mut tree, &loc, "/dist/app.asar", false, Platform::Linux)
        .unwrap_err();
    assert!(matches!(err.code, ErrorCode::ErrUnknown));
    assert_eq!(tree.read_file("/dist/app.asar").unwrap(), b"patched bytes");
    assert!(!tree.has_file("/opt/Discord/resources/_app.asar"));
}

#[test]
fn patch_with_missing_replacement_leaves_the_backup_applied() {
    let mut tree = FsTree::new();
    tree.write_file("/opt/Discord/resources/app.asar", b"original bytes".to_vec());
    let loc = location("/opt/Discord", false, false, false);
    let err = Installer::new()
        .patch(&mut tree, &loc, "/dist/app.asar", false, Platform::Linux)
        .unwrap_err();
    assert!(matches!(err.code, ErrorCode::ErrUnknown));
    // The first rename completed; the slot is empty and the backup holds the
    // original. No rollback is attempted, by design.
    assert!(!tree.has_file("/opt/Discord/resources/app.asar"));
    assert_eq!(tree.read_file("/opt/Discord/resources/_app.asar").unwrap(), b"original bytes");
}

#[test]
fn system_electron_patch_also_backs_up_the_unpacked_variant() {
    let mut tree = FsTree::new();
    tree.write_file("/usr/share/discord/app.asar", b"original bytes".to_vec());
    tree.write_file("/usr/share/discord/app.asar.unpacked", b"unpacked".to_vec());
    tree.write_file("/dist/app.asar", b"patched bytes".to_vec());
    let installer = Installer::new();
    let loc = location("/usr/share/discord", false, false, true);
    installer
        .patch(&mut tree, &loc, "/dist/app.asar", false, Platform::Linux)
        .unwrap();
    assert_eq!(tree.read_file("/usr/share/discord/app.asar").unwrap(), b"patched bytes");
    assert_eq!(tree.read_file("/usr/share/discord/_app.asar").unwrap(), b"original bytes");
    assert_eq!(tree.read_file("/usr/share/discord/_app.asar.unpacked").unwrap(), b"unpacked");
    assert!(!tree.has_file("/usr/share/discord/app.asar.unpacked"));

    let loc = location("/usr/share/discord", true, false, true);
    installer.unpatch(&mut tree, &loc, Platform::Linux).unwrap();
    assert_eq!(tree.read_file("/usr/share/discord/app.asar").unwrap(), b"original bytes");
    assert_eq!(tree.read_file("/usr/share/discord/app.asar.unpacked").unwrap(), b"unpacked");
    assert!(!tree.has_file("/usr/share/discord/_app.asar"));
    assert!(!tree.has_file("/usr/share/discord/_app.asar.unpacked"));
}

#[test]
fn patch_renames_come_in_slot_order() {
    let loc = location("/opt/Discord", false, false, false);
    let renames = Installer::new().patch_renames(&loc, "/dist/app.asar", Platform::Linux);
    assert_eq!(renames.len(), 2);
    assert_eq!(renames[0].0, "/opt/Discord/resources/app.asar");
    assert_eq!(renames[0].1, "/opt/Discord/resources/_app.asar");
    assert_eq!(renames[1].0, "/dist/app.asar");
    assert_eq!(renames[1].1, "/opt/Discord/resources/app.asar");
}

#[test]
fn system_electron_plan_adds_the_unpacked_rename() {
    let loc = location("/usr/share/discord", false, false, true);
    let renames = Installer::new().patch_renames(&loc, "/dist/app.asar", Platform::Linux);
    assert_eq!(renames.len(), 3);
    assert_eq!(renames[0].0, "/usr/share/discord/app.asar");
    assert_eq!(renames[2].0, "/usr/share/discord/app.asar.unpacked");
    assert_eq!(renames[2].1, "/usr/share/discord/_app.asar.unpacked");

    let (remove, restores) = Installer::new().unpatch_plan(&loc, Platform::Linux);
    assert_eq!(remove, "/usr/share/discord/app.asar");
    assert_eq!(restores.len(), 2);
    assert_eq!(restores[0].0, "/usr/share/discord/_app.asar");
    assert_eq!(restores[0].1, "/usr/share/discord/app.asar");
    assert_eq!(restores[1].0, "/usr/share/discord/_app.asar.unpacked");
}

#[test]
fn openasar_patch_stages_and_swaps() {
    let mut tree = FsTree::new();
    tree.write_file("/opt/Discord/resources/app.asar", b"original bytes".to_vec());
    let loc = location("/opt/Discord", false, false, false);
    OpenAsarInstaller::new()
        .patch(&mut tree, &loc, b"openasar bytes".to_vec(), false, Platform::Linux)
        .unwrap();
    assert_eq!(tree.read_file("/opt/Discord/resources/app.asar").unwrap(), b"openasar bytes");
    assert_eq!(
        tree.read_file("/opt/Discord/resources/app.asar.backup").unwrap(),
        b"original bytes"
    );
    assert!(!tree.has_file("/opt/Discord/resources/app.asar.tmp"));
}

#[test]
fn openasar_patch_targets_the_backup_slot_when_primary_patched() {
    let mut tree = FsTree::new();
    tree.write_file("/opt/Discord/resources/_app.asar", b"original bytes".to_vec());
    tree.write_file("/opt/Discord/resources/app.asar", b"loader".to_vec());
    let loc = location("/opt/Discord", true, false, false);
    OpenAsarInstaller::new()
        .patch(&mut tree, &loc, b"openasar bytes".to_vec(), false, Platform::Linux)
        .unwrap();
    assert_eq!(tree.read_file("/opt/Discord/resources/_app.asar").unwrap(), b"openasar bytes");
    assert_eq!(tree.read_file("/opt/Discord/resources/app.asar").unwrap(), b"loader");
}

#[test]
fn openasar_patch_on_patched_location_fails() {
    let mut tree = FsTree::new();
    let loc = location("/opt/Discord", false, true, false);
    let err = OpenAsarInstaller::new()
        .patch(&mut tree, &loc, vec![1u8], false, Platform::Linux)
        .unwrap_err();
    assert!(matches!(err.code, ErrorCode::ErrAlreadyPatched));
}

#[test]
fn openasar_unpatch_prefers_the_backup_name() {
    let mut tree = FsTree::new();
    tree.write_file("/opt/Discord/resources/app.asar", b"openasar bytes".to_vec());
    tree.write_file("/opt/Discord/resources/app.asar.backup", b"from backup".to_vec());
    tree.write_file("/opt/Discord/resources/app.asar.original", b"from original".to_vec());
    let loc = location("/opt/Discord", false, true, false);
    OpenAsarInstaller::new()
        .unpatch(&mut tree, &loc, Platform::Linux)
        .unwrap();
    assert_eq!(tree.read_file("/opt/Discord/resources/app.asar").unwrap(), b"from backup");
    assert_eq!(
        tree.read_file("/opt/Discord/resources/app.asar.original").unwrap(),
        b"from original"
    );
}

#[test]
fn openasar_unpatch_falls_back_to_the_legacy_backup() {
    let mut tree = FsTree::new();
    tree.write_file("/opt/Discord/resources/app.asar", b"openasar bytes".to_vec());
    tree.write_file("/opt/Discord/resources/app.asar.original", b"from original".to_vec());
    let loc = location("/opt/Discord", false, true, false);
    OpenAsarInstaller::new()
        .unpatch(&mut tree, &loc, Platform::Linux)
        .unwrap();
    assert_eq!(tree.read_file("/opt/Discord/resources/app.asar").unwrap(), b"from original");
}

#[test]
fn openasar_unpatch_without_backup_reports_success_and_restores_nothing() {
    let mut tree = FsTree::new();
    tree.write_file("/opt/Discord/resources/app.asar", b"openasar bytes".to_vec());
    let loc = location("/opt/Discord", false, true, false);
    OpenAsarInstaller::new()
        .unpatch(&mut tree, &loc, Platform::Linux)
        .unwrap();
    assert!(!tree.has_file("/opt/Discord/resources/app.asar"));
}

#[test]
fn openasar_unpatch_on_unpatched_location_fails() {
    let mut tree = FsTree::new();
    let loc = location("/opt/Discord", false, false, false);
    let err = OpenAsarInstaller::new()
        .unpatch(&mut tree, &loc, Platform::Linux)
        .unwrap_err();
    assert!(matches!(err.code, ErrorCode::ErrAlreadyUnpatched));
}

#[test]
fn openasar_plan_stages_then_swaps_in_slot_order() {
    let loc = location("/opt/Discord", false, false, false);
    let (staged, renames) = OpenAsarInstaller::new().patch_plan(&loc, Platform::Linux);
    assert_eq!(staged, "/opt/Discord/resources/app.asar.tmp");
    assert_eq!(renames.len(), 2);
    assert_eq!(renames[0].0, "/opt/Discord/resources/app.asar");
    assert_eq!(renames[0].1, "/opt/Discord/resources/app.asar.backup");
    assert_eq!(renames[1].0, "/opt/Discord/resources/app.asar.tmp");
    assert_eq!(renames[1].1, "/opt/Discord/resources/app.asar");
}

#[test]
fn openasar_plan_targets_the_backup_slot_when_primary_patched() {
    let loc = location("/opt/Discord", true, false, false);
    let (_, renames) = OpenAsarInstaller::new().patch_plan(&loc, Platform::Linux);
    assert_eq!(renames[0].0, "/opt/Discord/resources/_app.asar");
    assert_eq!(renames[1].1, "/opt/Discord/resources/_app.asar");
}

#[test]
fn restore_name_preference_order() {
    assert_eq!(openasar_restore_name(true, true), Some("app.asar.backup"));
    assert_eq!(openasar_restore_name(true, false), Some("app.asar.backup"));
    assert_eq!(openasar_restore_name(false, true), Some("app.asar.original"));
    assert_eq!(openasar_restore_name(false, false), None);
}
