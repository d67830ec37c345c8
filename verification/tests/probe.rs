use libvencord::fs_model::FsTree;
use libvencord::paths::shared::{
    is_location_flatpak, is_location_openasar, is_location_patched, is_location_system_electron,
    use_appropriate_asar,
};
use libvencord::platform::Platform;

fn bytes_with_marker_at(len: usize, marker_at: usize) -> Vec<u8> {
    let mut data = vec![0u8; len];
    data[marker_at..marker_at + 8].copy_from_slice(b"OpenAsar");
    data
}

#[test]
fn appropriate_asar_depends_on_patch_state() {
    assert_eq!(use_appropriate_asar(false), "app.asar");
    assert_eq!(use_appropriate_asar(true), "_app.asar");
}

#[test]
fn openasar_false_when_archive_is_absent() {
    let tree = FsTree::new();
    assert!(!is_location_openasar(&tree, "/opt/Discord", false, Platform::Linux));
}

#[test]
fn openasar_false_when_archive_ends_before_probe_offset() {
    let mut tree = FsTree::new();
    tree.write_file("/opt/Discord/resources/app.asar", vec![7u8; 4000]);
    assert!(!is_location_openasar(&tree, "/opt/Discord", false, Platform::Linux));
}

#[test]
fn openasar_false_without_marker_in_window() {
    let mut tree = FsTree::new();
    tree.write_file("/opt/Discord/resources/app.asar", vec![7u8; 20000]);
    assert!(!is_location_openasar(&tree, "/opt/Discord", false, Platform::Linux));
}

#[test]
fn openasar_true_when_marker_sits_in_window() {
    let mut tree = FsTree::new();
    tree.write_file(
        "/opt/Discord/resources/app.asar",
        bytes_with_marker_at(20000, 5000),
    );
    assert!(is_location_openasar(&tree, "/opt/Discord", false, Platform::Linux));
}

#[test]
fn openasar_true_at_window_start() {
    let mut tree = FsTree::new();
    tree.write_file(
        "/opt/Discord/resources/app.asar",
        bytes_with_marker_at(20000, 4858),
    );
    assert!(is_location_openasar(&tree, "/opt/Discord", false, Platform::Linux));
}

#[test]
fn openasar_false_when_marker_lies_before_window() {
    let mut tree = FsTree::new();
    tree.write_file(
        "/opt/Discord/resources/app.asar",
        bytes_with_marker_at(20000, 100),
    );
    assert!(!is_location_openasar(&tree, "/opt/Discord", false, Platform::Linux));
}

#[test]
fn openasar_false_when_marker_crosses_window_end() {
    let mut tree = FsTree::new();
    // The window covers offsets 4858..5882; a marker starting at 5877 runs
    // past its end.
    tree.write_file(
        "/opt/Discord/resources/app.asar",
        bytes_with_marker_at(20000, 5877),
    );
    assert!(!is_location_openasar(&tree, "/opt/Discord", false, Platform::Linux));
}

#[test]
fn openasar_true_when_marker_ends_exactly_at_window_end() {
    let mut tree = FsTree::new();
    tree.write_file(
        "/opt/Discord/resources/app.asar",
        bytes_with_marker_at(20000, 5874),
    );
    assert!(is_location_openasar(&tree, "/opt/Discord", false, Platform::Linux));
}

#[test]
fn openasar_probes_backup_name_when_patched() {
    let mut tree = FsTree::new();
    tree.write_file(
        "/opt/Discord/resources/_app.asar",
        bytes_with_marker_at(20000, 5000),
    );
    assert!(is_location_openasar(&tree, "/opt/Discord", true, Platform::Linux));
    assert!(!is_location_openasar(&tree, "/opt/Discord", false, Platform::Linux));
}

#[test]
fn patched_iff_backup_archive_exists() {
    let mut tree = FsTree::new();
    assert!(!is_location_patched(&tree, "/opt/Discord", &false, Platform::Linux));
    tree.write_file("/opt/Discord/resources/_app.asar", vec![1u8]);
    assert!(is_location_patched(&tree, "/opt/Discord", &false, Platform::Linux));
}

#[test]
fn patched_uses_unpacked_backup_for_system_electron() {
    let mut tree = FsTree::new();
    tree.write_file("/usr/share/discord/_app.asar.unpacked", vec![1u8]);
    assert!(is_location_patched(&tree, "/usr/share/discord", &true, Platform::Linux));
    assert!(!is_location_patched(&tree, "/usr/share/discord", &false, Platform::Linux));
}

#[test]
fn patched_probe_uses_mac_resource_subpath() {
    let mut tree = FsTree::new();
    tree.write_file("/Applications/Discord.app/Contents/Resources/_app.asar", vec![1u8]);
    assert!(is_location_patched(&tree, "/Applications/Discord.app", &false, Platform::MacOs));
    assert!(!is_location_patched(&tree, "/Applications/Discord.app", &false, Platform::Linux));
}

#[test]
fn flatpak_only_on_linux_paths_through_flatpak() {
    assert!(is_location_flatpak("/var/lib/flatpak/app/com.discordapp.Discord", Platform::Linux));
    assert!(!is_location_flatpak("/opt/Discord", Platform::Linux));
    assert!(!is_location_flatpak("/var/lib/flatpak/app/x", Platform::Windows));
}

#[test]
fn system_electron_when_resources_directory_is_missing() {
    let mut tree = FsTree::new();
    tree.mkdir("/usr/share/discord");
    assert!(is_location_system_electron(&tree, "/usr/share/discord", Platform::Linux));
    tree.mkdir("/usr/share/discord/resources");
    assert!(!is_location_system_electron(&tree, "/usr/share/discord", Platform::Linux));
    assert!(!is_location_system_electron(&tree, "/usr/share/discord", Platform::Windows));
}
