use libvencord::fs_model::FsTree;
use libvencord::logic;
use libvencord::paths::branch::DiscordBranch;
use libvencord::paths::{linux, mac, windows};

#[test]
fn linux_scan_finds_installs_under_the_fixed_roots() {
    let mut tree = FsTree::new();
    tree.mkdir("/opt/Discord");
    tree.mkdir("/opt/Discord/resources");
    tree.mkdir("/home/u/.local/share/DiscordCanary");
    tree.mkdir("/home/u/.local/share/DiscordCanary/resources");
    let locations = linux::get_discord_locations(&tree, "/home/u").unwrap();
    assert_eq!(locations.len(), 2);
    assert_eq!(locations[0].name, "Discord");
    assert_eq!(locations[0].path, "/opt/Discord");
    assert_eq!(locations[0].branch, DiscordBranch::Stable);
    assert!(!locations[0].is_flatpak);
    assert!(!locations[0].is_system_electron);
    assert_eq!(locations[1].name, "DiscordCanary");
    assert_eq!(locations[1].branch, DiscordBranch::Canary);
}

#[test]
fn linux_scan_with_no_candidates_returns_nothing() {
    let tree = FsTree::new();
    assert!(linux::get_discord_locations(&tree, "/home/u").is_none());
}

#[test]
fn linux_scan_orders_roots_before_names() {
    let mut tree = FsTree::new();
    tree.mkdir("/home/u/.local/share/discord");
    tree.mkdir("/home/u/.local/share/discord/resources");
    tree.mkdir("/usr/share/DiscordPTB");
    tree.mkdir("/usr/share/DiscordPTB/resources");
    let locations = linux::get_discord_locations(&tree, "/home/u").unwrap();
    assert_eq!(locations.len(), 2);
    assert_eq!(locations[0].name, "DiscordPTB");
    assert_eq!(locations[1].name, "discord");
}

#[test]
fn flatpak_identifier_resolves_to_the_derived_directory() {
    let mut tree = FsTree::new();
    tree.mkdir("/var/lib/flatpak/app/com.discordapp.DiscordCanary");
    tree.mkdir(
        "/var/lib/flatpak/app/com.discordapp.DiscordCanary/current/active/files/discord-canary/resources",
    );
    let locations = linux::get_discord_locations(&tree, "/home/u").unwrap();
    assert_eq!(locations.len(), 1);
    assert_eq!(locations[0].name, "com.discordapp.DiscordCanary");
    assert_eq!(
        locations[0].path,
        "/var/lib/flatpak/app/com.discordapp.DiscordCanary/current/active/files/discord-canary"
    );
    assert!(locations[0].is_flatpak);
    assert_eq!(locations[0].branch, DiscordBranch::Canary);
}

#[test]
fn flatpak_stable_identifier_keeps_discord_unhyphenated() {
    assert_eq!(linux::flatpak_install_dir_name("com.discordapp.Discord"), "discord");
    assert_eq!(linux::flatpak_install_dir_name("com.discordapp.DiscordPTB"), "discord-ptb");
    assert_eq!(
        linux::flatpak_install_dir_name("com.discordapp.DiscordCanary"),
        "discord-canary"
    );
    assert_eq!(
        linux::flatpak_install_dir_name("com.discordapp.DiscordDevelopment"),
        "discord-development"
    );
}

#[test]
fn plain_name_under_a_flatpak_root_is_probed_in_place() {
    let mut tree = FsTree::new();
    tree.mkdir("/var/lib/flatpak/app/discordptb");
    tree.mkdir("/var/lib/flatpak/app/discordptb/resources");
    let locations = linux::get_discord_locations(&tree, "/home/u").unwrap();
    assert_eq!(locations.len(), 1);
    assert_eq!(locations[0].name, "discordptb");
    assert_eq!(locations[0].path, "/var/lib/flatpak/app/discordptb");
    assert!(locations[0].is_flatpak);
    assert!(!locations[0].is_system_electron);
}

#[test]
fn reverse_domain_name_resolves_under_any_root() {
    let mut tree = FsTree::new();
    tree.mkdir("/opt/com.discordapp.DiscordPTB");
    tree.mkdir("/opt/com.discordapp.DiscordPTB/current/active/files/discord-ptb/resources");
    let locations = linux::get_discord_locations(&tree, "/home/u").unwrap();
    assert_eq!(locations.len(), 1);
    assert_eq!(
        locations[0].path,
        "/opt/com.discordapp.DiscordPTB/current/active/files/discord-ptb"
    );
    assert!(!locations[0].is_flatpak);
}

#[test]
fn unresolvable_reverse_domain_name_is_probed_in_place() {
    let mut tree = FsTree::new();
    tree.mkdir("/var/lib/flatpak/app/com.discordapp.Foo");
    tree.mkdir("/var/lib/flatpak/app/com.discordapp.Foo/resources");
    let loc = linux::parse_discord_location(&tree, "/var/lib/flatpak/app/com.discordapp.Foo");
    assert_eq!(loc.path, "/var/lib/flatpak/app/com.discordapp.Foo");
    assert!(loc.is_flatpak);
}

#[test]
fn resolvable_identifiers_are_recognised() {
    assert!(linux::is_resolvable_flatpak_name("com.discordapp.Discord"));
    assert!(linux::is_resolvable_flatpak_name("com.discordapp.DiscordDevelopment"));
    assert!(!linux::is_resolvable_flatpak_name("com.discordapp.Foo"));
    assert!(!linux::is_resolvable_flatpak_name("discordptb"));
    assert!(!linux::is_resolvable_flatpak_name("Discord"));
}

#[test]
fn linux_system_electron_install_is_classified() {
    let mut tree = FsTree::new();
    tree.mkdir("/usr/share/discord");
    tree.write_file("/usr/share/discord/app.asar", vec![0u8; 10]);
    let loc = linux::parse_discord_location(&tree, "/usr/share/discord");
    assert!(loc.is_system_electron);
    assert!(!loc.patched);
    tree.write_file("/usr/share/discord/_app.asar.unpacked", vec![1u8]);
    let loc = linux::parse_discord_location(&tree, "/usr/share/discord");
    assert!(loc.patched);
}

#[test]
fn linux_scan_root_list_is_fixed() {
    let roots = linux::get_scan_roots("/home/u");
    assert_eq!(
        roots,
        vec![
            "/usr/share".to_string(),
            "/usr/lib64".to_string(),
            "/opt".to_string(),
            "/home/u/.local/share".to_string(),
            "/home/u/.dvm".to_string(),
            "/var/lib/flatpak/app".to_string(),
            "/home/u/.local/share/flatpak/app".to_string(),
        ]
    );
    assert_eq!(linux::get_discord_location_names().len(), 15);
}

#[test]
fn mac_scan_accepts_only_bundles_with_resources() {
    let mut tree = FsTree::new();
    tree.mkdir("/Applications/Discord.app");
    tree.mkdir("/Applications/Discord.app/Contents/Resources");
    tree.mkdir("/Users/u/Applications/Discord PTB.app");
    let locations = mac::get_discord_locations(&tree, "/Users/u").unwrap();
    assert_eq!(locations.len(), 1);
    assert_eq!(locations[0].name, "Discord.app");
    assert_eq!(locations[0].path, "/Applications/Discord.app");
    assert_eq!(locations[0].branch, DiscordBranch::Stable);
    assert!(!locations[0].is_flatpak);
    assert!(!locations[0].is_system_electron);
}

#[test]
fn mac_parse_rejects_a_bundle_without_resources() {
    let mut tree = FsTree::new();
    tree.mkdir("/Applications/Discord.app");
    assert!(mac::parse_discord_location(&tree, "/Applications/Discord.app").is_none());
}

#[test]
fn mac_data_path_lives_under_application_support() {
    assert_eq!(
        mac::get_data_path("/Users/u", "Vencord"),
        "/Users/u/Library/Application Support/Vencord/dist"
    );
    assert_eq!(linux::get_data_path("/home/u", "Vencord"), "/home/u/.config/Vencord/dist");
    assert_eq!(
        windows::get_data_path("C:/Users/u/AppData/Roaming", "Vencord"),
        "C:/Users/u/AppData/Roaming/Vencord/dist"
    );
}

#[test]
fn resource_locations_per_platform() {
    assert_eq!(linux::get_discord_resource_location(), "resources");
    assert_eq!(mac::get_discord_resource_location(), "Contents/Resources");
    assert_eq!(windows::get_discord_resource_location(), "resources");
}

#[test]
fn windows_scan_picks_a_child_with_resources() {
    let mut tree = FsTree::new();
    tree.mkdir("/appdata/DiscordCanary");
    tree.mkdir("/appdata/DiscordCanary/app-1.0.45");
    tree.mkdir("/appdata/DiscordCanary/app-1.0.45/resources");
    let locations = windows::get_discord_locations(&tree, "/appdata").unwrap();
    assert_eq!(locations.len(), 1);
    assert_eq!(locations[0].name, "DiscordCanary");
    assert_eq!(locations[0].path, "/appdata/DiscordCanary/app-1.0.45");
    assert_eq!(locations[0].branch, DiscordBranch::Canary);
}

#[test]
fn windows_scan_skips_a_candidate_without_usable_children() {
    let mut tree = FsTree::new();
    tree.mkdir("/appdata/Discord");
    tree.mkdir("/appdata/Discord/app-1.0.1");
    assert!(windows::get_discord_locations(&tree, "/appdata").is_none());
}

#[test]
fn windows_parse_takes_the_greatest_usable_child() {
    let mut tree = FsTree::new();
    tree.mkdir("/appdata/Discord");
    tree.mkdir("/appdata/Discord/app-1.0.2");
    tree.mkdir("/appdata/Discord/app-1.0.2/resources");
    tree.mkdir("/appdata/Discord/app-1.0.3");
    tree.mkdir("/appdata/Discord/app-1.0.3/resources");
    let loc = windows::parse_discord_location(&tree, "/appdata/Discord").unwrap();
    assert_eq!(loc.path, "/appdata/Discord/app-1.0.3");
}

#[test]
fn windows_parse_orders_app_names_as_plain_strings() {
    let mut tree = FsTree::new();
    tree.mkdir("/appdata/Discord");
    tree.mkdir("/appdata/Discord/app-1.0.9");
    tree.mkdir("/appdata/Discord/app-1.0.9/resources");
    tree.mkdir("/appdata/Discord/app-1.0.10");
    tree.mkdir("/appdata/Discord/app-1.0.10/resources");
    let loc = windows::parse_discord_location(&tree, "/appdata/Discord").unwrap();
    // Plain string comparison, not version-aware: `app-1.0.9` wins over
    // `app-1.0.10`.
    assert_eq!(loc.path, "/appdata/Discord/app-1.0.9");
}

#[test]
fn windows_parse_ignores_children_without_the_app_prefix() {
    let mut tree = FsTree::new();
    tree.mkdir("/appdata/Discord");
    tree.mkdir("/appdata/Discord/packages");
    tree.mkdir("/appdata/Discord/packages/resources");
    assert!(windows::parse_discord_location(&tree, "/appdata/Discord").is_none());
}

#[test]
fn windows_parse_probes_the_chosen_child() {
    let mut tree = FsTree::new();
    tree.mkdir("/appdata/Discord");
    tree.mkdir("/appdata/Discord/app-1.0.3");
    tree.mkdir("/appdata/Discord/app-1.0.3/resources");
    tree.mkdir("/appdata/Discord/app-1.0.4");
    tree.mkdir("/appdata/Discord/app-1.0.4/resources");
    tree.write_file("/appdata/Discord/app-1.0.4/resources/_app.asar", vec![1u8]);
    let loc = windows::parse_discord_location(&tree, "/appdata/Discord").unwrap();
    assert_eq!(loc.path, "/appdata/Discord/app-1.0.4");
    assert!(loc.patched);
}

#[test]
fn windows_scuffed_path_is_program_data_username_name() {
    assert_eq!(
        windows::scuffed_install_path("C:/ProgramData", "u", "DiscordCanary"),
        "C:/ProgramData/u/DiscordCanary"
    );
}

#[test]
fn gui_windows_scan_prefers_the_greatest_app_name_as_plain_string() {
    let mut tree = FsTree::new();
    tree.mkdir("/appdata/Discord");
    tree.mkdir("/appdata/Discord/app-1.0.9");
    tree.mkdir("/appdata/Discord/app-1.0.9/resources");
    tree.mkdir("/appdata/Discord/app-1.0.10");
    tree.mkdir("/appdata/Discord/app-1.0.10/resources");
    let inst = logic::windows::parse_discord(&tree, "/appdata/Discord".to_string()).unwrap();
    // Plain string comparison, not version-aware: `app-1.0.9` wins over
    // `app-1.0.10`.
    assert_eq!(inst.app_path.as_deref(), Some("/appdata/Discord/app-1.0.9"));
}

#[test]
fn gui_windows_patch_flag_follows_the_chosen_child() {
    let mut tree = FsTree::new();
    tree.mkdir("/appdata/Discord");
    tree.mkdir("/appdata/Discord/app-1.0.3");
    tree.mkdir("/appdata/Discord/app-1.0.3/resources");
    tree.mkdir("/appdata/Discord/app-1.0.4");
    tree.mkdir("/appdata/Discord/app-1.0.4/resources");
    tree.write_file("/appdata/Discord/app-1.0.4/resources/_app.asar", vec![1u8]);
    let inst = logic::windows::parse_discord(&tree, "/appdata/Discord".to_string()).unwrap();
    assert_eq!(inst.app_path.as_deref(), Some("/appdata/Discord/app-1.0.4"));
    assert!(inst.is_patched);
}

#[test]
fn gui_windows_scan_without_children_reports_an_empty_app_path() {
    let mut tree = FsTree::new();
    tree.mkdir("/appdata/Discord");
    let inst = logic::windows::parse_discord(&tree, "/appdata/Discord".to_string()).unwrap();
    assert_eq!(inst.app_path.as_deref(), Some(""));
    assert!(!inst.is_patched);
    assert!(logic::windows::parse_discord(&tree, "/appdata/DiscordPTB".to_string()).is_none());
}

#[test]
fn gui_windows_ignores_children_without_the_app_prefix() {
    let mut tree = FsTree::new();
    tree.mkdir("/appdata/Discord");
    tree.mkdir("/appdata/Discord/packages");
    tree.mkdir("/appdata/Discord/packages/resources");
    let inst = logic::windows::parse_discord(&tree, "/appdata/Discord".to_string()).unwrap();
    assert_eq!(inst.app_path.as_deref(), Some(""));
}

#[test]
fn known_names_are_recognised() {
    assert!(logic::linux::is_discord_dir_name("com.discordapp.DiscordPTB"));
    assert!(logic::linux::is_discord_dir_name("discord-canary"));
    assert!(!logic::linux::is_discord_dir_name("Slack"));
    assert!(logic::windows::is_discord_dir_name("DiscordCanary"));
    assert!(!logic::windows::is_discord_dir_name("discord"));
}

#[test]
fn gui_linux_parse_resolves_flatpak_and_probes_resources() {
    let mut tree = FsTree::new();
    tree.mkdir(
        "/var/lib/flatpak/app/com.discordapp.DiscordPTB/current/active/files/discord-ptb/resources",
    );
    tree.write_file(
        "/var/lib/flatpak/app/com.discordapp.DiscordPTB/current/active/files/discord-ptb/resources/_app.asar",
        vec![1u8],
    );
    let inst = logic::linux::parse_discord(
        &tree,
        "/var/lib/flatpak/app/com.discordapp.DiscordPTB".to_string(),
    )
    .unwrap();
    assert_eq!(inst.path, "/var/lib/flatpak/app/com.discordapp.DiscordPTB");
    assert!(inst.is_flatpak);
    assert!(inst.is_patched);
    assert_eq!(inst.branch, logic::shared::DiscordBranch::PTB);
}

#[test]
fn gui_linux_parse_rejects_a_path_without_resources() {
    let mut tree = FsTree::new();
    tree.mkdir("/opt/Discord");
    assert!(logic::linux::parse_discord(&tree, "/opt/Discord".to_string()).is_none());
}

#[test]
fn gui_linux_parse_accepts_a_plain_name_under_a_flatpak_root() {
    let mut tree = FsTree::new();
    tree.mkdir("/var/lib/flatpak/app/discordptb/resources");
    let inst =
        logic::linux::parse_discord(&tree, "/var/lib/flatpak/app/discordptb".to_string()).unwrap();
    assert_eq!(inst.path, "/var/lib/flatpak/app/discordptb");
    assert!(inst.is_flatpak);
    assert!(!inst.is_patched);
}

#[test]
fn gui_linux_parse_accepts_an_already_resolved_flatpak_path() {
    let mut tree = FsTree::new();
    tree.mkdir("/var/lib/flatpak/app/com.discordapp.Discord/current/active/files/discord/resources");
    let inst = logic::linux::parse_discord(
        &tree,
        "/var/lib/flatpak/app/com.discordapp.Discord/current/active/files/discord".to_string(),
    )
    .unwrap();
    assert!(inst.is_flatpak);
    assert!(!inst.is_patched);
}
