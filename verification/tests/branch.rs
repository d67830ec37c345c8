use libvencord::logic::shared::DiscordBranch as GuiBranch;
use libvencord::paths::branch::DiscordBranch;

#[test]
fn canary_name_maps_to_canary() {
    assert_eq!(DiscordBranch::from_path("DiscordCanary"), DiscordBranch::Canary);
}

#[test]
fn ptb_name_maps_to_ptb() {
    assert_eq!(DiscordBranch::from_path("DiscordPTB"), DiscordBranch::PTB);
}

#[test]
fn lowercase_ptb_name_is_stable_under_case_sensitive_matching() {
    assert_eq!(DiscordBranch::from_path("discord-ptb"), DiscordBranch::Stable);
}

#[test]
fn plain_name_maps_to_stable() {
    assert_eq!(DiscordBranch::from_path("Discord"), DiscordBranch::Stable);
}

#[test]
fn development_name_maps_to_development() {
    assert_eq!(DiscordBranch::from_path("DiscordDevelopment"), DiscordBranch::Development);
}

#[test]
fn canary_beats_development_and_ptb() {
    assert_eq!(DiscordBranch::from_path("PTBDevelopmentCanary"), DiscordBranch::Canary);
}

#[test]
fn development_beats_ptb() {
    assert_eq!(DiscordBranch::from_path("PTBDevelopment"), DiscordBranch::Development);
}

#[test]
fn branch_matching_is_case_sensitive() {
    assert_eq!(DiscordBranch::from_path("discordcanary"), DiscordBranch::Stable);
}

#[test]
fn branch_labels() {
    assert_eq!(DiscordBranch::Canary.label(), "Canary");
    assert_eq!(DiscordBranch::Development.label(), "Development");
    assert_eq!(DiscordBranch::PTB.label(), "PTB");
    assert_eq!(DiscordBranch::Stable.label(), "Stable");
}

#[test]
fn filename_branch_folds_case() {
    assert_eq!(GuiBranch::from_filename("DiscordPTB"), GuiBranch::PTB);
    assert_eq!(GuiBranch::from_filename("discordcanary"), GuiBranch::Canary);
    assert_eq!(GuiBranch::from_filename("Discord"), GuiBranch::Stable);
}

#[test]
fn filename_branch_ptb_suffix_wins() {
    assert_eq!(GuiBranch::from_filename("canaryptb"), GuiBranch::PTB);
}

#[test]
fn gui_branch_sort_order() {
    assert!(GuiBranch::Stable < GuiBranch::Canary);
    assert!(GuiBranch::Canary < GuiBranch::PTB);
}
