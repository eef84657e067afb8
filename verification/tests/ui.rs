use etch::models::DeviceConnectionType;
use etch::monitor::WorkMessage;
use etch::ui::iso_browser::{get_distro_icon, icon_name};
use etch::ui::update::{check_release, check_tags, compare_versions, extract_download_url, UpdateCheck};
use etch::ui::window::{
    apply_message, begin_job, describe_error, device_line, error_kind, format_message, may_start,
    message_kind, recompute_action_state, selection_log, selection_prompt, sync_device_selection,
    update_action_area, version_info, ActionAreaState, AppState, ErrorKind, LabelTone, MessageKind,
    StatusDot,
};

fn state(iso: Option<&str>, device: Option<&str>, working: bool, action: ActionAreaState) -> AppState {
    AppState {
        selected_iso: iso.map(str::to_string),
        selected_device_path: device.map(str::to_string),
        is_working: working,
        action_state: action,
    }
}

#[test]
fn the_action_area_is_armed_when_both_are_chosen() {
    let mut s = state(Some("a.iso"), Some("/dev/sdb"), false, ActionAreaState::Idle);
    recompute_action_state(&mut s);
    assert_eq!(s.action_state, ActionAreaState::Armed);
    assert!(may_start(&s));
    let mut s = state(Some("a.iso"), None, false, ActionAreaState::Done);
    recompute_action_state(&mut s);
    assert_eq!(s.action_state, ActionAreaState::Idle);
    assert!(!may_start(&s));
    let mut s = state(None, Some("/dev/sdb"), false, ActionAreaState::Armed);
    recompute_action_state(&mut s);
    assert_eq!(s.action_state, ActionAreaState::Idle);
}

#[test]
fn a_running_job_keeps_the_action_area_and_bars_a_second() {
    let mut s = state(Some("a.iso"), Some("/dev/sdb"), true, ActionAreaState::Writing);
    recompute_action_state(&mut s);
    assert_eq!(s.action_state, ActionAreaState::Writing);
    assert!(!may_start(&s));
    assert!(!sync_device_selection(&mut s, Some("/dev/sdb".to_string())));
    assert!(sync_device_selection(&mut s, None));
    assert_eq!(s.action_state, ActionAreaState::Writing);
    assert_eq!(s.selected_device_path, None);
}

#[test]
fn messages_move_the_state_of_the_window() {
    let mut s = state(Some("a.iso"), Some("/dev/sdb"), true, ActionAreaState::Writing);
    assert!(!apply_message(&mut s, &WorkMessage::WriteProgress(1, 2, 3)));
    assert_eq!(s.action_state, ActionAreaState::Writing);
    assert!(!apply_message(&mut s, &WorkMessage::WriteComplete));
    assert_eq!(s.action_state, ActionAreaState::Verifying);
    assert!(s.is_working);
    assert!(!apply_message(&mut s, &WorkMessage::VerifyProgress(1, 2, 3)));
    assert!(apply_message(&mut s, &WorkMessage::VerifyComplete));
    assert_eq!(s.action_state, ActionAreaState::Done);
    assert!(!s.is_working);

    let mut s = state(Some("a.iso"), Some("/dev/sdb"), true, ActionAreaState::Verifying);
    assert!(apply_message(&mut s, &WorkMessage::Error("Helper error: x".to_string())));
    assert_eq!(s.action_state, ActionAreaState::Error("Helper error: x".to_string()));
    assert!(!s.is_working);
}

#[test]
fn a_choice_of_target_is_taken_in() {
    let mut s = state(Some("a.iso"), None, false, ActionAreaState::Idle);
    assert!(sync_device_selection(&mut s, Some("/dev/sdb".to_string())));
    assert_eq!(s.selected_device_path.as_deref(), Some("/dev/sdb"));
    assert_eq!(s.action_state, ActionAreaState::Armed);
    assert!(!sync_device_selection(&mut s, Some("/dev/sdb".to_string())));
    assert!(sync_device_selection(&mut s, Some("/dev/sdc".to_string())));
    assert!(sync_device_selection(&mut s, None));
    assert_eq!(s.action_state, ActionAreaState::Idle);
    assert!(!sync_device_selection(&mut s, None));
    assert_eq!(selection_log(Some("/dev/sdb")), "DEV_SELECTED=/dev/sdb");
    assert_eq!(selection_log(None), "DEV_SELECTED=NONE");
    assert_eq!(selection_prompt(true), "No removable devices detected");
    assert_eq!(selection_prompt(false), "Select device");
    assert_eq!(
        device_line("/dev/sdb", "SanDisk", "Cruzer", "15.4 GB", DeviceConnectionType::UsbHub),
        "/dev/sdb \u{b7} SanDisk Cruzer \u{b7} 15.4 GB \u{b7} USB Hub"
    );
}

#[test]
fn errors_are_sorted_by_what_they_tell_of() {
    assert_eq!(error_kind("Failed to launch pkexec: not found"), ErrorKind::Permission);
    assert_eq!(error_kind("permission denied"), ErrorKind::Permission);
    assert_eq!(error_kind("Device is mounted"), ErrorKind::Mounted);
    assert_eq!(error_kind("No space left on device"), ErrorKind::Space);
    assert_eq!(error_kind("disk full"), ErrorKind::Space);
    assert_eq!(
        error_kind("Helper error: Verification failed: data mismatch at byte offset 5. Source: 0x00, Target: 0x01"),
        ErrorKind::Verification
    );
    assert_eq!(error_kind("size mismatch"), ErrorKind::Verification);
    assert_eq!(error_kind("Helper exited with status: 1"), ErrorKind::Other);
    assert_eq!(error_kind("Permission denied"), ErrorKind::Other);
    // A write failure is not taken for a defect of the medium.
    assert_eq!(error_kind("Helper error: Failed to write to device"), ErrorKind::Other);
}

#[test]
fn errors_are_worded_for_the_user() {
    assert_eq!(
        describe_error("mounted"),
        "\u{26a0} USER ERROR: Device is mounted\\nDetails: mounted\\nSolution: Unmount all partitions first"
    );
    assert_eq!(
        describe_error("pkexec gone"),
        "\u{26a0} USER ERROR: Permission denied\\nDetails: pkexec gone\\nSolution: Ensure polkit is configured correctly"
    );
    assert_eq!(
        describe_error("No space"),
        "\u{26a0} USER ERROR: Insufficient space\\nDetails: No space\\nSolution: Use a larger device"
    );
    assert_eq!(
        describe_error("mismatch"),
        "\u{2717} VERIFICATION ERROR: Data mismatch detected\\nDetails: mismatch\\nCause: Device may be faulty or write operation interrupted"
    );
    assert_eq!(describe_error("boom"), "\u{2717} ERROR: boom");
}

#[test]
fn log_lines_are_told_apart_and_marked() {
    assert_eq!(message_kind("\u{2713} Write complete"), MessageKind::Success);
    assert_eq!(message_kind("download failed"), MessageKind::Error);
    assert_eq!(message_kind("failed but complete"), MessageKind::Success);
    assert_eq!(message_kind("WARNING: slow"), MessageKind::Warning);
    assert_eq!(message_kind("DEV_SELECTED=/dev/sdb"), MessageKind::Metadata);
    assert_eq!(message_kind("ISO=/a.iso"), MessageKind::Metadata);
    assert_eq!(message_kind("x DEV=1"), MessageKind::Default);
    assert_eq!(message_kind("INFO: Starting"), MessageKind::Info);
    assert_eq!(message_kind("hello"), MessageKind::Default);
    assert_eq!(MessageKind::Warning.tag_name(), "warning");
    assert_eq!(MessageKind::Default.tag_name(), "");

    assert_eq!(
        format_message("\u{2713} Write \u{2713}complete ", MessageKind::Success),
        "\u{2713} Write complete"
    );
    assert_eq!(format_message("  \u{2717} it failed", MessageKind::Error), "\u{2717} it failed");
    assert_eq!(format_message("\u{26a0}\u{26a0}", MessageKind::Warning), "\u{26a0} ");
    assert_eq!(
        format_message("INFO: Starting INFO:write", MessageKind::Info),
        "\u{25cf} Starting write"
    );
    assert_eq!(format_message("DEV=/dev/sdb", MessageKind::Metadata), "  DEV=/dev/sdb");
    assert_eq!(format_message(" as is ", MessageKind::Default), " as is ");
}

#[test]
fn the_action_area_looks_as_its_state_says() {
    let idle = update_action_area(&ActionAreaState::Idle);
    assert!(!idle.write_enabled && !idle.bar_visible);
    assert_eq!(idle.label, "Select ISO and target");
    assert_eq!(idle.dot, StatusDot::Idle);
    let armed = update_action_area(&ActionAreaState::Armed);
    assert!(armed.write_enabled && armed.bar_visible);
    assert_eq!((armed.label.as_str(), armed.bar_percent), ("Ready to write", Some(0)));
    let writing = update_action_area(&ActionAreaState::Writing);
    assert!(!writing.write_enabled);
    assert_eq!((writing.label.as_str(), writing.bar_percent, writing.dot), ("Writing...", None, StatusDot::Active));
    let verifying = update_action_area(&ActionAreaState::Verifying);
    assert_eq!((verifying.label.as_str(), verifying.clear_speed), ("Verifying...", false));
    let done = update_action_area(&ActionAreaState::Done);
    assert_eq!((done.label.as_str(), done.bar_percent, done.tone, done.dot), ("Done", Some(100), LabelTone::Success, StatusDot::Success));
    let failed = update_action_area(&ActionAreaState::Error("bad".to_string()));
    assert!(failed.write_enabled);
    assert_eq!((failed.label.as_str(), failed.bar_percent, failed.tone), ("bad", Some(0), LabelTone::Error));
}

#[test]
fn versions_compare_by_their_numbers() {
    assert!(compare_versions("v0.1.0", "v0.1.1"));
    assert!(compare_versions("v0.1.9", "v0.2.0"));
    assert!(compare_versions("0.9.9", "v1.0.0"));
    assert!(compare_versions("v1.2.3", "1.2.10"));
    assert!(!compare_versions("v1.2.3", "v1.2.3"));
    assert!(!compare_versions("v1.2.3", "v1.2.2"));
    assert!(!compare_versions("v2.0.0", "v1.9.9"));
    assert!(!compare_versions("v1.1.0", "v1.0.9"));
    // Further parts do not count; fewer than three parts are no version.
    assert!(compare_versions("v1.2.3.9", "v1.2.4.0"));
    assert!(!compare_versions("v1.2", "v1.3.0"));
    assert!(!compare_versions("v1.2.3", "v1.3"));
    assert!(!compare_versions("v1.2.3", "v1.3.0-beta"));
    assert!(!compare_versions("v1.2.3", "nightly"));
    assert!(compare_versions("vv1.2.3", "vvv1.2.4"));
    assert!(!compare_versions("v1.2.3", "v1.2.4294967296"));
    assert!(compare_versions("v1.2.3", "v1.2.4294967295"));
}

const RELEASE: &str = r#"{"tag_name": "v1.4.0", "name": "Etch 1.4", "assets": [{"name": "etch-x86_64", "browser_download_url": "https://example.org/releases/v1.4.0/etch-x86_64"}]}"#;

#[test]
fn the_download_address_is_found_among_the_assets() {
    assert_eq!(
        extract_download_url(RELEASE),
        Some("https://example.org/releases/v1.4.0/etch-x86_64".to_string())
    );
    assert_eq!(extract_download_url(r#"{"browser_download_url": "https://x/etch"}"#), None);
    assert_eq!(extract_download_url(r#"{"assets": []}"#), None);
    assert_eq!(
        extract_download_url(r#"{"assets": [{"browser_download_url": "https://x/other.zip"}]}"#),
        None
    );
    assert_eq!(
        extract_download_url(r#"{"assets": [{"browser_download_url": "https://x/etch"#),
        None
    );
    assert_eq!(
        extract_download_url(r#"{"assets": [{"browser_download_url":"https://x/etch"}]}"#),
        None
    );
    assert_eq!(extract_download_url(""), None);
}

#[test]
fn the_answers_of_the_release_server_are_read() {
    let newer = UpdateCheck::UpdateAvailable { tag: "v1.4.0".to_string() };
    assert_eq!(check_release(RELEASE, "1.3.9"), newer);
    assert_eq!(check_release(RELEASE, "1.4.0"), UpdateCheck::UpToDate);
    assert_eq!(check_release(RELEASE, "2.0.0"), UpdateCheck::UpToDate);
    assert_eq!(
        check_release(r#"{"message": "Not Found"}"#, "1.0.0"),
        UpdateCheck::Failed { reason: "No releases found" }
    );
    assert_eq!(
        check_release("{}", "1.0.0"),
        UpdateCheck::Failed { reason: "GitHub API returned unexpected format" }
    );
    assert_eq!(
        check_release(r#"{"tag_name":1}"#, "1.0.0"),
        UpdateCheck::Failed { reason: "Invalid GitHub API response format" }
    );
    assert_eq!(
        check_release(r#"{"tag_name": "v1"#, "1.0.0"),
        UpdateCheck::Failed { reason: "Failed to parse release version" }
    );

    assert_eq!(check_tags(" [] \n", "1.0.0"), UpdateCheck::NoReleases);
    assert_eq!(check_tags(r#"{"message": "rate limit"}"#, "1.0.0"), UpdateCheck::NoReleases);
    assert_eq!(
        check_tags(r#"[{"name": "v0.1.1", "commit": {}}, {"name": "v0.1.0"}]"#, "0.1.0"),
        UpdateCheck::UpdateAvailable { tag: "v0.1.1".to_string() }
    );
    assert_eq!(check_tags(r#"[{"name": "v0.1.1"}]"#, "0.1.1"), UpdateCheck::UpToDate);
    assert_eq!(
        check_tags("[1]", "0.1.1"),
        UpdateCheck::Failed { reason: "No tags found in response" }
    );
    assert_eq!(
        check_tags(r#"[{"name":"v1"}]"#, "0.1.1"),
        UpdateCheck::Failed { reason: "Invalid tags API response" }
    );
    assert_eq!(
        check_tags(r#"[{"name": "v1"#, "0.1.1"),
        UpdateCheck::Failed { reason: "Failed to parse tag name" }
    );
}

#[test]
fn the_version_text_names_the_channel() {
    assert_eq!(version_info("1.2.3", "main", "0123456789abcdef"), "1.2.3 \u{b7} STABLE (0123456)");
    assert_eq!(version_info("1.2.3", "master", "abc"), "1.2.3 \u{b7} STABLE (abc)");
    assert_eq!(version_info("1.2.3", "main-nightly-wings", "0123456"), "1.2.3 \u{b7} NIGHTLY (0123456)");
    assert_eq!(version_info("1.2.3", "feature-dev", ""), "1.2.3 \u{b7} DEV ()");
    assert_eq!(version_info("1.2.3", "topic", "01234567"), "1.2.3 \u{b7} topic (0123456)");
}

#[test]
fn one_job_runs_at_a_time() {
    let mut s = state(Some("a.iso"), Some("/dev/sdb"), false, ActionAreaState::Armed);
    assert!(begin_job(&mut s));
    assert!(s.is_working);
    assert_eq!(s.action_state, ActionAreaState::Writing);
    // A second job is refused while the first runs.
    let running = s.clone();
    assert!(!begin_job(&mut s));
    assert_eq!(s, running);
    let mut s = state(None, Some("/dev/sdb"), false, ActionAreaState::Idle);
    assert!(!begin_job(&mut s));
    assert!(!s.is_working);
}

#[test]
fn distributions_have_icons() {
    assert_eq!(get_distro_icon("Ubuntu-24.04-LTS"), Some("ubuntu"));
    assert_eq!(get_distro_icon("kubuntu-24.04"), Some("kubuntu"));
    assert_eq!(get_distro_icon("ubuntu-mate-24.04"), Some("ubuntumate"));
    assert_eq!(get_distro_icon("popos-22.04"), Some("popos"));
    assert_eq!(get_distro_icon("fedora-41"), Some("fedora"));
    assert_eq!(get_distro_icon("no-such-system"), None);
    assert_eq!(get_distro_icon(""), None);
    // The name is taken as it is where it is in lower case already.
    assert_eq!(icon_name("FEDORA"), None);
    assert_eq!(icon_name("fedora"), Some("fedora"));
}
