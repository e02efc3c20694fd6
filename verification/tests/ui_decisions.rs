//! Launch planning, teardown planning and the UI-facing decisions.

use sidecar_supervisor::fspath::FsPath;
use sidecar_supervisor::launcher::{
    build_launch_plan, force_kill_target, Platform, StreamMode, CREATE_NO_WINDOW,
    DETACHED_PROCESS,
};
use sidecar_supervisor::payloads::{
    DownloadRequest, ExtractAudioResult, FetchDataRequest, FileStat,
};
use sidecar_supervisor::resolver::{LaunchMode, ResolvedLocation};
use sidecar_supervisor::tray::{
    close_request_action, get_close_action, set_close_action, tray_menu_action,
    CloseRequestAction, CloseSettings, TrayDirective, TrayMenuAction, TrayUpdateError,
};
use sidecar_supervisor::window_effect::{window_effect_plan, EffectPlan};

fn path_of(parts: &[&str]) -> FsPath {
    FsPath {
        parts: parts.iter().map(|p| p.to_string()).collect(),
    }
}

#[test]
fn production_plan_on_windows_hides_the_console() {
    let loc = ResolvedLocation {
        artifact: path_of(&["install", "binaries", "backend_server.exe"]),
        mode: LaunchMode::Production,
    };
    let exe_dir = path_of(&["install"]);
    let plan = build_launch_plan(&loc, &exe_dir, Platform::Windows);
    assert!(plan.interpreter.is_none());
    assert_eq!(plan.artifact, path_of(&["install", "binaries", "backend_server.exe"]));
    assert_eq!(plan.working_dir, path_of(&["install", "binaries"]));
    assert_eq!(plan.stdin, StreamMode::Inherit);
    assert_eq!(plan.stdout, StreamMode::Discard);
    assert_eq!(plan.stderr, StreamMode::Discard);
    assert_eq!(plan.creation_flags, CREATE_NO_WINDOW);
    assert_eq!(plan.creation_flags, 0x0800_0000);
}

#[test]
fn production_plan_elsewhere_sets_no_flags() {
    let loc = ResolvedLocation {
        artifact: path_of(&["install", "backend_server.exe"]),
        mode: LaunchMode::Production,
    };
    let exe_dir = path_of(&["install"]);
    let plan = build_launch_plan(&loc, &exe_dir, Platform::Other);
    assert!(plan.interpreter.is_none());
    assert_eq!(plan.working_dir, path_of(&["install"]));
    assert_eq!(plan.stdout, StreamMode::Discard);
    assert_eq!(plan.stderr, StreamMode::Discard);
    assert_eq!(plan.creation_flags, 0);
}

#[test]
fn development_plan_on_windows_detaches_and_discards() {
    let loc = ResolvedLocation {
        artifact: path_of(&["repo", "parser-service", "main.py"]),
        mode: LaunchMode::Development,
    };
    let exe_dir = path_of(&["repo", "src-tauri", "target", "debug"]);
    let plan = build_launch_plan(&loc, &exe_dir, Platform::Windows);
    assert_eq!(plan.interpreter.as_deref(), Some("python"));
    assert_eq!(plan.working_dir, path_of(&["repo", "parser-service"]));
    assert_eq!(plan.stdin, StreamMode::Discard);
    assert_eq!(plan.stdout, StreamMode::Discard);
    assert_eq!(plan.stderr, StreamMode::Discard);
    assert_eq!(plan.creation_flags, CREATE_NO_WINDOW | DETACHED_PROCESS);
    assert_eq!(plan.creation_flags, 0x0800_0008);
}

#[test]
fn development_plan_elsewhere_keeps_diagnostics_piped() {
    let loc = ResolvedLocation {
        artifact: path_of(&["repo", "parser-service", "main.py"]),
        mode: LaunchMode::Development,
    };
    let exe_dir = path_of(&["repo", "src-tauri", "target", "debug"]);
    let plan = build_launch_plan(&loc, &exe_dir, Platform::Other);
    assert_eq!(plan.interpreter.as_deref(), Some("python"));
    assert_eq!(plan.stdin, StreamMode::Inherit);
    assert_eq!(plan.stdout, StreamMode::Piped);
    assert_eq!(plan.stderr, StreamMode::Piped);
    assert_eq!(plan.creation_flags, 0);
}

#[test]
fn shallow_artifact_falls_back_to_the_executable_directory() {
    let loc = ResolvedLocation {
        artifact: path_of(&["backend_server.exe"]),
        mode: LaunchMode::Production,
    };
    let exe_dir = path_of(&["install"]);
    let plan = build_launch_plan(&loc, &exe_dir, Platform::Other);
    assert_eq!(plan.working_dir, path_of(&["install"]));
}

#[test]
fn forced_kill_by_name_happens_on_windows_only() {
    assert_eq!(
        force_kill_target(Platform::Windows).as_deref(),
        Some("backend_server.exe")
    );
    assert!(force_kill_target(Platform::Other).is_none());
}

#[test]
fn close_action_starts_empty_and_means_exit() {
    let settings = CloseSettings::new();
    assert_eq!(get_close_action(&settings), "");
    assert_eq!(
        close_request_action(&settings),
        CloseRequestAction::ShutdownAndClose
    );
}

#[test]
fn minimize_setting_shows_the_tray_and_hides_the_window() {
    let mut settings = CloseSettings::new();
    let directive = set_close_action(&mut settings, "minimize".to_string(), true);
    assert_eq!(directive, Ok(TrayDirective::ShowWithMenu));
    assert_eq!(get_close_action(&settings), "minimize");
    assert_eq!(close_request_action(&settings), CloseRequestAction::HideToTray);
}

#[test]
fn exit_setting_hides_the_tray_and_closes_for_real() {
    let mut settings = CloseSettings::new();
    set_close_action(&mut settings, "minimize".to_string(), true).unwrap();
    let directive = set_close_action(&mut settings, "exit".to_string(), true);
    assert_eq!(directive, Ok(TrayDirective::Hide));
    assert_eq!(
        close_request_action(&settings),
        CloseRequestAction::ShutdownAndClose
    );
}

#[test]
fn close_action_is_stored_even_without_a_tray() {
    let mut settings = CloseSettings::new();
    let directive = set_close_action(&mut settings, "minimize".to_string(), false);
    assert_eq!(directive, Err(TrayUpdateError::TrayUnavailable));
    assert_eq!(get_close_action(&settings), "minimize");
}

#[test]
fn tray_menu_entries_map_to_their_actions() {
    assert_eq!(tray_menu_action(&"show".to_string()), TrayMenuAction::ShowWindow);
    assert_eq!(tray_menu_action(&"quit".to_string()), TrayMenuAction::Quit);
    assert_eq!(tray_menu_action(&"other".to_string()), TrayMenuAction::Ignore);
}

#[test]
fn window_effects_apply_only_where_supported() {
    assert_eq!(
        window_effect_plan(&"mica".to_string(), true, Platform::Windows),
        EffectPlan::ApplyMica { dark: true }
    );
    assert_eq!(
        window_effect_plan(&"none".to_string(), false, Platform::Windows),
        EffectPlan::ClearOnly
    );
    assert_eq!(
        window_effect_plan(&"mica".to_string(), true, Platform::Other),
        EffectPlan::Unsupported
    );
}

#[test]
fn payloads_carry_their_fields() {
    let download = DownloadRequest {
        url: "https://example.net/video".to_string(),
        filename: "video.mp4".to_string(),
        save_dir: "downloads".to_string(),
        referer: Some("https://example.net".to_string()),
        origin: None,
    };
    assert_eq!(download.filename, "video.mp4");
    assert_eq!(download.referer.as_deref(), Some("https://example.net"));

    let fetch = FetchDataRequest {
        url: "https://example.net/audio".to_string(),
        referer: None,
        origin: None,
    };
    assert!(fetch.origin.is_none());

    let stat = FileStat { size: 1024 };
    assert_eq!(stat.size, 1024);

    let extracted = ExtractAudioResult {
        audio_path: "temp/extracted_1.mp3".to_string(),
    };
    assert_eq!(extracted.audio_path, "temp/extracted_1.mp3");
}
