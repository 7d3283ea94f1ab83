//! Tests for the launcher's decision logic: flag derivation, backend
//! directory derivation, spawn-command construction, and the
//! window-initialization plan.

use shell_launcher::backend::{
    backend_command, backend_dir, plan_backend_start, render_path, DirPath, Platform,
    STARTUP_GRACE_SECS,
};
use shell_launcher::config::get_config_flags;
use shell_launcher::shell::{backend_autostart, setup_plan, BuildMode, SetupAction};

fn dir(parts: &[&str]) -> DirPath {
    DirPath { components: parts.iter().map(|p| p.to_string()).collect() }
}

#[test]
fn config_all_presence_combinations() {
    let set = || Some("1".to_string());
    let r = get_config_flags(None, None);
    assert_eq!((r.skip_config, r.clean_state), (false, false));
    let r = get_config_flags(set(), None);
    assert_eq!((r.skip_config, r.clean_state), (true, false));
    let r = get_config_flags(None, set());
    assert_eq!((r.skip_config, r.clean_state), (false, true));
    let r = get_config_flags(set(), set());
    assert_eq!((r.skip_config, r.clean_state), (true, true));
}

#[test]
fn config_presence_not_value() {
    // The empty string still counts as set, and the contents never matter.
    let r = get_config_flags(Some(String::new()), None);
    assert!(r.skip_config);
    assert!(!r.clean_state);
    let r = get_config_flags(Some("no".to_string()), Some(String::new()));
    assert!(r.skip_config);
    assert!(r.clean_state);
}

#[test]
fn config_unset_yields_false_pair() {
    let r = get_config_flags(None, None);
    assert!(!r.skip_config);
    assert!(!r.clean_state);
}

#[test]
fn backend_dir_from_repo_layout() {
    // /a/b/backend_frontend/src-tauri -> /a/b/backend
    let cwd = dir(&["a", "b", "backend_frontend", "src-tauri"]);
    let derived = backend_dir(&cwd).expect("two ancestor levels exist");
    assert_eq!(derived.components, vec!["a".to_string(), "b".to_string(), "backend".to_string()]);
    assert_eq!(render_path(&derived), "/a/b/backend");
}

#[test]
fn backend_dir_too_shallow_fails() {
    assert!(backend_dir(&dir(&["a"])).is_none());
    assert!(backend_dir(&dir(&[])).is_none());
    assert!(plan_backend_start(Platform::Unix, &dir(&["a"])).is_none());
}

#[test]
fn backend_dir_exactly_two_levels() {
    let derived = backend_dir(&dir(&["x", "y"])).expect("exactly two ancestor levels");
    assert_eq!(derived.components, vec!["backend".to_string()]);
    assert_eq!(render_path(&derived), "/backend");
}

#[test]
fn unix_command_exact() {
    let cwd = dir(&["a", "b", "backend_frontend", "src-tauri"]);
    let cmd = plan_backend_start(Platform::Unix, &cwd).expect("layout fits");
    assert_eq!(cmd.program, "bash");
    assert_eq!(cmd.flag, "-c");
    assert_eq!(
        cmd.command_line,
        "cd /a/b/backend && source venv-test/bin/activate && python main.py"
    );
}

#[test]
fn windows_command_exact() {
    let backend = dir(&["a", "b", "backend"]);
    let cmd = backend_command(Platform::Windows, &backend);
    assert_eq!(cmd.program, "cmd");
    assert_eq!(cmd.flag, "/C");
    assert_eq!(
        cmd.command_line,
        "cd /a/b/backend && venv-test\\Scripts\\activate && python main.py"
    );
}

#[test]
fn setup_plan_development_with_window() {
    let plan = setup_plan(BuildMode::Development, true);
    assert_eq!(
        plan,
        vec![
            SetupAction::AttachLogSink,
            SetupAction::ShowWindow,
            SetupAction::CenterWindow,
            SetupAction::FocusWindow,
            SetupAction::OpenDevtools,
        ]
    );
}

#[test]
fn setup_plan_production_show_center_focus_only() {
    let plan = setup_plan(BuildMode::Production, true);
    assert_eq!(
        plan,
        vec![SetupAction::ShowWindow, SetupAction::CenterWindow, SetupAction::FocusWindow]
    );
    assert!(!plan.contains(&SetupAction::OpenDevtools));
}

#[test]
fn setup_plan_absent_window_skips_window_ops() {
    let dev = setup_plan(BuildMode::Development, false);
    assert_eq!(dev, vec![SetupAction::AttachLogSink, SetupAction::WarnMissingWindow]);
    let prod = setup_plan(BuildMode::Production, false);
    assert_eq!(prod, vec![SetupAction::WarnMissingWindow]);
    for plan in [dev, prod] {
        for action in &plan {
            assert!(!matches!(
                action,
                SetupAction::ShowWindow
                    | SetupAction::CenterWindow
                    | SetupAction::FocusWindow
                    | SetupAction::OpenDevtools
            ));
        }
    }
}

#[test]
fn grace_period_is_three_seconds() {
    assert_eq!(STARTUP_GRACE_SECS, 3);
}

#[test]
fn backend_autostart_development_only() {
    assert!(backend_autostart(BuildMode::Development));
    assert!(!backend_autostart(BuildMode::Production));
}
