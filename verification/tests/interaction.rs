use komorebi_switcher::config::{MonitorConfig, WindowConfig};
use komorebi_switcher::host::{HostWindow, InteractionMode};
use komorebi_switcher::taskbar::Taskbar;
use komorebi_switcher::utils::Rect;

fn taskbar() -> Taskbar {
    Taskbar { hwnd: 7, rect: Rect { left: 0, top: 1040, right: 1920, bottom: 1080 } }
}

fn auto_host() -> HostWindow {
    let mut config = MonitorConfig::initial();
    config.width = 200;
    config.height = 40;
    HostWindow::new(11, taskbar(), String::from("M"), config)
}

fn geometry(x: i32, y: i32, width: i32, height: i32) -> WindowConfig {
    WindowConfig { x, y, width, height, auto_width: false, auto_height: false }
}

#[test]
fn auto_resize_tracks_content_while_idle() {
    let mut host = auto_host();
    let resized = host.auto_resize(48, 320);
    assert!(resized);
    assert_eq!(host.config.width, 320);
    assert_eq!(host.config.height, 48);
    // Same content again: nothing changes, nothing to persist.
    assert!(!host.auto_resize(48, 320));
}

#[test]
fn auto_resize_respects_fixed_dimensions() {
    let mut host = auto_host();
    host.config.auto_width = false;
    host.config.width = 250;
    let resized = host.auto_resize(48, 320);
    assert!(resized);
    assert_eq!(host.config.width, 250);
    assert_eq!(host.config.height, 48);
}

#[test]
fn drag_suspends_auto_resize() {
    let mut host = auto_host();
    host.start_move_resize(true);
    assert_eq!(host.mode, InteractionMode::PendingDrag);

    // Content changes while the gesture is pending: no resize happens.
    assert!(!host.auto_resize(48, 500));
    assert_eq!(host.config.width, 200);
    assert_eq!(host.config.height, 40);

    // The gesture goes live; automatic resizing stays suspended.
    host.apply_preview(geometry(10, 0, 300, 40));
    assert_eq!(host.mode, InteractionMode::Dragging);
    assert!(!host.auto_resize(48, 500));
    assert_eq!(host.config.width, 200);
}

#[test]
fn commit_makes_preview_the_new_baseline() {
    let mut host = auto_host();
    host.start_move_resize(true);
    host.apply_preview(geometry(10, 0, 300, 40));
    let mut committed = geometry(10, 0, 300, 40);
    committed.auto_height = true;
    let saved = host.commit_drag(committed);
    assert_eq!(host.mode, InteractionMode::Idle);
    assert_eq!(host.preview, None);
    assert_eq!(saved.width, 300);
    assert!(!saved.auto_width);

    // Automatic resizing resumes from the committed geometry: width is now
    // fixed at 300, height follows the taskbar again.
    let resized = host.auto_resize(48, 999);
    assert!(resized);
    assert_eq!(host.config.width, 300);
    assert_eq!(host.config.height, 48);
}

#[test]
fn cancel_discards_preview_and_keeps_settings() {
    let mut host = auto_host();
    host.start_move_resize(true);
    host.apply_preview(geometry(50, 0, 777, 33));
    host.cancel_drag();
    assert_eq!(host.mode, InteractionMode::Idle);
    assert_eq!(host.preview, None);
    assert_eq!(host.config.width, 200);
    assert_eq!(host.config.height, 40);
}

#[test]
fn failed_session_start_falls_back_to_idle() {
    let mut host = auto_host();
    host.start_move_resize(false);
    assert_eq!(host.mode, InteractionMode::Idle);
    // Automatic resizing is not left suspended.
    assert!(host.auto_resize(48, 320));
    assert_eq!(host.config.width, 320);
}

#[test]
fn preview_frames_are_ignored_while_idle() {
    let mut host = auto_host();
    host.apply_preview(geometry(1, 2, 3, 4));
    assert_eq!(host.mode, InteractionMode::Idle);
    assert_eq!(host.preview, None);
}

#[test]
fn displayed_geometry_prefers_live_preview() {
    let mut host = auto_host();
    assert_eq!(host.displayed_geometry().width, 200);
    host.start_move_resize(true);
    host.apply_preview(geometry(10, 0, 300, 40));
    assert_eq!(host.displayed_geometry().width, 300);
    host.cancel_drag();
    assert_eq!(host.displayed_geometry().width, 200);
}

#[test]
fn creation_config_without_stored_entry() {
    let c = HostWindow::creation_config(None, 48);
    assert_eq!(c.x, 16);
    assert_eq!(c.width, 200);
    assert_eq!(c.height, 48);
    assert!(c.auto_width);
}

#[test]
fn creation_config_with_fixed_height() {
    let mut stored = MonitorConfig::initial();
    stored.auto_height = false;
    stored.height = 60;
    let c = HostWindow::creation_config(Some(&stored), 48);
    assert_eq!(c.height, 60);
}
