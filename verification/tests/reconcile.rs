use komorebi_switcher::app::{App, AppMessage};
use komorebi_switcher::config::Config;
use komorebi_switcher::komorebi::{Monitor, State, Workspace};
use komorebi_switcher::taskbar::{discover_taskbars, find_taskbar_for_monitor, Taskbar, WindowInfo};
use komorebi_switcher::utils::Rect;

fn rect(left: i32, top: i32, right: i32, bottom: i32) -> Rect {
    Rect { left, top, right, bottom }
}

fn workspace(index: usize, focused: bool) -> Workspace {
    Workspace {
        index,
        name: format!("ws{}", index),
        layout: String::from("bsp"),
        focused,
        is_empty: false,
    }
}

fn monitor(id: &str, rect: Rect) -> Monitor {
    Monitor {
        id: String::from(id),
        name: format!("monitor-{}", id),
        index: 0,
        rect,
        workspaces: vec![workspace(0, true), workspace(1, false)],
    }
}

fn taskbar_for(offset: i32, hwnd: isize) -> Taskbar {
    Taskbar { hwnd, rect: rect(offset, 1040, offset + 1920, 1080) }
}

fn monitor_rect(offset: i32) -> Rect {
    rect(offset, 0, offset + 1920, 1080)
}

#[test]
fn discovery_filters_by_class_and_readable_rect() {
    let windows = vec![
        WindowInfo {
            hwnd: 1,
            class_name: String::from("Shell_TrayWnd"),
            rect: Some(rect(0, 1040, 1920, 1080)),
        },
        WindowInfo { hwnd: 2, class_name: String::from("Notepad"), rect: Some(rect(0, 0, 5, 5)) },
        WindowInfo { hwnd: 3, class_name: String::from("Shell_SecondaryTrayWnd"), rect: None },
        WindowInfo {
            hwnd: 4,
            class_name: String::from("Shell_SecondaryTrayWnd"),
            rect: Some(rect(1920, 1040, 3840, 1080)),
        },
    ];
    let taskbars = discover_taskbars(&windows);
    assert_eq!(taskbars.len(), 2);
    assert_eq!(taskbars[0].hwnd, 1);
    assert_eq!(taskbars[1].hwnd, 4);
}

#[test]
fn taskbar_class_names() {
    assert!(Taskbar::is_taskbar(&String::from("Shell_TrayWnd")));
    assert!(Taskbar::is_taskbar(&String::from("Shell_SecondaryTrayWnd")));
    assert!(!Taskbar::is_taskbar(&String::from("Shell_TrayWnd2")));
    assert!(!Taskbar::is_taskbar(&String::from("")));
}

#[test]
fn find_taskbar_picks_first_match() {
    let taskbars =
        vec![taskbar_for(1920, 21), taskbar_for(0, 22), Taskbar { hwnd: 23, rect: rect(0, 1040, 1920, 1080) }];
    let found = find_taskbar_for_monitor(&taskbars, monitor_rect(0)).unwrap();
    assert_eq!(found.hwnd, 22);
    assert!(find_taskbar_for_monitor(&taskbars, monitor_rect(9000)).is_none());
}

#[test]
fn reconcile_creates_one_host_per_monitor_with_taskbar() {
    let mut app = App::new(Config::default(), State { monitors: vec![] });
    let taskbars = vec![taskbar_for(0, 21), taskbar_for(1920, 22)];
    let snapshot = State {
        monitors: vec![monitor("A", monitor_rect(0)), monitor("B", monitor_rect(1920))],
    };
    app.reconcile(snapshot, &taskbars, &vec![101, 102]);
    assert_eq!(app.hosts.len(), 2);
    assert_eq!(app.hosts[0].monitor_id, "A");
    assert_eq!(app.hosts[0].hwnd, 101);
    assert_eq!(app.hosts[0].taskbar.hwnd, 21);
    assert_eq!(app.hosts[1].monitor_id, "B");
    assert_eq!(app.hosts[1].hwnd, 102);
    assert_eq!(app.hosts[1].taskbar.hwnd, 22);
}

#[test]
fn reconcile_skips_monitor_without_taskbar() {
    let mut app = App::new(Config::default(), State { monitors: vec![] });
    let taskbars = vec![taskbar_for(0, 21)];
    let snapshot = State {
        monitors: vec![monitor("A", monitor_rect(0)), monitor("B", monitor_rect(1920))],
    };
    app.reconcile(snapshot, &taskbars, &vec![101]);
    assert_eq!(app.hosts.len(), 1);
    assert_eq!(app.hosts[0].monitor_id, "A");
}

#[test]
fn reconcile_twice_with_same_snapshot_changes_nothing() {
    let mut app = App::new(Config::default(), State { monitors: vec![] });
    let taskbars = vec![taskbar_for(0, 21), taskbar_for(1920, 22)];
    let snapshot = State {
        monitors: vec![monitor("A", monitor_rect(0)), monitor("B", monitor_rect(1920))],
    };
    app.reconcile(snapshot, &taskbars, &vec![101, 102]);
    let hwnds_before: Vec<isize> = app.hosts.iter().map(|h| h.hwnd).collect();

    let snapshot_again = State {
        monitors: vec![monitor("A", monitor_rect(0)), monitor("B", monitor_rect(1920))],
    };
    app.reconcile(snapshot_again, &taskbars, &vec![]);
    let hwnds_after: Vec<isize> = app.hosts.iter().map(|h| h.hwnd).collect();
    assert_eq!(hwnds_before, hwnds_after);
    assert_eq!(app.hosts.len(), 2);
}

#[test]
fn reconcile_prunes_vanished_and_creates_new() {
    let mut app = App::new(Config::default(), State { monitors: vec![] });
    let taskbars = vec![taskbar_for(0, 21), taskbar_for(1920, 22), taskbar_for(3840, 23)];
    let first = State {
        monitors: vec![monitor("A", monitor_rect(0)), monitor("B", monitor_rect(1920))],
    };
    app.reconcile(first, &taskbars, &vec![101, 102]);

    let second = State {
        monitors: vec![monitor("B", monitor_rect(1920)), monitor("C", monitor_rect(3840))],
    };
    app.reconcile(second, &taskbars, &vec![103]);

    assert_eq!(app.hosts.len(), 2);
    // B is untouched: same host window handle as before.
    assert_eq!(app.hosts[0].monitor_id, "B");
    assert_eq!(app.hosts[0].hwnd, 102);
    // A destroyed, C created with the fresh handle.
    assert_eq!(app.hosts[1].monitor_id, "C");
    assert_eq!(app.hosts[1].hwnd, 103);
}

#[test]
fn recreate_rebuilds_every_host() {
    let mut app = App::new(Config::default(), State { monitors: vec![] });
    let taskbars = vec![taskbar_for(0, 21)];
    app.reconcile(
        State { monitors: vec![monitor("A", monitor_rect(0))] },
        &taskbars,
        &vec![101],
    );
    app.recreate(&taskbars, &vec![201]);
    assert_eq!(app.hosts.len(), 1);
    assert_eq!(app.hosts[0].monitor_id, "A");
    assert_eq!(app.hosts[0].hwnd, 201);
}

#[test]
fn taskbar_recreated_message_rebuilds_hosts() {
    let mut app = App::new(Config::default(), State { monitors: vec![] });
    let taskbars = vec![taskbar_for(0, 21)];
    app.handle_app_message(
        AppMessage::UpdateKomorebiState(State { monitors: vec![monitor("A", monitor_rect(0))] }),
        &taskbars,
        &vec![101],
    );
    assert_eq!(app.hosts.len(), 1);
    let save = app.handle_app_message(AppMessage::TaskbarRecreated, &taskbars, &vec![301]);
    assert!(!save);
    assert_eq!(app.hosts.len(), 1);
    assert_eq!(app.hosts[0].hwnd, 301);
}

#[test]
fn close_window_message_removes_only_that_host() {
    let mut app = App::new(Config::default(), State { monitors: vec![] });
    let taskbars = vec![taskbar_for(0, 21), taskbar_for(1920, 22)];
    app.reconcile(
        State { monitors: vec![monitor("A", monitor_rect(0)), monitor("B", monitor_rect(1920))] },
        &taskbars,
        &vec![101, 102],
    );
    app.handle_app_message(AppMessage::CloseWindow(String::from("A")), &taskbars, &vec![]);
    assert_eq!(app.hosts.len(), 1);
    assert_eq!(app.hosts[0].monitor_id, "B");
}

#[test]
fn preview_config_messages_set_and_clear_the_preview() {
    let mut app = App::new(Config::default(), State { monitors: vec![] });
    let taskbars: Vec<Taskbar> = vec![];
    let mut preview = Config::default();
    preview.show_layout_button = true;
    app.handle_app_message(AppMessage::PreviewConfig(preview), &taskbars, &vec![]);
    assert!(app.preview.is_some());
    assert!(app.preview.as_ref().unwrap().show_layout_button);
    app.handle_app_message(AppMessage::ClearPreviewConfig, &taskbars, &vec![]);
    assert!(app.preview.is_none());
}

#[test]
fn update_window_config_message_stores_and_asks_to_save() {
    let mut app = App::new(Config::default(), State { monitors: vec![] });
    let taskbars: Vec<Taskbar> = vec![];
    let mut cfg = komorebi_switcher::config::MonitorConfig::initial();
    cfg.width = 555;
    let save = app.handle_app_message(
        AppMessage::UpdateWindowConfig { monitor_id: String::from("A"), config: cfg },
        &taskbars,
        &vec![],
    );
    assert!(save);
    assert_eq!(app.config.get(&String::from("A")).unwrap().width, 555);
}

#[test]
fn created_host_uses_stored_config_and_taskbar_height() {
    let mut config = Config::default();
    let mut stored = komorebi_switcher::config::MonitorConfig::initial();
    stored.x = 30;
    stored.width = 444;
    stored.auto_width = false;
    stored.auto_height = true;
    stored.height = 999;
    config.set(String::from("A"), stored);

    let mut app = App::new(config, State { monitors: vec![] });
    let taskbars = vec![taskbar_for(0, 21)];
    app.reconcile(State { monitors: vec![monitor("A", monitor_rect(0))] }, &taskbars, &vec![101]);
    let host = &app.hosts[0];
    assert_eq!(host.config.x, 30);
    assert_eq!(host.config.width, 444);
    // auto_height: created at the taskbar's current height, not the stored one.
    assert_eq!(host.config.height, 40);
}

#[test]
fn gesture_routing_for_unknown_monitor_does_nothing() {
    let mut app = App::new(Config::default(), State { monitors: vec![] });
    let taskbars = vec![taskbar_for(0, 21)];
    app.reconcile(State { monitors: vec![monitor("A", monitor_rect(0))] }, &taskbars, &vec![101]);
    let ghost_id = String::from("nope");
    assert!(!app.start_move_resize(&ghost_id, true));
    assert!(app.commit_move_resize(&ghost_id, app.hosts[0].displayed_geometry()).is_none());
    assert!(!app.cancel_move_resize(&ghost_id));
    assert!(!app.auto_resize(&ghost_id, 40, 500));
    assert!(!app.remove_host(&ghost_id));
    assert_eq!(app.hosts.len(), 1);
}

#[test]
fn cancel_message_reverts_to_committed_geometry() {
    let mut app = App::new(Config::default(), State { monitors: vec![] });
    let taskbars = vec![taskbar_for(0, 21)];
    app.reconcile(State { monitors: vec![monitor("A", monitor_rect(0))] }, &taskbars, &vec![101]);
    let id = String::from("A");
    app.handle_app_message(
        AppMessage::StartMoveResize { monitor_id: id.clone(), session_started: true },
        &taskbars,
        &vec![],
    );
    let mut preview = app.hosts[0].displayed_geometry();
    preview.width = 777;
    app.apply_preview(&id, preview);
    assert_eq!(app.hosts[0].displayed_geometry().width, 777);
    app.handle_app_message(AppMessage::CancelMoveResize(id.clone()), &taskbars, &vec![]);
    assert_eq!(app.hosts[0].displayed_geometry().width, 200);
    // The persisted configuration was never touched.
    assert!(app.config.get(&id).is_none());
}

#[test]
fn menu_ids_list_monitors_with_live_switchers() {
    let mut app = App::new(Config::default(), State { monitors: vec![] });
    let taskbars = vec![taskbar_for(0, 21)];
    // B has no matching taskbar, so only A gets a switcher.
    let snapshot = State {
        monitors: vec![monitor("A", monitor_rect(0)), monitor("B", monitor_rect(9000))],
    };
    app.reconcile(snapshot, &taskbars, &vec![101]);
    let ids = app.switcher_menu_ids();
    assert_eq!(ids, vec![String::from("monitor-A-A")]);
}

#[test]
fn monitor_state_helpers() {
    let state = State { monitors: vec![monitor("A", monitor_rect(0))] };
    assert!(state.has_monitor(&String::from("A")));
    assert!(!state.has_monitor(&String::from("B")));
    let m = monitor("A", monitor_rect(0));
    assert_eq!(m.focused_workspace(), Some(0));
    let mut unfocused = monitor("A", monitor_rect(0));
    for w in unfocused.workspaces.iter_mut() {
        w.focused = false;
    }
    assert_eq!(unfocused.focused_workspace(), None);
}
