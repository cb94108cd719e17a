//! The full lifecycle of one switcher, driven through the reconciler's
//! message entry point the way the shell's event loop would.

use komorebi_switcher::app::{App, AppMessage};
use komorebi_switcher::config::{Config, WindowConfig};
use komorebi_switcher::host::InteractionMode;
use komorebi_switcher::komorebi::{Monitor, State, Workspace};
use komorebi_switcher::taskbar::{discover_taskbars, WindowInfo};
use komorebi_switcher::utils::Rect;

fn one_monitor_snapshot() -> State {
    State {
        monitors: vec![Monitor {
            id: String::from("M1"),
            name: String::from("primary"),
            index: 0,
            rect: Rect { left: 0, top: 0, right: 1920, bottom: 1080 },
            workspaces: vec![
                Workspace {
                    index: 0,
                    name: String::from("one"),
                    layout: String::from("bsp"),
                    focused: true,
                    is_empty: false,
                },
                Workspace {
                    index: 1,
                    name: String::from("two"),
                    layout: String::from("columns"),
                    focused: false,
                    is_empty: true,
                },
            ],
        }],
    }
}

#[test]
fn switcher_lifecycle_from_first_snapshot_to_monitor_removal() {
    // Process starts with no persisted configuration.
    let mut app = App::new(Config::default(), State { monitors: vec![] });

    // Taskbar discovery finds the shell's taskbar among the top-level
    // windows; its client height is 40.
    let windows = vec![
        WindowInfo { hwnd: 5, class_name: String::from("Explorer"), rect: None },
        WindowInfo {
            hwnd: 9,
            class_name: String::from("Shell_TrayWnd"),
            rect: Some(Rect { left: 0, top: 1040, right: 1920, bottom: 1080 }),
        },
    ];
    let taskbars = discover_taskbars(&windows);
    assert_eq!(taskbars.len(), 1);

    // The state feed delivers one monitor with two workspaces: exactly one
    // host is created, sized to the taskbar's height and the default width.
    app.handle_app_message(
        AppMessage::UpdateKomorebiState(one_monitor_snapshot()),
        &taskbars,
        &vec![100],
    );
    assert_eq!(app.hosts.len(), 1);
    assert_eq!(app.hosts[0].monitor_id, "M1");
    assert_eq!(app.hosts[0].config.width, 200);
    assert_eq!(app.hosts[0].config.height, 40);
    assert_eq!(app.hosts[0].mode, InteractionMode::Idle);

    // The user starts a move/resize gesture and commits a width of 300.
    app.handle_app_message(
        AppMessage::StartMoveResize { monitor_id: String::from("M1"), session_started: true },
        &taskbars,
        &vec![],
    );
    assert_eq!(app.hosts[0].mode, InteractionMode::PendingDrag);
    let committed = WindowConfig {
        x: 16,
        y: 0,
        width: 300,
        height: 40,
        auto_width: false,
        auto_height: true,
    };
    let save = app.handle_app_message(
        AppMessage::NotifyWindowInfoChanges { monitor_id: String::from("M1"), info: committed },
        &taskbars,
        &vec![],
    );
    assert!(save);
    assert_eq!(app.hosts[0].mode, InteractionMode::Idle);
    assert_eq!(app.hosts[0].config.width, 300);
    assert_eq!(app.config.get(&String::from("M1")).unwrap().width, 300);

    // Subsequent state updates preserve the committed width.
    app.handle_app_message(
        AppMessage::UpdateKomorebiState(one_monitor_snapshot()),
        &taskbars,
        &vec![],
    );
    assert_eq!(app.hosts.len(), 1);
    assert_eq!(app.hosts[0].config.width, 300);
    let resized = app.auto_resize(&String::from("M1"), 40, 987);
    assert!(!resized);
    assert_eq!(app.hosts[0].config.width, 300);

    // The monitor disappears: its host is destroyed, the persisted entry
    // for its id stays on disk unchanged.
    app.handle_app_message(
        AppMessage::UpdateKomorebiState(State { monitors: vec![] }),
        &taskbars,
        &vec![],
    );
    assert_eq!(app.hosts.len(), 0);
    assert_eq!(app.config.get(&String::from("M1")).unwrap().width, 300);
}
