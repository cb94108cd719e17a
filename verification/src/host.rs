//! One embedded host window: placement inside its taskbar, automatic sizing,
//! and the move/resize interaction state machine.
//!
//! A host never leaves its taskbar's horizontal extent and never drifts
//! vertically; while a user gesture is pending or in progress, automatic
//! content-driven resizing is suspended, and a committed gesture becomes the
//! new persisted geometry.

use vstd::prelude::*;

use crate::config::{MonitorConfig, WindowConfig};
use crate::taskbar::Taskbar;
use crate::utils::Rect;

verus! {

/// Arbitration state between automatic sizing and a user move/resize
/// gesture.
#[derive(Clone, Copy, Debug, PartialEq, Eq, Structural)]
pub enum InteractionMode {
    /// No gesture; automatic sizing is in force.
    Idle,
    /// A move/resize session was requested; automatic sizing is suspended.
    PendingDrag,
    /// The gesture is live; preview geometry drives the host.
    Dragging,
}

/// Where a requested horizontal position lands: never negative, and never
/// past `taskbar_width - host_width`, so the host stays inside the taskbar.
/// When the host is wider than the taskbar, the right edges are aligned.
pub open spec fn spec_clamp_x(x: int, host_width: int, taskbar_width: int) -> int {
    let lower_bounded = if x >= 0 {
        x
    } else {
        0
    };
    let upper = taskbar_width - host_width;
    if lower_bounded <= upper {
        lower_bounded
    } else {
        upper
    }
}

/// Clamps a requested host placement: the vertical coordinate is forced to
/// the taskbar's top edge, the horizontal coordinate to the taskbar's
/// extent.
pub fn clamp_position(x: i32, y: i32, host_width: i32, taskbar_width: i32) -> (pos: (i32, i32))
    requires
        host_width >= 0,
        taskbar_width >= 0,
    ensures
        pos.0 == spec_clamp_x(x as int, host_width as int, taskbar_width as int),
        pos.1 == 0,
{
    let _ = y;
    let lower_bounded: i64 = if x >= 0 {
        x as i64
    } else {
        0
    };
    let upper: i64 = taskbar_width as i64 - host_width as i64;
    let clamped: i64 = if lower_bounded <= upper {
        lower_bounded
    } else {
        upper
    };
    (clamped as i32, 0)
}

/// A notification the shell forwards to a host window.
#[derive(Clone, Copy, Debug, PartialEq, Eq, Structural)]
pub enum HostMessage {
    /// The host's position is about to change to `(x, y)`; `host_width` is
    /// the width the host will have, `taskbar_width` the taskbar's current
    /// client width.
    PositionChanging { x: i32, y: i32, host_width: i32, taskbar_width: i32 },
    /// The host's position has changed and was accepted.
    PositionChanged { x: i32, y: i32 },
    /// The host's client area now has this rectangle.
    Resized { client: Rect },
    /// A system-wide setting (theme, accent color) changed.
    SettingsChanged,
    /// The host was asked to close.
    CloseRequested,
}

/// What the shell must do in response to a host notification.
#[derive(Clone, Copy, Debug, PartialEq, Eq, Structural)]
pub enum HostAction {
    /// Place the host at exactly this position instead of the requested one.
    MoveTo { x: i32, y: i32 },
    /// Persist this position so the next launch restores it.
    SavePosition { x: i32, y: i32 },
    /// Resize every direct child view to exactly this size, without moving
    /// it.
    ResizeChildren { width: i32, height: i32 },
    /// Re-read system colors and refresh dependent views.
    RelaySettingsChanged,
    /// Destroy every child view first, then release the host's own native
    /// resources.
    DestroyChildrenThenSelf,
}

/// One live embedded window: its native handle, the taskbar it is parented
/// to, the monitor it serves, its in-memory settings, and the gesture state.
#[derive(Debug)]
pub struct HostWindow {
    pub hwnd: isize,
    pub taskbar: Taskbar,
    pub monitor_id: String,
    pub config: MonitorConfig,
    pub mode: InteractionMode,
    pub preview: Option<WindowConfig>,
}

/// The geometry a new host is created with: the stored settings when an
/// entry exists (otherwise the initial settings), with the height replaced
/// by the taskbar's current height when sized automatically.
pub open spec fn spec_creation_config(
    stored: Option<MonitorConfig>,
    taskbar_height: i32,
) -> MonitorConfig {
    let base = match stored {
        Some(c) => c,
        None => crate::config::spec_initial_config(),
    };
    MonitorConfig {
        height: if base.auto_height {
            taskbar_height
        } else {
            base.height
        },
        ..base
    }
}

/// Result of an automatic, content-driven resize request: a no-op unless the
/// host is idle; otherwise each automatically-sized dimension is recomputed
/// (width from the rendered content, height from the taskbar).
pub open spec fn spec_auto_resize(
    h: HostWindow,
    taskbar_height: i32,
    content_width: i32,
) -> HostWindow {
    if h.mode is Idle {
        HostWindow {
            config: MonitorConfig {
                width: if h.config.auto_width {
                    content_width
                } else {
                    h.config.width
                },
                height: if h.config.auto_height {
                    taskbar_height
                } else {
                    h.config.height
                },
                ..h.config
            },
            ..h
        }
    } else {
        h
    }
}

/// Result of requesting a move/resize session: suspended automatic sizing
/// when the session started, an immediate fall back to idle when it failed.
pub open spec fn spec_start_move_resize(h: HostWindow, session_started: bool) -> HostWindow {
    if session_started {
        HostWindow { mode: InteractionMode::PendingDrag, ..h }
    } else {
        HostWindow { mode: InteractionMode::Idle, preview: None, ..h }
    }
}

/// Result of a live preview update: ignored while idle, otherwise the host
/// is dragging and displays the preview geometry.
pub open spec fn spec_apply_preview(h: HostWindow, preview: WindowConfig) -> HostWindow {
    if h.mode is Idle {
        h
    } else {
        HostWindow { mode: InteractionMode::Dragging, preview: Some(preview), ..h }
    }
}

/// Result of committing a gesture: the previewed geometry becomes the
/// persisted settings and automatic sizing resumes from it.
pub open spec fn spec_commit_drag(h: HostWindow, committed: WindowConfig) -> HostWindow {
    HostWindow {
        mode: InteractionMode::Idle,
        preview: None,
        config: MonitorConfig {
            x: committed.x,
            y: committed.y,
            width: committed.width,
            height: committed.height,
            auto_width: committed.auto_width,
            auto_height: committed.auto_height,
            ..h.config
        },
        ..h
    }
}

/// Result of cancelling a gesture: the preview is discarded and the settings
/// stay as last committed.
pub open spec fn spec_cancel_drag(h: HostWindow) -> HostWindow {
    HostWindow { mode: InteractionMode::Idle, preview: None, ..h }
}

/// What the shell must do for each host notification.
pub open spec fn spec_handle_message(h: HostWindow, msg: HostMessage) -> HostAction {
    match msg {
        HostMessage::PositionChanging { x, y, host_width, taskbar_width } => HostAction::MoveTo {
            x: spec_clamp_x(x as int, host_width as int, taskbar_width as int) as i32,
            y: 0,
        },
        HostMessage::PositionChanged { x, y } => HostAction::SavePosition { x, y },
        HostMessage::Resized { client } => HostAction::ResizeChildren {
            width: (client.right - client.left) as i32,
            height: (client.bottom - client.top) as i32,
        },
        HostMessage::SettingsChanged => HostAction::RelaySettingsChanged,
        HostMessage::CloseRequested => HostAction::DestroyChildrenThenSelf,
    }
}

impl HostWindow {
    /// A freshly created host: idle, no preview, carrying the settings it
    /// was created with.
    pub fn new(hwnd: isize, taskbar: Taskbar, monitor_id: String, config: MonitorConfig) -> (r:
        Self)
        ensures
            r.hwnd == hwnd,
            r.taskbar == taskbar,
            r.monitor_id == monitor_id,
            r.config == config,
            r.mode is Idle,
            r.preview is None,
    {
        HostWindow {
            hwnd,
            taskbar,
            monitor_id,
            config,
            mode: InteractionMode::Idle,
            preview: None,
        }
    }

    /// The settings a new host for this monitor is created with.
    pub fn creation_config(stored: Option<&MonitorConfig>, taskbar_height: i32) -> (r:
        MonitorConfig)
        ensures
            r == spec_creation_config(
                match stored {
                    Some(c) => Some(*c),
                    None => None,
                },
                taskbar_height,
            ),
    {
        let base = match stored {
            Some(c) => *c,
            None => MonitorConfig::initial(),
        };
        let height = if base.auto_height {
            taskbar_height
        } else {
            base.height
        };
        MonitorConfig { height, ..base }
    }

    /// The geometry the host currently displays: the live preview while one
    /// is active, otherwise the committed settings.
    pub fn displayed_geometry(&self) -> (r: WindowConfig)
        ensures
            r == match self.preview {
                Some(p) => p,
                None => self.config.spec_window_config(),
            },
    {
        match &self.preview {
            Some(p) => *p,
            None => self.config.window_config(),
        }
    }

    /// Applies a content-driven resize request. Returns whether the host's
    /// stored size actually changed; only then does the shell need to
    /// persist the new size and resize the native window.
    pub fn auto_resize(&mut self, taskbar_height: i32, content_width: i32) -> (resized: bool)
        ensures
            *final(self) == spec_auto_resize(*old(self), taskbar_height, content_width),
            resized == (old(self).mode is Idle && (final(self).config.width != old(
                self,
            ).config.width || final(self).config.height != old(self).config.height)),
    {
        match self.mode {
            InteractionMode::Idle => {
                let width = if self.config.auto_width {
                    content_width
                } else {
                    self.config.width
                };
                let height = if self.config.auto_height {
                    taskbar_height
                } else {
                    self.config.height
                };
                let changed = width != self.config.width || height != self.config.height;
                self.config.width = width;
                self.config.height = height;
                changed
            },
            _ => false,
        }
    }

    /// Enters the move/resize gesture. `session_started` reports whether the
    /// platform's move/resize session could be acquired; on failure the host
    /// falls back to idle rather than staying suspended.
    pub fn start_move_resize(&mut self, session_started: bool)
        ensures
            *final(self) == spec_start_move_resize(*old(self), session_started),
    {
        if session_started {
            self.mode = InteractionMode::PendingDrag;
        } else {
            self.mode = InteractionMode::Idle;
            self.preview = None;
        }
    }

    /// Applies one live preview frame of the gesture. Ignored while idle:
    /// preview frames only drive a host whose gesture is pending or live.
    pub fn apply_preview(&mut self, preview: WindowConfig)
        ensures
            *final(self) == spec_apply_preview(*old(self), preview),
    {
        match self.mode {
            InteractionMode::Idle => {},
            _ => {
                self.mode = InteractionMode::Dragging;
                self.preview = Some(preview);
            },
        }
    }

    /// Commits the gesture: the committed geometry becomes the persisted
    /// settings and automatic sizing resumes from it. The caller persists
    /// the returned settings.
    pub fn commit_drag(&mut self, committed: WindowConfig) -> (saved: MonitorConfig)
        ensures
            *final(self) == spec_commit_drag(*old(self), committed),
            saved == final(self).config,
    {
        self.config = self.config.with_window_config(committed);
        self.mode = InteractionMode::Idle;
        self.preview = None;
        self.config
    }

    /// Cancels the gesture: the preview is discarded, the persisted settings
    /// stay untouched, and automatic sizing resumes.
    pub fn cancel_drag(&mut self)
        ensures
            *final(self) == spec_cancel_drag(*old(self)),
    {
        self.mode = InteractionMode::Idle;
        self.preview = None;
    }

    /// Responds to a host notification from the shell.
    pub fn handle_message(&self, msg: HostMessage) -> (a: HostAction)
        requires
            msg matches HostMessage::PositionChanging { host_width, taskbar_width, .. }
                ==> host_width >= 0 && taskbar_width >= 0,
            msg matches HostMessage::Resized { client } ==> 0 <= client.left <= client.right && 0
                <= client.top <= client.bottom,
        ensures
            a == spec_handle_message(*self, msg),
    {
        match msg {
            HostMessage::PositionChanging { x, y, host_width, taskbar_width } => {
                let (cx, cy) = clamp_position(x, y, host_width, taskbar_width);
                HostAction::MoveTo { x: cx, y: cy }
            },
            HostMessage::PositionChanged { x, y } => HostAction::SavePosition { x, y },
            HostMessage::Resized { client } => HostAction::ResizeChildren {
                width: client.right - client.left,
                height: client.bottom - client.top,
            },
            HostMessage::SettingsChanged => HostAction::RelaySettingsChanged,
            HostMessage::CloseRequested => HostAction::DestroyChildrenThenSelf,
        }
    }
}

/// While a gesture is pending or live for a host, an automatic resize
/// request for that host is a no-op: the host, its settings, and its
/// preview all stay exactly as they are.
pub proof fn lemma_drag_suspends_auto_resize(h: HostWindow, taskbar_height: i32, content_width: i32)
    requires
        h.mode is PendingDrag || h.mode is Dragging,
    ensures
        spec_auto_resize(h, taskbar_height, content_width) == h,
{
}

/// After a gesture commits, the host is idle again and the next automatic
/// resize computes from the newly committed geometry as baseline: each
/// automatically-sized dimension is recomputed, each fixed dimension keeps
/// the committed value.
pub proof fn lemma_auto_resize_resumes_after_commit(
    h: HostWindow,
    committed: WindowConfig,
    taskbar_height: i32,
    content_width: i32,
)
    ensures
        spec_commit_drag(h, committed).mode is Idle,
        spec_auto_resize(spec_commit_drag(h, committed), taskbar_height, content_width).config.width
            == if committed.auto_width {
            content_width
        } else {
            committed.width
        },
        spec_auto_resize(
            spec_commit_drag(h, committed),
            taskbar_height,
            content_width,
        ).config.height == if committed.auto_height {
            taskbar_height
        } else {
            committed.height
        },
{
}

} // verus!
