//! Taskbar discovery: picking the shell's taskbar surfaces out of the
//! top-level window list, and matching a taskbar to a monitor.
//!
//! Discovery runs fresh on every reconciliation pass; nothing is cached
//! across shell restarts. A window whose rectangle could not be read is
//! silently excluded rather than failing the whole pass.

use vstd::prelude::*;

use crate::utils::{spec_contains, Rect, RECTExt};

verus! {

/// One top-level window as reported by the shell: its native handle, its
/// window class name, and its screen rectangle when it could be read.
#[derive(Debug)]
pub struct WindowInfo {
    pub hwnd: isize,
    pub class_name: String,
    pub rect: Option<Rect>,
}

/// One taskbar surface: the native handle a host window is parented to, and
/// the taskbar's current screen rectangle.
#[derive(Clone, Copy, Debug, PartialEq, Eq, Structural)]
pub struct Taskbar {
    pub hwnd: isize,
    pub rect: Rect,
}

/// Whether a window class name is one of the shell's taskbar classes
/// (`Shell_TrayWnd` for the primary taskbar, `Shell_SecondaryTrayWnd` for
/// per-monitor secondary taskbars).
pub open spec fn spec_is_taskbar_class(name: Seq<char>) -> bool {
    name == "Shell_TrayWnd"@ || name == "Shell_SecondaryTrayWnd"@
}

/// Whether a reported window is a taskbar surface usable for embedding: a
/// taskbar class name and a readable rectangle.
pub open spec fn spec_is_taskbar_window(w: WindowInfo) -> bool {
    spec_is_taskbar_class(w.class_name@) && w.rect is Some
}

/// The taskbars contained in a window list, in list order.
pub open spec fn spec_taskbars_of(ws: Seq<WindowInfo>) -> Seq<Taskbar>
    decreases ws.len(),
{
    if ws.len() == 0 {
        Seq::empty()
    } else {
        let prefix = spec_taskbars_of(ws.drop_last());
        let w = ws.last();
        if spec_is_taskbar_window(w) {
            prefix.push(Taskbar { hwnd: w.hwnd, rect: w.rect->Some_0 })
        } else {
            prefix
        }
    }
}

/// The first taskbar in the list that the monitor rectangle contains, if
/// any.
pub open spec fn spec_find_taskbar(tbs: Seq<Taskbar>, monitor_rect: Rect) -> Option<Taskbar>
    decreases tbs.len(),
{
    if tbs.len() == 0 {
        None
    } else if spec_contains(monitor_rect, tbs[0].rect) {
        Some(tbs[0])
    } else {
        spec_find_taskbar(tbs.drop_first(), monitor_rect)
    }
}

impl Taskbar {
    /// Decides whether a window class name names a taskbar surface.
    pub fn is_taskbar(class_name: &String) -> (r: bool)
        ensures
            r == spec_is_taskbar_class(class_name@),
    {
        let primary = "Shell_TrayWnd".to_owned();
        let secondary = "Shell_SecondaryTrayWnd".to_owned();
        *class_name == primary || *class_name == secondary
    }
}

/// Filters the shell's top-level window list down to the taskbar surfaces,
/// keeping list order and skipping windows without a readable rectangle.
pub fn discover_taskbars(windows: &Vec<WindowInfo>) -> (r: Vec<Taskbar>)
    ensures
        r@ == spec_taskbars_of(windows@),
{
    let n = windows.len();
    let mut out: Vec<Taskbar> = Vec::new();
    let mut i: usize = 0;
    while i < n
        invariant
            i <= n,
            n == windows@.len(),
            out@ == spec_taskbars_of(windows@.take(i as int)),
        decreases n - i,
    {
        proof {
            assert(windows@.take(i + 1 as int).drop_last() =~= windows@.take(i as int));
            assert(windows@.take(i + 1 as int).last() == windows@[i as int]);
        }
        if Taskbar::is_taskbar(&windows[i].class_name) {
            if let Some(rc) = windows[i].rect {
                out.push(Taskbar { hwnd: windows[i].hwnd, rect: rc });
            }
        }
        i = i + 1;
    }
    proof {
        assert(windows@.take(n as int) =~= windows@);
    }
    out
}

/// Returns the first discovered taskbar whose rectangle the monitor's
/// rectangle contains, or `None` when no taskbar belongs to the monitor.
pub fn find_taskbar_for_monitor(taskbars: &Vec<Taskbar>, monitor_rect: Rect) -> (r: Option<
    Taskbar,
>)
    ensures
        r == spec_find_taskbar(taskbars@, monitor_rect),
{
    let n = taskbars.len();
    let mut i: usize = 0;
    proof {
        assert(taskbars@.skip(0) =~= taskbars@);
    }
    while i < n
        invariant
            i <= n,
            n == taskbars@.len(),
            spec_find_taskbar(taskbars@, monitor_rect) == spec_find_taskbar(
                taskbars@.skip(i as int),
                monitor_rect,
            ),
        decreases n - i,
    {
        proof {
            assert(taskbars@.skip(i as int)[0] == taskbars@[i as int]);
            assert(taskbars@.skip(i as int).drop_first() =~= taskbars@.skip(i + 1 as int));
        }
        if monitor_rect.contains(&taskbars[i].rect) {
            return Some(taskbars[i]);
        }
        i = i + 1;
    }
    proof {
        assert(taskbars@.skip(n as int) =~= Seq::<Taskbar>::empty());
    }
    None
}

} // verus!
