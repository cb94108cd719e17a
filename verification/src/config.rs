//! Persisted per-monitor window settings and their resolution rules.
//!
//! A [`Config`] maps monitor ids to [`MonitorConfig`] values and carries the
//! process-wide defaults that the per-monitor tri-state switches fall back
//! to. Loading and storing the value is the shell's job; this module owns the
//! lookup, update, and resolution semantics.

use vstd::prelude::*;

verus! {

/// Geometry-only window settings, as carried by live preview updates during
/// a move/resize gesture.
#[derive(Clone, Copy, Debug, PartialEq, Eq, Structural)]
pub struct WindowConfig {
    pub x: i32,
    pub y: i32,
    pub width: i32,
    pub height: i32,
    pub auto_width: bool,
    pub auto_height: bool,
}

impl Default for WindowConfig {
    /// All-zero geometry with automatic sizing switched off.
    fn default() -> (r: Self)
        ensures
            r == (WindowConfig {
                x: 0,
                y: 0,
                width: 0,
                height: 0,
                auto_width: false,
                auto_height: false,
            }),
    {
        WindowConfig { x: 0, y: 0, width: 0, height: 0, auto_width: false, auto_height: false }
    }
}

/// Stored settings for one monitor's switcher window.
///
/// The two `Option<bool>` fields are tri-state switches: `None` inherits the
/// process-wide default, `Some(b)` overrides it with `b`.
#[derive(Clone, Copy, Debug, PartialEq, Eq)]
pub struct MonitorConfig {
    pub x: i32,
    pub y: i32,
    pub width: i32,
    pub height: i32,
    pub auto_width: bool,
    pub auto_height: bool,
    pub show_layout_button: Option<bool>,
    pub hide_empty_workspaces: Option<bool>,
}

/// What a tri-state switch resolves to under a given process-wide default.
pub open spec fn spec_resolve_setting(value: Option<bool>, global_default: bool) -> bool {
    match value {
        Some(b) => b,
        None => global_default,
    }
}

/// Resolves a tri-state switch: an explicit `Some` wins, `None` inherits the
/// process-wide default.
pub fn resolve_setting(value: Option<bool>, global_default: bool) -> (r: bool)
    ensures
        r == spec_resolve_setting(value, global_default),
{
    match value {
        Some(b) => b,
        None => global_default,
    }
}

/// The settings a monitor gets when nothing was stored for it: a small
/// horizontal inset into the taskbar and fully automatic sizing.
pub open spec fn spec_initial_config() -> MonitorConfig {
    MonitorConfig {
        x: 16,
        y: 0,
        width: 200,
        height: 40,
        auto_width: true,
        auto_height: true,
        show_layout_button: None,
        hide_empty_workspaces: None,
    }
}

impl MonitorConfig {
    /// Settings used for a monitor that has no stored entry.
    pub fn initial() -> (r: Self)
        ensures
            r == spec_initial_config(),
    {
        MonitorConfig {
            x: 16,
            y: 0,
            width: 200,
            height: 40,
            auto_width: true,
            auto_height: true,
            show_layout_button: None,
            hide_empty_workspaces: None,
        }
    }

    /// The geometry part of these settings.
    pub open spec fn spec_window_config(self) -> WindowConfig {
        WindowConfig {
            x: self.x,
            y: self.y,
            width: self.width,
            height: self.height,
            auto_width: self.auto_width,
            auto_height: self.auto_height,
        }
    }

    /// Returns the geometry part of these settings.
    pub fn window_config(&self) -> (r: WindowConfig)
        ensures
            r == self.spec_window_config(),
    {
        WindowConfig {
            x: self.x,
            y: self.y,
            width: self.width,
            height: self.height,
            auto_width: self.auto_width,
            auto_height: self.auto_height,
        }
    }

    /// These settings with the geometry replaced by `g`.
    pub fn with_window_config(&self, g: WindowConfig) -> (r: Self)
        ensures
            r == (MonitorConfig {
                x: g.x,
                y: g.y,
                width: g.width,
                height: g.height,
                auto_width: g.auto_width,
                auto_height: g.auto_height,
                ..*self
            }),
    {
        MonitorConfig {
            x: g.x,
            y: g.y,
            width: g.width,
            height: g.height,
            auto_width: g.auto_width,
            auto_height: g.auto_height,
            show_layout_button: self.show_layout_button,
            hide_empty_workspaces: self.hide_empty_workspaces,
        }
    }

    /// Whether the layout button is shown, under the given process default.
    pub fn show_layout_button_resolved(&self, global_default: bool) -> (r: bool)
        ensures
            r == spec_resolve_setting(self.show_layout_button, global_default),
    {
        resolve_setting(self.show_layout_button, global_default)
    }

    /// Whether empty workspaces are hidden, under the given process default.
    pub fn hide_empty_workspaces_resolved(&self, global_default: bool) -> (r: bool)
        ensures
            r == spec_resolve_setting(self.hide_empty_workspaces, global_default),
    {
        resolve_setting(self.hide_empty_workspaces, global_default)
    }

    /// Replaces an automatically-sized dimension by the size the window
    /// actually settled at during the last run, when such a size was stored.
    pub fn adjust_for_auto_size(&mut self, stored: Option<(i32, i32)>)
        ensures
            *final(self) == (match stored {
                Some((w, h)) => MonitorConfig {
                    width: if old(self).auto_width {
                        w
                    } else {
                        old(self).width
                    },
                    height: if old(self).auto_height {
                        h
                    } else {
                        old(self).height
                    },
                    ..*old(self)
                },
                None => *old(self),
            }),
    {
        if self.auto_width || self.auto_height {
            if let Some((stored_w, stored_h)) = stored {
                if self.auto_width {
                    self.width = stored_w;
                }
                if self.auto_height {
                    self.height = stored_h;
                }
            }
        }
    }
}

/// The whole persisted configuration: process-wide defaults plus one entry
/// per configured monitor, keyed by monitor id.
#[derive(Debug)]
pub struct Config {
    pub show_layout_button: bool,
    pub hide_empty_workspaces: bool,
    pub monitors: Vec<(String, MonitorConfig)>,
}

impl Default for Config {
    /// No monitor entries; both process-wide switches off.
    fn default() -> (r: Self)
        ensures
            r.monitors@.len() == 0,
            !r.show_layout_button,
            !r.hide_empty_workspaces,
    {
        Config { show_layout_button: false, hide_empty_workspaces: false, monitors: Vec::new() }
    }
}

impl Config {
    /// Monitor ids are pairwise distinct.
    pub open spec fn wf(self) -> bool {
        forall|i: int, j: int|
            0 <= i < self.monitors@.len() && 0 <= j < self.monitors@.len() && i != j
                ==> self.monitors@[i].0@ != self.monitors@[j].0@
    }

    /// Whether an entry is stored for the given monitor id.
    pub open spec fn spec_has(self, id: Seq<char>) -> bool {
        exists|i: int| 0 <= i < self.monitors@.len() && self.monitors@[i].0@ == id
    }

    /// Index of the entry for the given monitor id, meaningful only when
    /// `spec_has(id)` holds.
    pub open spec fn spec_index_of(self, id: Seq<char>) -> int {
        choose|i: int| 0 <= i < self.monitors@.len() && self.monitors@[i].0@ == id
    }

    /// The stored entry for the given monitor id, if any.
    pub open spec fn spec_get(self, id: Seq<char>) -> Option<MonitorConfig> {
        if self.spec_has(id) {
            Some(self.monitors@[self.spec_index_of(id)].1)
        } else {
            None
        }
    }

    /// In a well-formed config, an entry whose key matches `id` at index `i`
    /// is the entry that `spec_get` returns.
    pub proof fn lemma_get_at(self, id: Seq<char>, i: int)
        requires
            self.wf(),
            0 <= i < self.monitors@.len(),
            self.monitors@[i].0@ == id,
        ensures
            self.spec_get(id) == Some(self.monitors@[i].1),
    {
        assert(self.spec_has(id));
        let j = self.spec_index_of(id);
        assert(0 <= j < self.monitors@.len() && self.monitors@[j].0@ == id);
        assert(j == i);
    }

    /// The stored settings for `monitor_id`, if any.
    pub fn get(&self, monitor_id: &String) -> (r: Option<&MonitorConfig>)
        requires
            self.wf(),
        ensures
            match r {
                Some(c) => self.spec_get(monitor_id@) == Some(*c),
                None => self.spec_get(monitor_id@) is None,
            },
    {
        let n = self.monitors.len();
        let mut i: usize = 0;
        while i < n
            invariant
                i <= n,
                n == self.monitors@.len(),
                self.wf(),
                forall|j: int| 0 <= j < i ==> self.monitors@[j].0@ != monitor_id@,
            decreases n - i,
        {
            if self.monitors[i].0 == *monitor_id {
                proof {
                    self.lemma_get_at(monitor_id@, i as int);
                }
                return Some(&self.monitors[i].1);
            }
            i = i + 1;
        }
        None
    }

    /// Stores `config` as the settings for `monitor_id`, replacing any
    /// previous entry for the same id and leaving every other entry as it
    /// was.
    pub fn set(&mut self, monitor_id: String, config: MonitorConfig)
        requires
            old(self).wf(),
        ensures
            final(self).wf(),
            final(self).spec_get(monitor_id@) == Some(config),
            forall|k: Seq<char>|
                k != monitor_id@ ==> final(self).spec_get(k) == old(self).spec_get(k),
            final(self).show_layout_button == old(self).show_layout_button,
            final(self).hide_empty_workspaces == old(self).hide_empty_workspaces,
    {
        let n = self.monitors.len();
        let mut i: usize = 0;
        while i < n
            invariant
                i <= n,
                n == self.monitors@.len(),
                *self == *old(self),
                old(self).wf(),
                forall|j: int| 0 <= j < i ==> self.monitors@[j].0@ != monitor_id@,
            decreases n - i,
        {
            if self.monitors[i].0 == monitor_id {
                self.monitors.set(i, (monitor_id, config));
                proof {
                    let oldm = old(self).monitors@;
                    let newm = self.monitors@;
                    assert(oldm[i as int].0@ == monitor_id@);
                    assert(forall|x: int|
                        0 <= x < newm.len() ==> newm[x].0@ == oldm[x].0@);
                    assert forall|p: int, q: int|
                        0 <= p < newm.len() && 0 <= q < newm.len() && p != q implies newm[p].0@
                        != newm[q].0@ by {
                        assert(oldm[p].0@ != oldm[q].0@);
                    }
                    self.lemma_get_at(monitor_id@, i as int);
                    assert forall|k: Seq<char>| k != monitor_id@ implies self.spec_get(k) == old(
                        self,
                    ).spec_get(k) by {
                        self.lemma_frame(*old(self), i as int, monitor_id@, k);
                    }
                }
                return ;
            }
            i = i + 1;
        }
        self.monitors.push((monitor_id, config));
        proof {
            let oldm = old(self).monitors@;
            let newm = self.monitors@;
            let last = newm.len() - 1;
            assert(newm[last].0@ == monitor_id@);
            assert forall|p: int, q: int|
                0 <= p < newm.len() && 0 <= q < newm.len() && p != q implies newm[p].0@
                != newm[q].0@ by {
                if p < last && q < last {
                    assert(oldm[p].0@ != oldm[q].0@);
                }
            }
            self.lemma_get_at(monitor_id@, last);
            assert forall|k: Seq<char>| k != monitor_id@ implies self.spec_get(k) == old(
                self,
            ).spec_get(k) by {
                self.lemma_frame(*old(self), last, monitor_id@, k);
            }
        }
    }

    /// Two well-formed configs that agree everywhere except at one index,
    /// whose key there is `id` in both, store the same entry for every other
    /// key.
    proof fn lemma_frame(self, prev: Config, i: int, id: Seq<char>, k: Seq<char>)
        requires
            self.wf(),
            prev.wf(),
            0 <= i < self.monitors@.len(),
            self.monitors@[i].0@ == id,
            i < prev.monitors@.len() ==> prev.monitors@[i].0@ == id,
            prev.monitors@.len() == self.monitors@.len() || (prev.monitors@.len() + 1
                == self.monitors@.len() && i == self.monitors@.len() - 1),
            forall|j: int|
                0 <= j < prev.monitors@.len() && j != i ==> prev.monitors@[j] == self.monitors@[j],
            k != id,
        ensures
            self.spec_get(k) == prev.spec_get(k),
    {
        if self.spec_has(k) {
            let j = self.spec_index_of(k);
            assert(0 <= j < self.monitors@.len() && self.monitors@[j].0@ == k);
            assert(j != i);
            assert(j < prev.monitors@.len());
            assert(prev.monitors@[j].0@ == k);
            prev.lemma_get_at(k, j);
            self.lemma_get_at(k, j);
        } else if prev.spec_has(k) {
            let j = prev.spec_index_of(k);
            assert(0 <= j < prev.monitors@.len() && prev.monitors@[j].0@ == k);
            assert(j != i);
            assert(self.monitors@[j].0@ == k);
            assert(self.spec_has(k));
        }
    }

    /// The settings in force for `monitor_id`: a live preview wins wholesale;
    /// otherwise the stored entry; otherwise the initial settings.
    pub open spec fn spec_effective_config(
        self,
        id: Seq<char>,
        preview: Option<MonitorConfig>,
    ) -> MonitorConfig {
        match preview {
            Some(p) => p,
            None => match self.spec_get(id) {
                Some(c) => c,
                None => spec_initial_config(),
            },
        }
    }

    /// Returns the settings in force for `monitor_id`, given the live
    /// preview value if one is active.
    pub fn effective_config(&self, monitor_id: &String, preview: &Option<MonitorConfig>) -> (r:
        MonitorConfig)
        requires
            self.wf(),
        ensures
            r == self.spec_effective_config(monitor_id@, *preview),
    {
        match preview {
            Some(p) => *p,
            None => match self.get(monitor_id) {
                Some(c) => *c,
                None => MonitorConfig::initial(),
            },
        }
    }
}

} // verus!
