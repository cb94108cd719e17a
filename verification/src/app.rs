//! The window lifecycle reconciler: one live host window per monitor, kept
//! consistent with the latest state snapshot.
//!
//! The reconciler owns the registry of live hosts. On every new snapshot it
//! first creates hosts for monitors that lack one (when a taskbar belonging
//! to the monitor can be found), then prunes hosts whose monitor vanished;
//! monitors present before and after are left untouched. A recreate signal
//! tears every host down and rebuilds from the current snapshot.
//!
//! Native window creation is the shell's job: the caller hands in one fresh
//! native handle per planned creation.

use vstd::prelude::*;

use crate::config::{Config, MonitorConfig, WindowConfig};
use crate::host::{spec_creation_config, HostWindow, InteractionMode};
use crate::komorebi::{Monitor, State};
use crate::taskbar::{spec_find_taskbar, Taskbar};
use crate::utils::Rect;

verus! {

/// One creation the reconciler has decided on: the monitor that needs a
/// host, and the taskbar the host will be parented to.
#[derive(Debug)]
pub struct PlannedCreate {
    pub monitor_id: String,
    pub taskbar: Taskbar,
}

/// An application event, delivered to the reconciler by the shell's message
/// loop in arrival order.
#[derive(Debug)]
pub enum AppMessage {
    /// A new snapshot arrived from the state feed.
    UpdateKomorebiState(State),
    /// The user asked for a full refresh of all switchers.
    RecreateSwitcherWindows,
    /// The shell restarted and recreated its taskbars.
    TaskbarRecreated,
    /// The host for this monitor was closed or destroyed.
    CloseWindow(String),
    /// The user asked to move/resize this monitor's switcher;
    /// `session_started` reports whether the platform session could be
    /// acquired.
    StartMoveResize { monitor_id: String, session_started: bool },
    /// The move/resize affordance committed this geometry for the monitor.
    NotifyWindowInfoChanges { monitor_id: String, info: WindowConfig },
    /// The move/resize affordance was dismissed without committing.
    CancelMoveResize(String),
    /// The settings dialog saved new settings for one monitor.
    UpdateWindowConfig { monitor_id: String, config: MonitorConfig },
    /// The settings dialog started a live preview of this configuration.
    PreviewConfig(Config),
    /// The settings dialog ended its live preview.
    ClearPreviewConfig,
}

/// How one live host reacts to a message: gesture messages addressed to its
/// monitor drive its interaction state machine, everything else leaves it
/// alone.
pub open spec fn spec_host_after_message(h: HostWindow, message: AppMessage) -> HostWindow {
    match message {
        AppMessage::StartMoveResize { monitor_id, session_started } => if h.monitor_id@
            == monitor_id@ {
            crate::host::spec_start_move_resize(h, session_started)
        } else {
            h
        },
        AppMessage::NotifyWindowInfoChanges { monitor_id, info } => if h.monitor_id@
            == monitor_id@ {
            crate::host::spec_commit_drag(h, info)
        } else {
            h
        },
        AppMessage::CancelMoveResize(monitor_id) => if h.monitor_id@ == monitor_id@ {
            crate::host::spec_cancel_drag(h)
        } else {
            h
        },
        _ => h,
    }
}

/// Whether a host for the given monitor id is live.
pub open spec fn spec_has_host(hosts: Seq<HostWindow>, id: Seq<char>) -> bool {
    exists|i: int| 0 <= i < hosts.len() && hosts[i].monitor_id@ == id
}

/// At most one live host per monitor id.
pub open spec fn spec_hosts_wf(hosts: Seq<HostWindow>) -> bool {
    forall|i: int, j: int|
        0 <= i < hosts.len() && 0 <= j < hosts.len() && i != j ==> hosts[i].monitor_id@
            != hosts[j].monitor_id@
}

/// A taskbar rectangle the embedding layer can work with: non-negative
/// height that fits the native coordinate type.
pub open spec fn spec_taskbar_geometry_ok(tb: Taskbar) -> bool {
    tb.rect.top <= tb.rect.bottom && tb.rect.bottom - tb.rect.top <= i32::MAX
}

/// The creations a snapshot calls for, in monitor order: one per monitor
/// that has no live host and whose rectangle contains a discovered taskbar.
/// A monitor without a matching taskbar is skipped for this pass.
pub open spec fn spec_plan_creates(
    hosts: Seq<HostWindow>,
    monitors: Seq<Monitor>,
    taskbars: Seq<Taskbar>,
) -> Seq<PlannedCreate>
    decreases monitors.len(),
{
    if monitors.len() == 0 {
        Seq::empty()
    } else {
        let prefix = spec_plan_creates(hosts, monitors.drop_last(), taskbars);
        let m = monitors.last();
        if !spec_has_host(hosts, m.id@) && spec_find_taskbar(taskbars, m.rect) is Some {
            prefix.push(
                PlannedCreate {
                    monitor_id: m.id,
                    taskbar: spec_find_taskbar(taskbars, m.rect)->Some_0,
                },
            )
        } else {
            prefix
        }
    }
}

/// The host a planned creation produces: parented to the planned taskbar,
/// carrying the monitor's stored settings (or the initial settings), sized
/// to the taskbar's current height when sized automatically.
pub open spec fn spec_new_host(p: PlannedCreate, hwnd: isize, config: Config) -> HostWindow {
    HostWindow {
        hwnd: hwnd,
        taskbar: p.taskbar,
        monitor_id: p.monitor_id,
        config: spec_creation_config(
            config.spec_get(p.monitor_id@),
            (p.taskbar.rect.bottom - p.taskbar.rect.top) as i32,
        ),
        mode: InteractionMode::Idle,
        preview: None,
    }
}

/// The hosts a plan produces, one per planned creation, using the fresh
/// native handles in order.
pub open spec fn spec_created_hosts(
    plan: Seq<PlannedCreate>,
    hwnds: Seq<isize>,
    config: Config,
) -> Seq<HostWindow> {
    Seq::new(plan.len(), |i: int| spec_new_host(plan[i], hwnds[i], config))
}

/// The hosts that survive a snapshot: exactly those whose monitor the
/// snapshot still lists, in their original order.
pub open spec fn spec_prune(hosts: Seq<HostWindow>, snapshot: State) -> Seq<HostWindow>
    decreases hosts.len(),
{
    if hosts.len() == 0 {
        Seq::empty()
    } else {
        let rest = spec_prune(hosts.drop_first(), snapshot);
        if snapshot.spec_has_monitor(hosts[0].monitor_id@) {
            seq![hosts[0]] + rest
        } else {
            rest
        }
    }
}

/// The registry after one full reconciliation pass: hosts created for the
/// plan are appended, then hosts for vanished monitors are pruned.
pub open spec fn spec_reconciled_hosts(
    hosts: Seq<HostWindow>,
    snapshot: State,
    taskbars: Seq<Taskbar>,
    hwnds: Seq<isize>,
    config: Config,
) -> Seq<HostWindow> {
    spec_prune(
        hosts + spec_created_hosts(
            spec_plan_creates(hosts, snapshot.monitors@, taskbars),
            hwnds,
            config,
        ),
        snapshot,
    )
}

/// The tray menu label for one monitor: its name and id joined by a dash.
pub open spec fn spec_menu_id(m: Monitor) -> Seq<char> {
    m.name@ + "-"@ + m.id@
}

/// The tray menu labels of the monitors that currently have a live
/// switcher, in monitor order.
pub open spec fn spec_switcher_menu_ids(
    monitors: Seq<Monitor>,
    hosts: Seq<HostWindow>,
) -> Seq<Seq<char>>
    decreases monitors.len(),
{
    if monitors.len() == 0 {
        Seq::empty()
    } else {
        let prefix = spec_switcher_menu_ids(monitors.drop_last(), hosts);
        if spec_has_host(hosts, monitors.last().id@) {
            prefix.push(spec_menu_id(monitors.last()))
        } else {
            prefix
        }
    }
}

/// The reconciler: the latest snapshot, the persisted configuration, the
/// live settings preview if one is active, and the registry of live hosts.
#[derive(Debug)]
pub struct App {
    pub state: State,
    pub config: Config,
    pub preview: Option<Config>,
    pub hosts: Vec<HostWindow>,
}

impl App {
    /// Distinct monitor ids in the snapshot, distinct config keys, at most
    /// one host per monitor.
    pub open spec fn wf(self) -> bool {
        &&& self.state.wf()
        &&& self.config.wf()
        &&& spec_hosts_wf(self.hosts@)
    }

    /// A reconciler that has seen the given snapshot and holds the given
    /// configuration, with no live hosts yet.
    pub fn new(config: Config, state: State) -> (r: Self)
        ensures
            r.state == state,
            r.config == config,
            r.preview is None,
            r.hosts@ =~= Seq::<HostWindow>::empty(),
    {
        App { state, config, preview: None, hosts: Vec::new() }
    }

    /// Decides whether a host for the given monitor id is live.
    pub fn has_host(&self, monitor_id: &String) -> (r: bool)
        ensures
            r == spec_has_host(self.hosts@, monitor_id@),
    {
        let n = self.hosts.len();
        let mut i: usize = 0;
        while i < n
            invariant
                i <= n,
                n == self.hosts@.len(),
                forall|j: int| 0 <= j < i ==> self.hosts@[j].monitor_id@ != monitor_id@,
            decreases n - i,
        {
            if self.hosts[i].monitor_id == *monitor_id {
                return true;
            }
            i = i + 1;
        }
        false
    }

    /// Index of the live host for the given monitor id, if any; under `wf`
    /// the host is unique.
    fn host_index(&self, monitor_id: &String) -> (r: Option<usize>)
        ensures
            match r {
                Some(i) => {
                    &&& i < self.hosts@.len()
                    &&& self.hosts@[i as int].monitor_id@ == monitor_id@
                    &&& forall|j: int| 0 <= j < i ==> self.hosts@[j].monitor_id@ != monitor_id@
                },
                None => !spec_has_host(self.hosts@, monitor_id@),
            },
    {
        let n = self.hosts.len();
        let mut i: usize = 0;
        while i < n
            invariant
                i <= n,
                n == self.hosts@.len(),
                forall|j: int| 0 <= j < i ==> self.hosts@[j].monitor_id@ != monitor_id@,
            decreases n - i,
        {
            if self.hosts[i].monitor_id == *monitor_id {
                return Some(i);
            }
            i = i + 1;
        }
        None
    }

    /// Computes the create pass for a snapshot: one planned creation per
    /// monitor that lacks a live host and whose rectangle contains one of
    /// the discovered taskbars.
    pub fn plan_reconcile(&self, snapshot: &State, taskbars: &Vec<Taskbar>) -> (plan: Vec<
        PlannedCreate,
    >)
        ensures
            plan@ == spec_plan_creates(self.hosts@, snapshot.monitors@, taskbars@),
    {
        let n = snapshot.monitors.len();
        let mut plan: Vec<PlannedCreate> = Vec::new();
        let mut i: usize = 0;
        while i < n
            invariant
                i <= n,
                n == snapshot.monitors@.len(),
                plan@ == spec_plan_creates(
                    self.hosts@,
                    snapshot.monitors@.take(i as int),
                    taskbars@,
                ),
            decreases n - i,
        {
            proof {
                assert(snapshot.monitors@.take(i + 1 as int).drop_last() =~= snapshot.monitors@.take(
                    i as int,
                ));
                assert(snapshot.monitors@.take(i + 1 as int).last() == snapshot.monitors@[i as int]);
            }
            let m = &snapshot.monitors[i];
            if !self.has_host(&m.id) {
                if let Some(tb) = crate::taskbar::find_taskbar_for_monitor(taskbars, m.rect) {
                    plan.push(PlannedCreate { monitor_id: m.id.clone(), taskbar: tb });
                }
            }
            i = i + 1;
        }
        proof {
            assert(snapshot.monitors@.take(n as int) =~= snapshot.monitors@);
        }
        plan
    }

    /// Runs the create pass against the current snapshot: a host is created
    /// and registered for every monitor that lacks one and has a matching
    /// taskbar. `new_hwnds` supplies one fresh native handle per planned
    /// creation.
    pub fn create_switchers(&mut self, taskbars: &Vec<Taskbar>, new_hwnds: &Vec<isize>)
        requires
            old(self).wf(),
            new_hwnds@.len() == spec_plan_creates(
                old(self).hosts@,
                old(self).state.monitors@,
                taskbars@,
            ).len(),
            forall|i: int| 0 <= i < taskbars@.len() ==> spec_taskbar_geometry_ok(#[trigger] taskbars@[i]),
        ensures
            final(self).hosts@ == old(self).hosts@ + spec_created_hosts(
                spec_plan_creates(old(self).hosts@, old(self).state.monitors@, taskbars@),
                new_hwnds@,
                old(self).config,
            ),
            final(self).state == old(self).state,
            final(self).config == old(self).config,
            final(self).preview == old(self).preview,
            final(self).wf(),
    {
        let mut plan = self.plan_reconcile(&self.state, taskbars);
        let ghost orig_hosts = self.hosts@;
        let ghost plan0 = plan@;
        let ghost created = spec_created_hosts(plan0, new_hwnds@, self.config);
        let total = plan.len();
        proof {
            lemma_plan_taskbars_mem(orig_hosts, self.state.monitors@, taskbars@);
        }
        let mut idx: usize = 0;
        while idx < total
            invariant
                idx <= total,
                total == plan0.len(),
                new_hwnds@.len() == total,
                plan@ =~= plan0.skip(idx as int),
                self.hosts@ =~= orig_hosts + created.take(idx as int),
                self.state == old(self).state,
                self.config == old(self).config,
                self.preview == old(self).preview,
                created == spec_created_hosts(plan0, new_hwnds@, self.config),
                forall|i: int| 0 <= i < plan0.len() ==> taskbars@.contains(#[trigger] plan0[i].taskbar),
                forall|i: int|
                    0 <= i < taskbars@.len() ==> spec_taskbar_geometry_ok(#[trigger] taskbars@[i]),
                self.config.wf(),
            decreases total - idx,
        {
            proof {
                assert(plan0.skip(idx as int)[0] == plan0[idx as int]);
                assert(plan0.skip(idx as int).remove(0) =~= plan0.skip(idx + 1 as int));
                assert(taskbars@.contains(plan0[idx as int].taskbar));
                let witness = choose|w: int|
                    0 <= w < taskbars@.len() && taskbars@[w] == plan0[idx as int].taskbar;
                assert(spec_taskbar_geometry_ok(taskbars@[witness]));
            }
            let item = plan.remove(0);
            let height64: i64 = item.taskbar.rect.bottom as i64 - item.taskbar.rect.top as i64;
            let height: i32 = height64 as i32;
            let stored = self.config.get(&item.monitor_id);
            let cfg = HostWindow::creation_config(stored, height);
            let host = HostWindow::new(new_hwnds[idx], item.taskbar, item.monitor_id, cfg);
            proof {
                assert(host == spec_new_host(
                    plan0[idx as int],
                    new_hwnds@[idx as int],
                    self.config,
                ));
                assert(host == created[idx as int]);
            }
            self.hosts.push(host);
            proof {
                assert(created.take(idx + 1 as int) =~= created.take(idx as int).push(
                    created[idx as int],
                ));
                assert(self.hosts@ =~= orig_hosts + created.take(idx + 1 as int));
            }
            idx = idx + 1;
        }
        proof {
            assert(created.take(total as int) =~= created);
            assert(self.hosts@ =~= orig_hosts + created);
            lemma_plan_ids(orig_hosts, old(self).state.monitors@, taskbars@);
            assert forall|p: int, q: int|
                0 <= p < self.hosts@.len() && 0 <= q < self.hosts@.len() && p
                    != q implies self.hosts@[p].monitor_id@ != self.hosts@[q].monitor_id@ by {
                let k = orig_hosts.len();
                if p >= k && q >= k {
                    assert(self.hosts@[p].monitor_id@ == plan0[p - k].monitor_id@);
                    assert(self.hosts@[q].monitor_id@ == plan0[q - k].monitor_id@);
                } else if p >= k {
                    assert(self.hosts@[p].monitor_id@ == plan0[p - k].monitor_id@);
                    assert(!spec_has_host(orig_hosts, plan0[p - k].monitor_id@));
                } else if q >= k {
                    assert(self.hosts@[q].monitor_id@ == plan0[q - k].monitor_id@);
                    assert(!spec_has_host(orig_hosts, plan0[q - k].monitor_id@));
                }
            }
        }
    }

    /// Runs the prune pass: every live host whose monitor id is absent from
    /// the current snapshot is removed; all others stay, in order.
    pub fn prune_hosts(&mut self)
        ensures
            final(self).hosts@ == spec_prune(old(self).hosts@, old(self).state),
            final(self).state == old(self).state,
            final(self).config == old(self).config,
            final(self).preview == old(self).preview,
            spec_hosts_wf(old(self).hosts@) ==> spec_hosts_wf(final(self).hosts@),
    {
        let ghost orig = self.hosts@;
        let mut work: Vec<HostWindow> = Vec::new();
        core::mem::swap(&mut self.hosts, &mut work);
        while work.len() > 0
            invariant
                spec_prune(orig, old(self).state) =~= self.hosts@ + spec_prune(
                    work@,
                    old(self).state,
                ),
                self.state == old(self).state,
                self.config == old(self).config,
                self.preview == old(self).preview,
            decreases work@.len(),
        {
            proof {
                assert(work@.drop_first() =~= work@.remove(0));
            }
            let h = work.remove(0);
            if self.state.has_monitor(&h.monitor_id) {
                self.hosts.push(h);
            }
        }
        proof {
            assert(spec_prune(work@, old(self).state) =~= Seq::<HostWindow>::empty());
            assert(self.hosts@ =~= self.hosts@ + spec_prune(work@, old(self).state));
            lemma_prune_wf(orig, old(self).state);
        }
    }

    /// Applies one state snapshot: the snapshot replaces the previous one
    /// wholesale, hosts are created for new monitors, and hosts for
    /// vanished monitors are pruned. Running the same snapshot again plans
    /// no creation and prunes nothing.
    pub fn reconcile(&mut self, snapshot: State, taskbars: &Vec<Taskbar>, new_hwnds: &Vec<isize>)
        requires
            old(self).wf(),
            snapshot.wf(),
            new_hwnds@.len() == spec_plan_creates(
                old(self).hosts@,
                snapshot.monitors@,
                taskbars@,
            ).len(),
            forall|i: int| 0 <= i < taskbars@.len() ==> spec_taskbar_geometry_ok(#[trigger] taskbars@[i]),
        ensures
            final(self).hosts@ == spec_reconciled_hosts(
                old(self).hosts@,
                snapshot,
                taskbars@,
                new_hwnds@,
                old(self).config,
            ),
            final(self).state == snapshot,
            final(self).config == old(self).config,
            final(self).preview == old(self).preview,
            final(self).wf(),
    {
        self.state = snapshot;
        self.create_switchers(taskbars, new_hwnds);
        self.prune_hosts();
    }

    /// Removes the live host for one monitor, leaving every other host in
    /// place. Returns whether a host was removed.
    pub fn remove_host(&mut self, monitor_id: &String) -> (removed: bool)
        requires
            old(self).wf(),
        ensures
            final(self).wf(),
            final(self).state == old(self).state,
            final(self).config == old(self).config,
            final(self).preview == old(self).preview,
            removed == spec_has_host(old(self).hosts@, monitor_id@),
            !spec_has_host(final(self).hosts@, monitor_id@),
            removed ==> exists|i: int|
                0 <= i < old(self).hosts@.len() && (#[trigger] old(self).hosts@[i]).monitor_id@
                    == monitor_id@ && final(self).hosts@ == old(self).hosts@.remove(i),
            !removed ==> final(self).hosts@ == old(self).hosts@,
    {
        match self.host_index(monitor_id) {
            Some(i) => {
                let _ = self.hosts.remove(i);
                proof {
                    let oldh = old(self).hosts@;
                    let newh = self.hosts@;
                    assert(oldh[i as int].monitor_id@ == monitor_id@);
                    assert(spec_has_host(oldh, monitor_id@));
                    assert forall|p: int, q: int|
                        0 <= p < newh.len() && 0 <= q < newh.len() && p
                            != q implies newh[p].monitor_id@ != newh[q].monitor_id@ by {
                        let p0 = if p < i {
                            p
                        } else {
                            p + 1
                        };
                        let q0 = if q < i {
                            q
                        } else {
                            q + 1
                        };
                        assert(newh[p] == oldh[p0] && newh[q] == oldh[q0]);
                    }
                    if spec_has_host(newh, monitor_id@) {
                        let j = choose|j: int|
                            0 <= j < newh.len() && newh[j].monitor_id@ == monitor_id@;
                        let j0 = if j < i {
                            j
                        } else {
                            j + 1
                        };
                        assert(newh[j] == oldh[j0]);
                        assert(oldh[j0].monitor_id@ == oldh[i as int].monitor_id@);
                        assert(false);
                    }
                }
                true
            },
            None => false,
        }
    }

    /// Routes a move/resize session request to the monitor's host: the host
    /// suspends automatic sizing when the session started and falls back to
    /// idle when it failed. Returns whether a host for the monitor is live.
    pub fn start_move_resize(&mut self, monitor_id: &String, session_started: bool) -> (found:
        bool)
        requires
            old(self).wf(),
        ensures
            final(self).wf(),
            final(self).state == old(self).state,
            final(self).config == old(self).config,
            final(self).preview == old(self).preview,
            found == spec_has_host(old(self).hosts@, monitor_id@),
            final(self).hosts@.len() == old(self).hosts@.len(),
            forall|i: int|
                0 <= i < old(self).hosts@.len() ==> (#[trigger] final(self).hosts@[i]) == (
                if old(self).hosts@[i].monitor_id@ == monitor_id@ {
                    crate::host::spec_start_move_resize(old(self).hosts@[i], session_started)
                } else {
                    old(self).hosts@[i]
                }),
    {
        match self.host_index(monitor_id) {
            Some(i) => {
                let h = vstd::std_specs::vec::vec_index_mut(&mut self.hosts, i);
                h.start_move_resize(session_started);
                proof {
                    self.lemma_update_keeps_wf(*old(self), i as int);
                }
                true
            },
            None => false,
        }
    }

    /// Routes one live preview frame of a gesture to the monitor's host.
    /// Returns whether a host for the monitor is live.
    pub fn apply_preview(&mut self, monitor_id: &String, preview: WindowConfig) -> (found: bool)
        requires
            old(self).wf(),
        ensures
            final(self).wf(),
            final(self).state == old(self).state,
            final(self).config == old(self).config,
            final(self).preview == old(self).preview,
            found == spec_has_host(old(self).hosts@, monitor_id@),
            final(self).hosts@.len() == old(self).hosts@.len(),
            forall|i: int|
                0 <= i < old(self).hosts@.len() ==> (#[trigger] final(self).hosts@[i]) == (
                if old(self).hosts@[i].monitor_id@ == monitor_id@ {
                    crate::host::spec_apply_preview(old(self).hosts@[i], preview)
                } else {
                    old(self).hosts@[i]
                }),
    {
        match self.host_index(monitor_id) {
            Some(i) => {
                let h = vstd::std_specs::vec::vec_index_mut(&mut self.hosts, i);
                h.apply_preview(preview);
                proof {
                    self.lemma_update_keeps_wf(*old(self), i as int);
                }
                true
            },
            None => false,
        }
    }

    /// Commits a gesture on the monitor's host: the committed geometry
    /// becomes the host's settings and the persisted entry for the monitor.
    /// Returns the settings to write to durable storage, or `None` when no
    /// host for the monitor is live.
    pub fn commit_move_resize(&mut self, monitor_id: &String, committed: WindowConfig) -> (saved:
        Option<MonitorConfig>)
        requires
            old(self).wf(),
        ensures
            final(self).wf(),
            final(self).state == old(self).state,
            final(self).preview == old(self).preview,
            saved is Some == spec_has_host(old(self).hosts@, monitor_id@),
            final(self).hosts@.len() == old(self).hosts@.len(),
            forall|i: int|
                0 <= i < old(self).hosts@.len() ==> (#[trigger] final(self).hosts@[i]) == (
                if old(self).hosts@[i].monitor_id@ == monitor_id@ {
                    crate::host::spec_commit_drag(old(self).hosts@[i], committed)
                } else {
                    old(self).hosts@[i]
                }),
            forall|i: int|
                0 <= i < old(self).hosts@.len() && (#[trigger] old(self).hosts@[i]).monitor_id@
                    == monitor_id@ ==> saved == Some(
                    crate::host::spec_commit_drag(old(self).hosts@[i], committed).config,
                ),
            match saved {
                Some(c) => {
                    &&& final(self).config.spec_get(monitor_id@) == Some(c)
                    &&& forall|k: Seq<char>|
                        k != monitor_id@ ==> final(self).config.spec_get(k) == old(
                            self,
                        ).config.spec_get(k)
                    &&& final(self).config.show_layout_button == old(
                        self,
                    ).config.show_layout_button
                    &&& final(self).config.hide_empty_workspaces == old(
                        self,
                    ).config.hide_empty_workspaces
                },
                None => final(self).config == old(self).config,
            },
    {
        match self.host_index(monitor_id) {
            Some(i) => {
                let h = vstd::std_specs::vec::vec_index_mut(&mut self.hosts, i);
                let c = h.commit_drag(committed);
                proof {
                    self.lemma_update_keeps_wf(*old(self), i as int);
                }
                self.config.set(monitor_id.clone(), c);
                Some(c)
            },
            None => None,
        }
    }

    /// Cancels a gesture on the monitor's host: the preview is discarded and
    /// the persisted settings stay untouched. Returns whether a host for the
    /// monitor is live.
    pub fn cancel_move_resize(&mut self, monitor_id: &String) -> (found: bool)
        requires
            old(self).wf(),
        ensures
            final(self).wf(),
            final(self).state == old(self).state,
            final(self).config == old(self).config,
            final(self).preview == old(self).preview,
            found == spec_has_host(old(self).hosts@, monitor_id@),
            final(self).hosts@.len() == old(self).hosts@.len(),
            forall|i: int|
                0 <= i < old(self).hosts@.len() ==> (#[trigger] final(self).hosts@[i]) == (
                if old(self).hosts@[i].monitor_id@ == monitor_id@ {
                    crate::host::spec_cancel_drag(old(self).hosts@[i])
                } else {
                    old(self).hosts@[i]
                }),
    {
        match self.host_index(monitor_id) {
            Some(i) => {
                let h = vstd::std_specs::vec::vec_index_mut(&mut self.hosts, i);
                h.cancel_drag();
                proof {
                    self.lemma_update_keeps_wf(*old(self), i as int);
                }
                true
            },
            None => false,
        }
    }

    /// Routes a content-driven resize request to the monitor's host: a no-op
    /// while a gesture is pending or live there. Returns whether the host's
    /// stored size actually changed.
    pub fn auto_resize(&mut self, monitor_id: &String, taskbar_height: i32, content_width: i32) -> (resized:
        bool)
        requires
            old(self).wf(),
        ensures
            final(self).wf(),
            final(self).state == old(self).state,
            final(self).config == old(self).config,
            final(self).preview == old(self).preview,
            final(self).hosts@.len() == old(self).hosts@.len(),
            forall|i: int|
                0 <= i < old(self).hosts@.len() ==> (#[trigger] final(self).hosts@[i]) == (
                if old(self).hosts@[i].monitor_id@ == monitor_id@ {
                    crate::host::spec_auto_resize(old(self).hosts@[i], taskbar_height, content_width)
                } else {
                    old(self).hosts@[i]
                }),
            !spec_has_host(old(self).hosts@, monitor_id@) ==> !resized,
            forall|i: int|
                0 <= i < old(self).hosts@.len() && (#[trigger] old(self).hosts@[i]).monitor_id@
                    == monitor_id@ ==> resized == (old(self).hosts@[i].mode is Idle && (
                crate::host::spec_auto_resize(
                    old(self).hosts@[i],
                    taskbar_height,
                    content_width,
                ).config.width != old(self).hosts@[i].config.width || crate::host::spec_auto_resize(
                    old(self).hosts@[i],
                    taskbar_height,
                    content_width,
                ).config.height != old(self).hosts@[i].config.height)),
    {
        match self.host_index(monitor_id) {
            Some(i) => {
                let h = vstd::std_specs::vec::vec_index_mut(&mut self.hosts, i);
                let resized = h.auto_resize(taskbar_height, content_width);
                proof {
                    self.lemma_update_keeps_wf(*old(self), i as int);
                }
                resized
            },
            None => false,
        }
    }

    /// Returns the tray menu labels: one per monitor that currently has a
    /// live switcher, in monitor order.
    pub fn switcher_menu_ids(&self) -> (r: Vec<String>)
        ensures
            r@.len() == spec_switcher_menu_ids(self.state.monitors@, self.hosts@).len(),
            forall|i: int|
                0 <= i < r@.len() ==> (#[trigger] r@[i])@ == spec_switcher_menu_ids(
                    self.state.monitors@,
                    self.hosts@,
                )[i],
    {
        let n = self.state.monitors.len();
        let mut out: Vec<String> = Vec::new();
        let mut i: usize = 0;
        while i < n
            invariant
                i <= n,
                n == self.state.monitors@.len(),
                out@.len() == spec_switcher_menu_ids(
                    self.state.monitors@.take(i as int),
                    self.hosts@,
                ).len(),
                forall|j: int|
                    0 <= j < out@.len() ==> (#[trigger] out@[j])@ == spec_switcher_menu_ids(
                        self.state.monitors@.take(i as int),
                        self.hosts@,
                    )[j],
            decreases n - i,
        {
            proof {
                assert(self.state.monitors@.take(i + 1 as int).drop_last()
                    =~= self.state.monitors@.take(i as int));
                assert(self.state.monitors@.take(i + 1 as int).last()
                    == self.state.monitors@[i as int]);
            }
            let m = &self.state.monitors[i];
            if self.has_host(&m.id) {
                let mut label = m.name.clone();
                label.append("-");
                label.append(m.id.as_str());
                out.push(label);
            }
            i = i + 1;
        }
        proof {
            assert(self.state.monitors@.take(n as int) =~= self.state.monitors@);
        }
        out
    }

    /// Handles one application event: state snapshots reconcile the host
    /// registry, recreate signals rebuild it, gesture events drive the
    /// addressed host's interaction state machine, and settings events
    /// update the persisted configuration or its live preview. Returns
    /// whether the shell must now write the configuration to durable
    /// storage.
    pub fn handle_app_message(
        &mut self,
        message: AppMessage,
        taskbars: &Vec<Taskbar>,
        new_hwnds: &Vec<isize>,
    ) -> (save_config: bool)
        requires
            old(self).wf(),
            message matches AppMessage::UpdateKomorebiState(s) ==> s.wf() && new_hwnds@.len()
                == spec_plan_creates(old(self).hosts@, s.monitors@, taskbars@).len(),
            message is RecreateSwitcherWindows || message is TaskbarRecreated
                ==> new_hwnds@.len() == spec_plan_creates(
                Seq::<HostWindow>::empty(),
                old(self).state.monitors@,
                taskbars@,
            ).len(),
            forall|i: int| 0 <= i < taskbars@.len() ==> spec_taskbar_geometry_ok(#[trigger] taskbars@[i]),
        ensures
            final(self).wf(),
            match message {
                AppMessage::UpdateKomorebiState(s) => {
                    &&& final(self).hosts@ == spec_reconciled_hosts(
                        old(self).hosts@,
                        s,
                        taskbars@,
                        new_hwnds@,
                        old(self).config,
                    )
                    &&& final(self).state == s
                    &&& final(self).config == old(self).config
                    &&& final(self).preview == old(self).preview
                    &&& !save_config
                },
                AppMessage::RecreateSwitcherWindows | AppMessage::TaskbarRecreated => {
                    &&& final(self).hosts@ == spec_created_hosts(
                        spec_plan_creates(
                            Seq::<HostWindow>::empty(),
                            old(self).state.monitors@,
                            taskbars@,
                        ),
                        new_hwnds@,
                        old(self).config,
                    )
                    &&& final(self).state == old(self).state
                    &&& final(self).config == old(self).config
                    &&& final(self).preview == old(self).preview
                    &&& !save_config
                },
                AppMessage::CloseWindow(monitor_id) => {
                    &&& final(self).state == old(self).state
                    &&& final(self).config == old(self).config
                    &&& final(self).preview == old(self).preview
                    &&& !spec_has_host(final(self).hosts@, monitor_id@)
                    &&& (spec_has_host(old(self).hosts@, monitor_id@) ==> exists|i: int|
                        0 <= i < old(self).hosts@.len() && (#[trigger] old(
                            self,
                        ).hosts@[i]).monitor_id@ == monitor_id@ && final(self).hosts@ == old(
                            self,
                        ).hosts@.remove(i))
                    &&& (!spec_has_host(old(self).hosts@, monitor_id@) ==> final(self).hosts@
                        == old(self).hosts@)
                    &&& !save_config
                },
                AppMessage::StartMoveResize { .. } | AppMessage::CancelMoveResize(_) => {
                    &&& final(self).state == old(self).state
                    &&& final(self).config == old(self).config
                    &&& final(self).preview == old(self).preview
                    &&& final(self).hosts@.len() == old(self).hosts@.len()
                    &&& forall|i: int|
                        0 <= i < old(self).hosts@.len() ==> (#[trigger] final(self).hosts@[i])
                            == spec_host_after_message(old(self).hosts@[i], message)
                    &&& !save_config
                },
                AppMessage::NotifyWindowInfoChanges { monitor_id, info } => {
                    &&& final(self).state == old(self).state
                    &&& final(self).preview == old(self).preview
                    &&& final(self).hosts@.len() == old(self).hosts@.len()
                    &&& forall|i: int|
                        0 <= i < old(self).hosts@.len() ==> (#[trigger] final(self).hosts@[i])
                            == spec_host_after_message(old(self).hosts@[i], message)
                    &&& save_config == spec_has_host(old(self).hosts@, monitor_id@)
                    &&& (save_config ==> forall|i: int|
                        0 <= i < old(self).hosts@.len() && (#[trigger] old(
                            self,
                        ).hosts@[i]).monitor_id@ == monitor_id@ ==> final(self).config.spec_get(
                            monitor_id@,
                        ) == Some(crate::host::spec_commit_drag(old(self).hosts@[i], info).config))
                    &&& (save_config ==> forall|k: Seq<char>|
                        k != monitor_id@ ==> final(self).config.spec_get(k) == old(
                            self,
                        ).config.spec_get(k))
                    &&& (save_config ==> final(self).config.show_layout_button == old(
                        self,
                    ).config.show_layout_button && final(self).config.hide_empty_workspaces == old(
                        self,
                    ).config.hide_empty_workspaces)
                    &&& (!save_config ==> final(self).config == old(self).config)
                },
                AppMessage::UpdateWindowConfig { monitor_id, config } => {
                    &&& final(self).state == old(self).state
                    &&& final(self).preview == old(self).preview
                    &&& final(self).hosts@ == old(self).hosts@
                    &&& final(self).config.spec_get(monitor_id@) == Some(config)
                    &&& forall|k: Seq<char>|
                        k != monitor_id@ ==> final(self).config.spec_get(k) == old(
                            self,
                        ).config.spec_get(k)
                    &&& final(self).config.show_layout_button == old(
                        self,
                    ).config.show_layout_button
                    &&& final(self).config.hide_empty_workspaces == old(
                        self,
                    ).config.hide_empty_workspaces
                    &&& save_config
                },
                AppMessage::PreviewConfig(c) => {
                    &&& final(self).state == old(self).state
                    &&& final(self).config == old(self).config
                    &&& final(self).hosts@ == old(self).hosts@
                    &&& final(self).preview == Some(c)
                    &&& !save_config
                },
                AppMessage::ClearPreviewConfig => {
                    &&& final(self).state == old(self).state
                    &&& final(self).config == old(self).config
                    &&& final(self).hosts@ == old(self).hosts@
                    &&& final(self).preview is None
                    &&& !save_config
                },
            },
    {
        match message {
            AppMessage::UpdateKomorebiState(s) => {
                self.reconcile(s, taskbars, new_hwnds);
                false
            },
            AppMessage::RecreateSwitcherWindows | AppMessage::TaskbarRecreated => {
                self.recreate(taskbars, new_hwnds);
                false
            },
            AppMessage::CloseWindow(monitor_id) => {
                let _ = self.remove_host(&monitor_id);
                false
            },
            AppMessage::StartMoveResize { monitor_id, session_started } => {
                let _ = self.start_move_resize(&monitor_id, session_started);
                false
            },
            AppMessage::NotifyWindowInfoChanges { monitor_id, info } => {
                let saved = self.commit_move_resize(&monitor_id, info);
                saved.is_some()
            },
            AppMessage::CancelMoveResize(monitor_id) => {
                let _ = self.cancel_move_resize(&monitor_id);
                false
            },
            AppMessage::UpdateWindowConfig { monitor_id, config } => {
                self.config.set(monitor_id, config);
                true
            },
            AppMessage::PreviewConfig(c) => {
                self.preview = Some(c);
                false
            },
            AppMessage::ClearPreviewConfig => {
                self.preview = None;
                false
            },
        }
    }

    /// Updating one host in place cannot break uniqueness as long as the
    /// host's monitor id is unchanged — which every gesture transition
    /// guarantees.
    proof fn lemma_update_keeps_wf(self, prev: App, i: int)
        requires
            spec_hosts_wf(prev.hosts@),
            self.hosts@.len() == prev.hosts@.len(),
            0 <= i < prev.hosts@.len(),
            forall|j: int| 0 <= j < prev.hosts@.len() && j != i ==> self.hosts@[j] == prev.hosts@[j],
            self.hosts@[i].monitor_id@ == prev.hosts@[i].monitor_id@,
        ensures
            spec_hosts_wf(self.hosts@),
    {
        assert forall|p: int, q: int|
            0 <= p < self.hosts@.len() && 0 <= q < self.hosts@.len() && p
                != q implies self.hosts@[p].monitor_id@ != self.hosts@[q].monitor_id@ by {
            assert(prev.hosts@[p].monitor_id@ != prev.hosts@[q].monitor_id@);
        }
    }

    /// Tears down every live host unconditionally, then runs the create pass
    /// from scratch against the current snapshot.
    pub fn recreate(&mut self, taskbars: &Vec<Taskbar>, new_hwnds: &Vec<isize>)
        requires
            old(self).wf(),
            new_hwnds@.len() == spec_plan_creates(
                Seq::<HostWindow>::empty(),
                old(self).state.monitors@,
                taskbars@,
            ).len(),
            forall|i: int| 0 <= i < taskbars@.len() ==> spec_taskbar_geometry_ok(#[trigger] taskbars@[i]),
        ensures
            final(self).hosts@ == spec_created_hosts(
                spec_plan_creates(
                    Seq::<HostWindow>::empty(),
                    old(self).state.monitors@,
                    taskbars@,
                ),
                new_hwnds@,
                old(self).config,
            ),
            final(self).state == old(self).state,
            final(self).config == old(self).config,
            final(self).preview == old(self).preview,
            final(self).wf(),
    {
        self.hosts.clear();
        proof {
            assert(self.hosts@ =~= Seq::<HostWindow>::empty());
        }
        self.create_switchers(taskbars, new_hwnds);
        proof {
            assert(Seq::<HostWindow>::empty() + spec_created_hosts(
                spec_plan_creates(
                    Seq::<HostWindow>::empty(),
                    old(self).state.monitors@,
                    taskbars@,
                ),
                new_hwnds@,
                old(self).config,
            ) =~= spec_created_hosts(
                spec_plan_creates(
                    Seq::<HostWindow>::empty(),
                    old(self).state.monitors@,
                    taskbars@,
                ),
                new_hwnds@,
                old(self).config,
            ));
        }
    }
}

/// Once a snapshot has been fully reconciled, reconciling the same snapshot
/// again is a no-op: the create pass plans nothing and the prune pass
/// removes nothing, so the registry of live hosts is left exactly as it is.
pub proof fn lemma_reconcile_idempotent(
    hosts: Seq<HostWindow>,
    snapshot: State,
    taskbars: Seq<Taskbar>,
    hwnds: Seq<isize>,
    config: Config,
)
    requires
        spec_hosts_wf(hosts),
        snapshot.wf(),
        hwnds.len() == spec_plan_creates(hosts, snapshot.monitors@, taskbars).len(),
    ensures
        spec_plan_creates(
            spec_reconciled_hosts(hosts, snapshot, taskbars, hwnds, config),
            snapshot.monitors@,
            taskbars,
        ).len() == 0,
        spec_prune(spec_reconciled_hosts(hosts, snapshot, taskbars, hwnds, config), snapshot)
            == spec_reconciled_hosts(hosts, snapshot, taskbars, hwnds, config),
        spec_reconciled_hosts(
            spec_reconciled_hosts(hosts, snapshot, taskbars, hwnds, config),
            snapshot,
            taskbars,
            Seq::empty(),
            config,
        ) == spec_reconciled_hosts(hosts, snapshot, taskbars, hwnds, config),
{
    let plan = spec_plan_creates(hosts, snapshot.monitors@, taskbars);
    let created = spec_created_hosts(plan, hwnds, config);
    let combined = hosts + created;
    let after = spec_prune(combined, snapshot);
    lemma_prune_wf(combined, snapshot);
    lemma_prune_identity(after, snapshot);
    assert forall|m: int|
        0 <= m < snapshot.monitors@.len() implies spec_has_host(
        after,
        (#[trigger] snapshot.monitors@[m]).id@,
    ) || spec_find_taskbar(taskbars, snapshot.monitors@[m].rect) is None by {
        let mon = snapshot.monitors@[m];
        assert(snapshot.spec_has_monitor(mon.id@));
        if spec_find_taskbar(taskbars, mon.rect) is Some {
            if spec_has_host(hosts, mon.id@) {
                let j = choose|j: int| 0 <= j < hosts.len() && hosts[j].monitor_id@ == mon.id@;
                assert(combined[j].monitor_id@ == mon.id@);
                assert(spec_has_host(combined, mon.id@));
                assert(spec_has_host(after, mon.id@));
            } else {
                lemma_plan_covers_one(hosts, snapshot.monitors@, taskbars, m);
                let i = choose|i: int|
                    0 <= i < plan.len() && (#[trigger] plan[i]).monitor_id@ == mon.id@;
                assert(created[i].monitor_id@ == mon.id@);
                assert(combined[hosts.len() + i].monitor_id@ == mon.id@);
                assert(spec_has_host(combined, mon.id@));
                assert(spec_has_host(after, mon.id@));
            }
        }
    }
    lemma_plan_empty(after, snapshot.monitors@, taskbars);
    let plan_again = spec_plan_creates(after, snapshot.monitors@, taskbars);
    assert(spec_created_hosts(plan_again, Seq::empty(), config) =~= Seq::<HostWindow>::empty());
    assert(after + spec_created_hosts(plan_again, Seq::empty(), config) =~= after);
}

/// A monitor that lacks a live host and has a matching taskbar appears in
/// the plan.
proof fn lemma_plan_covers_one(
    hosts: Seq<HostWindow>,
    monitors: Seq<Monitor>,
    taskbars: Seq<Taskbar>,
    m: int,
)
    requires
        0 <= m < monitors.len(),
        !spec_has_host(hosts, monitors[m].id@),
        spec_find_taskbar(taskbars, monitors[m].rect) is Some,
    ensures
        exists|i: int|
            0 <= i < spec_plan_creates(hosts, monitors, taskbars).len() && (#[trigger]
            spec_plan_creates(hosts, monitors, taskbars)[i]).monitor_id@ == monitors[m].id@,
    decreases monitors.len(),
{
    let prefix = spec_plan_creates(hosts, monitors.drop_last(), taskbars);
    let full = spec_plan_creates(hosts, monitors, taskbars);
    if m == monitors.len() - 1 {
        assert(full[prefix.len() as int].monitor_id@ == monitors[m].id@);
    } else {
        assert(monitors.drop_last()[m] == monitors[m]);
        lemma_plan_covers_one(hosts, monitors.drop_last(), taskbars, m);
        let i = choose|i: int|
            0 <= i < prefix.len() && (#[trigger] prefix[i]).monitor_id@
                == monitors.drop_last()[m].id@;
        assert(full[i].monitor_id@ == monitors[m].id@);
    }
}

/// When every monitor either has a live host or no matching taskbar, the
/// plan is empty.
proof fn lemma_plan_empty(hosts: Seq<HostWindow>, monitors: Seq<Monitor>, taskbars: Seq<Taskbar>)
    requires
        forall|m: int|
            0 <= m < monitors.len() ==> spec_has_host(hosts, (#[trigger] monitors[m]).id@)
                || spec_find_taskbar(taskbars, monitors[m].rect) is None,
    ensures
        spec_plan_creates(hosts, monitors, taskbars).len() == 0,
    decreases monitors.len(),
{
    if monitors.len() > 0 {
        assert(forall|m: int|
            0 <= m < monitors.drop_last().len() ==> #[trigger] monitors.drop_last()[m]
                == monitors[m]);
        lemma_plan_empty(hosts, monitors.drop_last(), taskbars);
    }
}

/// Pruning a registry whose monitors the snapshot all still lists leaves it
/// unchanged.
proof fn lemma_prune_identity(hosts: Seq<HostWindow>, snapshot: State)
    requires
        forall|i: int|
            0 <= i < hosts.len() ==> snapshot.spec_has_monitor(
                (#[trigger] hosts[i]).monitor_id@,
            ),
    ensures
        spec_prune(hosts, snapshot) == hosts,
    decreases hosts.len(),
{
    if hosts.len() > 0 {
        assert(forall|i: int|
            0 <= i < hosts.drop_first().len() ==> #[trigger] hosts.drop_first()[i] == hosts[i
                + 1]);
        lemma_prune_identity(hosts.drop_first(), snapshot);
        assert(seq![hosts[0]] + hosts.drop_first() =~= hosts);
    }
}

/// A taskbar found for a monitor is one of the discovered taskbars.
proof fn lemma_find_taskbar_mem(tbs: Seq<Taskbar>, r: Rect)
    ensures
        spec_find_taskbar(tbs, r) matches Some(t) ==> tbs.contains(t),
    decreases tbs.len(),
{
    if tbs.len() > 0 {
        if crate::utils::spec_contains(r, tbs[0].rect) {
            assert(spec_find_taskbar(tbs, r) == Some(tbs[0]));
            assert(tbs.contains(tbs[0]));
        } else {
            lemma_find_taskbar_mem(tbs.drop_first(), r);
            if spec_find_taskbar(tbs.drop_first(), r) is Some {
                let t = spec_find_taskbar(tbs.drop_first(), r)->Some_0;
                let i = choose|i: int| 0 <= i < tbs.drop_first().len() && tbs.drop_first()[i] == t;
                assert(tbs[i + 1] == t);
            }
        }
    }
}

/// Every planned creation uses one of the discovered taskbars.
proof fn lemma_plan_taskbars_mem(hosts: Seq<HostWindow>, monitors: Seq<Monitor>, taskbars: Seq<Taskbar>)
    ensures
        forall|i: int|
            0 <= i < spec_plan_creates(hosts, monitors, taskbars).len() ==> taskbars.contains(
                #[trigger] spec_plan_creates(hosts, monitors, taskbars)[i].taskbar,
            ),
    decreases monitors.len(),
{
    if monitors.len() > 0 {
        lemma_plan_taskbars_mem(hosts, monitors.drop_last(), taskbars);
        let prefix = spec_plan_creates(hosts, monitors.drop_last(), taskbars);
        let full = spec_plan_creates(hosts, monitors, taskbars);
        let m = monitors.last();
        if !spec_has_host(hosts, m.id@) && spec_find_taskbar(taskbars, m.rect) is Some {
            lemma_find_taskbar_mem(taskbars, m.rect);
            assert(full == prefix.push(
                PlannedCreate {
                    monitor_id: m.id,
                    taskbar: spec_find_taskbar(taskbars, m.rect)->Some_0,
                },
            ));
            assert forall|i: int| 0 <= i < full.len() implies taskbars.contains(
                full[i].taskbar,
            ) by {
                if i < prefix.len() {
                    assert(full[i] == prefix[i]);
                    assert(taskbars.contains(prefix[i].taskbar));
                }
            }
        } else {
            assert(full == prefix);
            assert forall|i: int| 0 <= i < full.len() implies taskbars.contains(
                full[i].taskbar,
            ) by {
                assert(full[i] == prefix[i]);
                assert(taskbars.contains(prefix[i].taskbar));
            }
        }
    }
}

/// Every planned creation is for a monitor of the snapshot that has no live
/// host, and under distinct monitor ids the planned ids are distinct.
proof fn lemma_plan_ids(hosts: Seq<HostWindow>, monitors: Seq<Monitor>, taskbars: Seq<Taskbar>)
    requires
        forall|i: int, j: int|
            0 <= i < monitors.len() && 0 <= j < monitors.len() && i != j
                ==> monitors[i].id@ != monitors[j].id@,
    ensures
        forall|i: int|
            0 <= i < spec_plan_creates(hosts, monitors, taskbars).len() ==> !spec_has_host(
                hosts,
                #[trigger] spec_plan_creates(hosts, monitors, taskbars)[i].monitor_id@,
            ),
        forall|i: int|
            0 <= i < spec_plan_creates(hosts, monitors, taskbars).len() ==> exists|m: int|
                0 <= m < monitors.len() && (#[trigger] monitors[m].id@) == (#[trigger]
                spec_plan_creates(hosts, monitors, taskbars)[i]).monitor_id@,
        forall|i: int, j: int|
            0 <= i < spec_plan_creates(hosts, monitors, taskbars).len() && 0 <= j
                < spec_plan_creates(hosts, monitors, taskbars).len() && i != j
                ==> spec_plan_creates(hosts, monitors, taskbars)[i].monitor_id@
                != spec_plan_creates(hosts, monitors, taskbars)[j].monitor_id@,
    decreases monitors.len(),
{
    if monitors.len() > 0 {
        let prefix_monitors = monitors.drop_last();
        lemma_plan_ids(hosts, prefix_monitors, taskbars);
        let prefix = spec_plan_creates(hosts, prefix_monitors, taskbars);
        let full = spec_plan_creates(hosts, monitors, taskbars);
        let m = monitors.last();
        if !spec_has_host(hosts, m.id@) && spec_find_taskbar(taskbars, m.rect) is Some {
            assert(full == prefix.push(
                PlannedCreate { monitor_id: m.id, taskbar: spec_find_taskbar(taskbars, m.rect)->Some_0 },
            ));
            assert(monitors[monitors.len() - 1].id@ == m.id@);
            assert forall|i: int| 0 <= i < prefix.len() implies prefix[i].monitor_id@
                != m.id@ by {
                let w = choose|w: int|
                    0 <= w < prefix_monitors.len() && prefix_monitors[w].id@
                        == prefix[i].monitor_id@;
                assert(prefix_monitors[w] == monitors[w]);
                assert(monitors[w].id@ != monitors[monitors.len() - 1].id@);
            }
        }
    }
}

/// Pruning keeps exactly the hosts whose monitors the snapshot lists: the
/// surviving ids are the live ids the snapshot still has, and uniqueness of
/// hosts is preserved.
proof fn lemma_prune_wf(hosts: Seq<HostWindow>, snapshot: State)
    ensures
        forall|id: Seq<char>|
            #[trigger] spec_has_host(spec_prune(hosts, snapshot), id) <==> spec_has_host(hosts, id)
                && snapshot.spec_has_monitor(id),
        forall|i: int|
            0 <= i < spec_prune(hosts, snapshot).len() ==> snapshot.spec_has_monitor(
                #[trigger] spec_prune(hosts, snapshot)[i].monitor_id@,
            ),
        spec_hosts_wf(hosts) ==> spec_hosts_wf(spec_prune(hosts, snapshot)),
    decreases hosts.len(),
{
    if hosts.len() > 0 {
        lemma_prune_wf(hosts.drop_first(), snapshot);
        let rest = spec_prune(hosts.drop_first(), snapshot);
        let pruned = spec_prune(hosts, snapshot);
        if spec_hosts_wf(hosts) {
            assert(spec_hosts_wf(hosts.drop_first()));
        }
        assert forall|id: Seq<char>| #[trigger] spec_has_host(pruned, id) implies spec_has_host(
            hosts,
            id,
        ) && snapshot.spec_has_monitor(id) by {
            let i = choose|i: int| 0 <= i < pruned.len() && pruned[i].monitor_id@ == id;
            if snapshot.spec_has_monitor(hosts[0].monitor_id@) {
                if i == 0 {
                    assert(hosts[0].monitor_id@ == id);
                } else {
                    assert(rest[i - 1].monitor_id@ == id);
                    assert(spec_has_host(rest, id));
                    let j = choose|j: int|
                        0 <= j < hosts.drop_first().len() && hosts.drop_first()[j].monitor_id@
                            == id;
                    assert(hosts[j + 1].monitor_id@ == id);
                }
            } else {
                assert(rest[i].monitor_id@ == id);
                assert(spec_has_host(rest, id));
                let j = choose|j: int|
                    0 <= j < hosts.drop_first().len() && hosts.drop_first()[j].monitor_id@ == id;
                assert(hosts[j + 1].monitor_id@ == id);
            }
        }
        assert forall|id: Seq<char>|
            spec_has_host(hosts, id) && snapshot.spec_has_monitor(
                id,
            ) implies #[trigger] spec_has_host(pruned, id) by {
            let i = choose|i: int| 0 <= i < hosts.len() && hosts[i].monitor_id@ == id;
            if i == 0 {
                assert(pruned[0].monitor_id@ == id);
            } else {
                assert(hosts.drop_first()[i - 1].monitor_id@ == id);
                assert(spec_has_host(hosts.drop_first(), id));
                assert(spec_has_host(rest, id));
                let j = choose|j: int| 0 <= j < rest.len() && rest[j].monitor_id@ == id;
                if snapshot.spec_has_monitor(hosts[0].monitor_id@) {
                    assert(pruned[j + 1].monitor_id@ == id);
                } else {
                    assert(pruned[j].monitor_id@ == id);
                }
            }
        }
        if spec_hosts_wf(hosts) {
            assert(forall|i: int|
                0 <= i < hosts.drop_first().len() ==> #[trigger] hosts.drop_first()[i] == hosts[i
                    + 1]);
            assert(spec_hosts_wf(hosts.drop_first()));
            assert(spec_hosts_wf(rest));
            let id0 = hosts[0].monitor_id@;
            assert forall|p: int, q: int|
                0 <= p < pruned.len() && 0 <= q < pruned.len() && p
                    != q implies pruned[p].monitor_id@ != pruned[q].monitor_id@ by {
                if snapshot.spec_has_monitor(id0) {
                    assert(pruned == seq![hosts[0]] + rest);
                    if p > 0 && q > 0 {
                        assert(pruned[p] == rest[p - 1] && pruned[q] == rest[q - 1]);
                    } else {
                        let r = if p == 0 {
                            q
                        } else {
                            p
                        };
                        assert(pruned[r] == rest[r - 1]);
                        if rest[r - 1].monitor_id@ == id0 {
                            assert(spec_has_host(rest, id0));
                            assert(spec_has_host(hosts.drop_first(), id0));
                            let j = choose|j: int|
                                0 <= j < hosts.drop_first().len() && hosts.drop_first()[j].monitor_id@
                                    == id0;
                            assert(hosts[j + 1].monitor_id@ == id0);
                            assert(false);
                        }
                    }
                } else {
                    assert(pruned == rest);
                }
            }
        }
    }
}

} // verus!
