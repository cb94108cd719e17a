//! The monitor/workspace snapshot delivered by the window manager's state
//! feed.
//!
//! A snapshot is plain data: every delivery replaces the previous value
//! wholesale, and monitors are identified by their stable `id` string.

use vstd::prelude::*;

use crate::utils::Rect;

verus! {

/// One workspace on a monitor.
#[derive(Debug)]
pub struct Workspace {
    pub index: usize,
    pub name: String,
    pub layout: String,
    pub focused: bool,
    pub is_empty: bool,
}

/// One monitor in a snapshot, identified by its stable `id`.
#[derive(Debug)]
pub struct Monitor {
    pub id: String,
    pub name: String,
    pub index: usize,
    pub rect: Rect,
    pub workspaces: Vec<Workspace>,
}

/// One immutable snapshot from the state feed.
#[derive(Debug)]
pub struct State {
    pub monitors: Vec<Monitor>,
}

impl Monitor {
    /// Index of the first focused workspace, if any.
    pub fn focused_workspace(&self) -> (r: Option<usize>)
        ensures
            match r {
                Some(i) => {
                    &&& i < self.workspaces@.len()
                    &&& self.workspaces@[i as int].focused
                    &&& forall|j: int| 0 <= j < i ==> !self.workspaces@[j].focused
                },
                None => forall|j: int|
                    0 <= j < self.workspaces@.len() ==> !self.workspaces@[j].focused,
            },
    {
        let n = self.workspaces.len();
        let mut i: usize = 0;
        while i < n
            invariant
                i <= n,
                n == self.workspaces@.len(),
                forall|j: int| 0 <= j < i ==> !self.workspaces@[j].focused,
            decreases n - i,
        {
            if self.workspaces[i].focused {
                return Some(i);
            }
            i = i + 1;
        }
        None
    }
}

impl State {
    /// Monitor ids are pairwise distinct.
    pub open spec fn wf(self) -> bool {
        forall|i: int, j: int|
            0 <= i < j < self.monitors@.len() ==> self.monitors@[i].id@ != self.monitors@[j].id@
    }

    /// Whether the snapshot lists a monitor with the given id.
    pub open spec fn spec_has_monitor(self, id: Seq<char>) -> bool {
        exists|i: int| 0 <= i < self.monitors@.len() && self.monitors@[i].id@ == id
    }

    /// Decides whether the snapshot lists a monitor with the given id.
    pub fn has_monitor(&self, id: &String) -> (r: bool)
        ensures
            r == self.spec_has_monitor(id@),
    {
        let n = self.monitors.len();
        let mut i: usize = 0;
        while i < n
            invariant
                i <= n,
                n == self.monitors@.len(),
                forall|j: int| 0 <= j < i ==> self.monitors@[j].id@ != id@,
            decreases n - i,
        {
            if self.monitors[i].id == *id {
                return true;
            }
            i = i + 1;
        }
        false
    }
}

} // verus!
