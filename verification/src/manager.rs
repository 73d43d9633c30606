//! The manager facade: the subset of the window manager's own state and
//! operations that hooks are permitted to call.
//!
//! Protocol-facing effects are modelled as facade state: the root-window
//! name is the last value requested, and program launches are recorded as an
//! ordered list of spawn requests for the embedding to perform (the facade
//! itself never waits on them).

use vstd::prelude::*;

use crate::data_types::Selector;
use crate::workspace::{Workspace, WorkspaceView};

verus! {

/// Which workspace a selector picks in the manager `m`, if any. A selector
/// that matches nothing resolves to `None`; the caller must treat that as a
/// recoverable failure.
pub open spec fn resolve_selector(m: WindowManager, s: Selector) -> Option<int> {
    match s {
        Selector::Index(i) => if (i as int) < m.spec_workspaces().len() {
            Some(i as int)
        } else {
            None
        },
        Selector::Focused => if m.spec_focused_workspace() < m.spec_workspaces().len() {
            Some(m.spec_focused_workspace())
        } else {
            None
        },
    }
}

/// The facade state hooks operate on: the workspaces, which of them is
/// focused, the root-window name last requested, and the ordered list of
/// programs whose launch has been requested.
#[derive(Debug)]
pub struct WindowManager {
    workspaces: Vec<Workspace>,
    focused_workspace: usize,
    root_name: String,
    spawned: Vec<String>,
}

impl WindowManager {
    /// Models of the manager's workspaces, in order.
    pub closed spec fn spec_workspaces(&self) -> Seq<WorkspaceView> {
        self.workspaces@.map_values(|w: Workspace| w@)
    }

    /// Index of the currently focused workspace.
    pub closed spec fn spec_focused_workspace(&self) -> int {
        self.focused_workspace as int
    }

    /// The root-window name last requested.
    pub closed spec fn spec_root_name(&self) -> Seq<char> {
        self.root_name@
    }

    /// Every program whose launch has been requested, in request order.
    pub closed spec fn spec_spawned(&self) -> Seq<Seq<char>> {
        self.spawned@.map_values(|s: String| s@)
    }

    /// A manager always has a workspace, and the focused index stays inside
    /// the workspace list. Hooks must preserve this.
    pub open spec fn well_formed(&self) -> bool {
        &&& 0 < self.spec_workspaces().len()
        &&& self.spec_focused_workspace() < self.spec_workspaces().len()
    }

    /// The short symbol of the active layout on the focused workspace.
    pub open spec fn spec_current_layout_symbol(&self) -> Seq<char> {
        let w = self.spec_workspaces()[self.spec_focused_workspace()];
        w.layout_symbols[w.current_layout]
    }

    /// A manager over the given workspaces: the first one is focused, the
    /// root-window name is empty and nothing has been spawned.
    pub fn new(workspaces: Vec<Workspace>) -> (m: WindowManager)
        requires
            workspaces@.len() > 0,
        ensures
            m.well_formed(),
            m.spec_workspaces() == workspaces@.map_values(|w: Workspace| w@),
            m.spec_focused_workspace() == 0,
            m.spec_root_name() == Seq::<char>::empty(),
            m.spec_spawned() == Seq::<Seq<char>>::empty(),
    {
        let m = WindowManager {
            workspaces,
            focused_workspace: 0,
            root_name: String::new(),
            spawned: Vec::new(),
        };
        proof {
            assert(m.spec_spawned() =~= Seq::<Seq<char>>::empty());
        }
        m
    }

    /// How many workspaces the manager holds.
    pub fn workspace_count(&self) -> (r: usize)
        ensures
            r == self.spec_workspaces().len(),
    {
        self.workspaces.len()
    }

    /// Index of the currently focused workspace.
    pub fn focused_workspace_index(&self) -> (r: usize)
        ensures
            r == self.spec_focused_workspace(),
    {
        self.focused_workspace
    }

    /// Make the workspace at `index` the focused one. Returns whether the
    /// index named a workspace; an out-of-range index changes nothing.
    pub fn focus_workspace(&mut self, index: usize) -> (r: bool)
        ensures
            r == ((index as int) < old(self).spec_workspaces().len()),
            r ==> final(self).spec_focused_workspace() == index as int,
            !r ==> final(self).spec_focused_workspace() == old(self).spec_focused_workspace(),
            final(self).spec_workspaces() == old(self).spec_workspaces(),
            final(self).spec_root_name() == old(self).spec_root_name(),
            final(self).spec_spawned() == old(self).spec_spawned(),
    {
        if index < self.workspaces.len() {
            self.focused_workspace = index;
            true
        } else {
            false
        }
    }

    /// Set the process-wide, externally observable status string.
    pub fn set_root_window_name(&mut self, name: &str)
        ensures
            final(self).spec_root_name() == name@,
            final(self).spec_workspaces() == old(self).spec_workspaces(),
            final(self).spec_focused_workspace() == old(self).spec_focused_workspace(),
            final(self).spec_spawned() == old(self).spec_spawned(),
    {
        self.root_name = name.to_owned();
    }

    /// The root-window name last requested.
    pub fn root_window_name(&self) -> (r: &String)
        ensures
            r@ == self.spec_root_name(),
    {
        &self.root_name
    }

    /// The active layout's short symbol for the currently focused workspace.
    pub fn current_layout_symbol(&self) -> (r: String)
        requires
            self.well_formed(),
        ensures
            r@ == self.spec_current_layout_symbol(),
    {
        let ws = &self.workspaces[self.focused_workspace];
        proof {
            assert(ws@ == self.spec_workspaces()[self.spec_focused_workspace()]);
        }
        ws.layout_symbol().clone()
    }

    /// Resolve a workspace selector to an index into the workspace list;
    /// `None` when the selector matches nothing.
    pub fn workspace_index(&self, selector: &Selector) -> (r: Option<usize>)
        ensures
            match r {
                Some(u) => resolve_selector(*self, *selector) == Some(u as int),
                None => resolve_selector(*self, *selector) is None,
            },
    {
        match selector {
            Selector::Index(i) => if *i < self.workspaces.len() {
                Some(*i)
            } else {
                None
            },
            Selector::Focused => if self.focused_workspace < self.workspaces.len() {
                Some(self.focused_workspace)
            } else {
                None
            },
        }
    }

    /// Read-only access to the workspace at `index`.
    pub fn workspace(&self, index: usize) -> (ws: &Workspace)
        requires
            (index as int) < self.spec_workspaces().len(),
        ensures
            ws@ == self.spec_workspaces()[index as int],
    {
        &self.workspaces[index]
    }

    /// Mutable access to the workspace at `index`; the rest of the manager
    /// is untouched while the reference lives.
    pub fn workspace_mut(&mut self, index: usize) -> (ws: &mut Workspace)
        requires
            (index as int) < old(self).spec_workspaces().len(),
        ensures
            (*ws)@ == old(self).spec_workspaces()[index as int],
            final(self).spec_workspaces() =~= old(self).spec_workspaces().update(
                index as int,
                (*final(ws))@,
            ),
            final(self).spec_focused_workspace() == old(self).spec_focused_workspace(),
            final(self).spec_root_name() == old(self).spec_root_name(),
            final(self).spec_spawned() == old(self).spec_spawned(),
    {
        &mut self.workspaces[index]
    }

    /// Request the launch of an external program. The request is recorded in
    /// order and never awaited; the embedding performs the actual launches.
    pub fn spawn(&mut self, program: &str)
        ensures
            final(self).spec_spawned() == old(self).spec_spawned().push(program@),
            final(self).spec_workspaces() == old(self).spec_workspaces(),
            final(self).spec_focused_workspace() == old(self).spec_focused_workspace(),
            final(self).spec_root_name() == old(self).spec_root_name(),
    {
        self.spawned.push(program.to_owned());
        proof {
            assert(self.spec_spawned() =~= old(self).spec_spawned().push(program@));
        }
    }

    /// The spawn requests recorded so far, oldest first.
    pub fn spawn_requests(&self) -> (r: &Vec<String>)
        ensures
            r@.map_values(|s: String| s@) == self.spec_spawned(),
    {
        &self.spawned
    }

    /// Hand out the spawn requests recorded so far, oldest first, clearing
    /// the record; the embedding launches them without waiting.
    pub fn take_spawn_requests(&mut self) -> (v: Vec<String>)
        ensures
            v@.map_values(|s: String| s@) == old(self).spec_spawned(),
            final(self).spec_spawned() == Seq::<Seq<char>>::empty(),
            final(self).spec_workspaces() == old(self).spec_workspaces(),
            final(self).spec_focused_workspace() == old(self).spec_focused_workspace(),
            final(self).spec_root_name() == old(self).spec_root_name(),
    {
        let mut v: Vec<String> = Vec::new();
        std::mem::swap(&mut v, &mut self.spawned);
        proof {
            assert(self.spec_spawned() =~= Seq::<Seq<char>>::empty());
        }
        v
    }
}

} // verus!
