//! Ready-made hooks that can be used out of the box with minimal
//! configuration.

use vstd::prelude::*;

use crate::client::{effective_name, Client};
use crate::data_types::Selector;
use crate::hooks::{LayoutChangeHook, NewClientHook, WorkspaceChangeHook};
use crate::manager::WindowManager;
use crate::workspace::apply_layout;

verus! {

/// Sets the root-window name to the name of each newly mapped window, as a
/// way of exposing state to external status programs. A window that reports
/// no name yields the fixed placeholder `"n/a"`. The name is read at map
/// time only — later renames are not observed.
pub struct ActiveClientAsRootName {}

impl ActiveClientAsRootName {
    /// A new instance, ready to register as a new-client hook.
    pub fn new() -> ActiveClientAsRootName {
        ActiveClientAsRootName {}
    }
}

impl NewClientHook for ActiveClientAsRootName {
    /// The root-window name becomes the client's effective name; nothing
    /// else changes.
    open spec fn call_ens(
        pre: Self,
        post: Self,
        wm_pre: WindowManager,
        wm_post: WindowManager,
        c_pre: Client,
        c_post: Client,
    ) -> bool {
        &&& post == pre
        &&& c_post == c_pre
        &&& wm_post.spec_root_name() == effective_name(c_pre@)
        &&& wm_post.spec_workspaces() == wm_pre.spec_workspaces()
        &&& wm_post.spec_focused_workspace() == wm_pre.spec_focused_workspace()
        &&& wm_post.spec_spawned() == wm_pre.spec_spawned()
    }

    fn call(&mut self, wm: &mut WindowManager, c: &mut Client) {
        wm.set_root_window_name(c.wm_name());
    }
}

/// Sets the root-window name to the current layout symbol of the workspace
/// that is active at call time, as a way of exposing state to external
/// status programs.
pub struct LayoutSymbolAsRootName {}

impl LayoutSymbolAsRootName {
    /// A new instance, ready to register as a layout-change hook.
    pub fn new() -> LayoutSymbolAsRootName {
        LayoutSymbolAsRootName {}
    }
}

impl LayoutChangeHook for LayoutSymbolAsRootName {
    /// The root-window name becomes the focused workspace's active layout
    /// symbol; nothing else changes.
    open spec fn call_ens(
        pre: Self,
        post: Self,
        wm_pre: WindowManager,
        wm_post: WindowManager,
        workspace_index: usize,
        layout_index: usize,
    ) -> bool {
        &&& post == pre
        &&& wm_post.spec_root_name() == wm_pre.spec_current_layout_symbol()
        &&& wm_post.spec_workspaces() == wm_pre.spec_workspaces()
        &&& wm_post.spec_focused_workspace() == wm_pre.spec_focused_workspace()
        &&& wm_post.spec_spawned() == wm_pre.spec_spawned()
    }

    fn call(&mut self, wm: &mut WindowManager, _workspace_index: usize, _layout_index: usize) {
        let symbol = wm.current_layout_symbol();
        wm.set_root_window_name(symbol.as_str());
    }
}

/// Mathematical model of a [`DefaultWorkspace`] hook's configuration.
#[verifier::ext_equal]
pub ghost struct DefaultWorkspaceView {
    pub name: Seq<char>,
    pub layout: Seq<char>,
    pub defaults: Seq<Seq<char>>,
}

/// Whenever focus moves to the workspace named `name` and that workspace is
/// empty, applies the layout whose symbol is `layout` and requests the
/// launch of the `defaults` programs, in their configured order. A
/// workspace that does not match, or already holds a client, is left alone.
pub struct DefaultWorkspace {
    name: String,
    layout: String,
    defaults: Vec<String>,
}

impl View for DefaultWorkspace {
    type V = DefaultWorkspaceView;

    closed spec fn view(&self) -> DefaultWorkspaceView {
        DefaultWorkspaceView {
            name: self.name@,
            layout: self.layout@,
            defaults: self.defaults@.map_values(|s: String| s@),
        }
    }
}

impl DefaultWorkspace {
    /// A hook that readies the workspace named `name` by applying `layout`
    /// and launching `defaults` the first time that workspace gains focus
    /// while still empty.
    pub fn new(name: String, layout: String, defaults: Vec<String>) -> (h: DefaultWorkspace)
        ensures
            h@ == (DefaultWorkspaceView {
                name: name@,
                layout: layout@,
                defaults: defaults@.map_values(|s: String| s@),
            }),
    {
        DefaultWorkspace { name, layout, defaults }
    }
}

impl WorkspaceChangeHook for DefaultWorkspace {
    /// On the newly focused workspace — resolved by index, a miss being a
    /// recoverable no-op — a matching name and zero clients trigger the
    /// layout change followed by one spawn request per configured program,
    /// in order; in every other case nothing changes. A layout symbol the
    /// workspace does not offer leaves the layout alone but still spawns:
    /// that failure is local and must not block unrelated actions.
    open spec fn call_ens(
        pre: Self,
        post: Self,
        wm_pre: WindowManager,
        wm_post: WindowManager,
        previous: usize,
        next: usize,
    ) -> bool {
        &&& post == pre
        &&& wm_post.spec_focused_workspace() == wm_pre.spec_focused_workspace()
        &&& wm_post.spec_root_name() == wm_pre.spec_root_name()
        &&& if (next as int) < wm_pre.spec_workspaces().len() {
            let w = wm_pre.spec_workspaces()[next as int];
            if w.name == pre@.name && w.clients.len() == 0 {
                &&& wm_post.spec_workspaces() == wm_pre.spec_workspaces().update(
                    next as int,
                    apply_layout(w, pre@.layout),
                )
                &&& wm_post.spec_spawned() == wm_pre.spec_spawned() + pre@.defaults
            } else {
                &&& wm_post.spec_workspaces() == wm_pre.spec_workspaces()
                &&& wm_post.spec_spawned() == wm_pre.spec_spawned()
            }
        } else {
            &&& wm_post.spec_workspaces() == wm_pre.spec_workspaces()
            &&& wm_post.spec_spawned() == wm_pre.spec_spawned()
        }
    }

    fn call(&mut self, wm: &mut WindowManager, _previous: usize, next: usize) {
        let index = match wm.workspace_index(&Selector::Index(next)) {
            Some(i) => i,
            None => {
                return ;
            },
        };
        let applies = {
            let ws = wm.workspace(index);
            *ws.name() == self.name && ws.len() == 0
        };
        if applies {
            {
                let ws = wm.workspace_mut(index);
                let _layout_known = ws.try_set_layout(&self.layout);
            }
            proof {
                assert(wm.spec_workspaces() =~= old(wm).spec_workspaces().update(
                    next as int,
                    apply_layout(old(wm).spec_workspaces()[next as int], self@.layout),
                ));
            }
            let ghost base = wm.spec_spawned();
            let ghost mid = *wm;
            proof {
                assert(base + self@.defaults.subrange(0, 0) =~= base);
            }
            let mut j: usize = 0;
            while j < self.defaults.len()
                invariant
                    j <= self.defaults@.len(),
                    *self == *old(self),
                    wm.spec_spawned() == base + self@.defaults.subrange(0, j as int),
                    wm.spec_workspaces() == mid.spec_workspaces(),
                    wm.spec_focused_workspace() == mid.spec_focused_workspace(),
                    wm.spec_root_name() == mid.spec_root_name(),
                    wm.well_formed(),
                decreases self.defaults@.len() - j,
            {
                wm.spawn(self.defaults[j].as_str());
                proof {
                    assert(wm.spec_spawned() =~= base + self@.defaults.subrange(
                        0,
                        (j + 1) as int,
                    ));
                }
                j = j + 1;
            }
            proof {
                assert(wm.spec_spawned() =~= base + self@.defaults);
            }
        }
    }
}

} // verus!
