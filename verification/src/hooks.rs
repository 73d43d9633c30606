//! The hook contract and the dispatcher.
//!
//! A hook is a stateful extension object invoked synchronously on one kind
//! of lifecycle event. Each hook kind is a trait whose `call_ens` spec
//! function pins down the exact effect of the hook on the manager facade;
//! every hook must leave the facade well-formed, so no extension can corrupt
//! the manager's invariants.
//!
//! The dispatcher owns one ordered list of hooks per event kind. Firing an
//! event invokes every registered hook of that kind, in registration order,
//! exactly once; the dispatch record and the chain predicates below state
//! this precisely.

use vstd::prelude::*;

use crate::client::Client;
use crate::manager::WindowManager;

verus! {

/// The three kinds of lifecycle events hooks can react to.
#[derive(Clone, Copy, Debug, PartialEq, Eq, Structural)]
pub enum HookKind {
    NewClient,
    LayoutChange,
    WorkspaceChange,
}

/// One entry of the dispatch record: during one event of kind `kind`, the
/// hook registered at `hook_index` was invoked.
pub ghost struct Invocation {
    pub kind: HookKind,
    pub hook_index: int,
}

/// The dispatch record that one event of kind `kind` with `n` registered
/// hooks appends: hooks `0` to `n - 1`, in registration order, once each.
pub open spec fn invocation_run(kind: HookKind, n: int) -> Seq<Invocation> {
    Seq::new(n as nat, |i: int| Invocation { kind, hook_index: i })
}

/// Hook invoked once per newly mapped window, with mutable access to the
/// manager facade and to the new client record.
pub trait NewClientHook: Sized {
    /// Exact relation between the states before and after one invocation:
    /// `pre`/`post` are the hook's own states, `wm_pre`/`wm_post` the
    /// facade's, `c_pre`/`c_post` the new client's.
    spec fn call_ens(
        pre: Self,
        post: Self,
        wm_pre: WindowManager,
        wm_post: WindowManager,
        c_pre: Client,
        c_post: Client,
    ) -> bool;

    fn call(&mut self, wm: &mut WindowManager, c: &mut Client)
        requires
            old(wm).well_formed(),
        ensures
            final(wm).well_formed(),
            Self::call_ens(
                *old(self),
                *final(self),
                *old(wm),
                *final(wm),
                *old(c),
                *final(c),
            ),
    ;
}

/// Hook invoked whenever the active layout of a workspace changes; it
/// receives the affected workspace's index and the new layout's index.
pub trait LayoutChangeHook: Sized {
    /// Exact relation between the states before and after one invocation.
    spec fn call_ens(
        pre: Self,
        post: Self,
        wm_pre: WindowManager,
        wm_post: WindowManager,
        workspace_index: usize,
        layout_index: usize,
    ) -> bool;

    fn call(&mut self, wm: &mut WindowManager, workspace_index: usize, layout_index: usize)
        requires
            old(wm).well_formed(),
        ensures
            final(wm).well_formed(),
            Self::call_ens(
                *old(self),
                *final(self),
                *old(wm),
                *final(wm),
                workspace_index,
                layout_index,
            ),
    ;
}

/// Hook invoked whenever the focused workspace changes; it receives the
/// previous and the newly focused workspace's indices.
pub trait WorkspaceChangeHook: Sized {
    /// Exact relation between the states before and after one invocation.
    spec fn call_ens(
        pre: Self,
        post: Self,
        wm_pre: WindowManager,
        wm_post: WindowManager,
        previous: usize,
        next: usize,
    ) -> bool;

    fn call(&mut self, wm: &mut WindowManager, previous: usize, next: usize)
        requires
            old(wm).well_formed(),
        ensures
            final(wm).well_formed(),
            Self::call_ens(*old(self), *final(self), *old(wm), *final(wm), previous, next),
    ;
}

/// One dispatch of a new-client event ran the hooks in registration order,
/// once each: `wms` and `cs` are the manager and client states threaded
/// through the invocations, from the state before the first hook to the
/// state after the last, and step `i` is one invocation of hook `i`
/// satisfying that hook's own contract.
pub open spec fn new_client_chain<N: NewClientHook>(
    hooks_pre: Seq<N>,
    hooks_post: Seq<N>,
    wm_pre: WindowManager,
    wm_post: WindowManager,
    c_pre: Client,
    c_post: Client,
    wms: Seq<WindowManager>,
    cs: Seq<Client>,
) -> bool {
    &&& hooks_post.len() == hooks_pre.len()
    &&& wms.len() == hooks_pre.len() + 1
    &&& cs.len() == hooks_pre.len() + 1
    &&& wms.first() == wm_pre
    &&& wms.last() == wm_post
    &&& cs.first() == c_pre
    &&& cs.last() == c_post
    &&& forall|i: int|
        0 <= i < hooks_pre.len() ==> #[trigger] N::call_ens(
            hooks_pre[i],
            hooks_post[i],
            wms[i],
            wms[i + 1],
            cs[i],
            cs[i + 1],
        )
}

/// As [`new_client_chain`], for one dispatch of a layout-change event.
pub open spec fn layout_change_chain<L: LayoutChangeHook>(
    hooks_pre: Seq<L>,
    hooks_post: Seq<L>,
    wm_pre: WindowManager,
    wm_post: WindowManager,
    workspace_index: usize,
    layout_index: usize,
    wms: Seq<WindowManager>,
) -> bool {
    &&& hooks_post.len() == hooks_pre.len()
    &&& wms.len() == hooks_pre.len() + 1
    &&& wms.first() == wm_pre
    &&& wms.last() == wm_post
    &&& forall|i: int|
        0 <= i < hooks_pre.len() ==> #[trigger] L::call_ens(
            hooks_pre[i],
            hooks_post[i],
            wms[i],
            wms[i + 1],
            workspace_index,
            layout_index,
        )
}

/// As [`new_client_chain`], for one dispatch of a workspace-change event.
pub open spec fn workspace_change_chain<W: WorkspaceChangeHook>(
    hooks_pre: Seq<W>,
    hooks_post: Seq<W>,
    wm_pre: WindowManager,
    wm_post: WindowManager,
    previous: usize,
    next: usize,
    wms: Seq<WindowManager>,
) -> bool {
    &&& hooks_post.len() == hooks_pre.len()
    &&& wms.len() == hooks_pre.len() + 1
    &&& wms.first() == wm_pre
    &&& wms.last() == wm_post
    &&& forall|i: int|
        0 <= i < hooks_pre.len() ==> #[trigger] W::call_ens(
            hooks_pre[i],
            hooks_post[i],
            wms[i],
            wms[i + 1],
            previous,
            next,
        )
}

/// Owns the ordered hook lists, one per event kind, for the lifetime of the
/// manager, and fires lifecycle events into them.
pub struct HookDispatcher<N, L, W> {
    new_client_hooks: Vec<N>,
    layout_change_hooks: Vec<L>,
    workspace_change_hooks: Vec<W>,
    record: Ghost<Seq<Invocation>>,
}

impl<N: NewClientHook, L: LayoutChangeHook, W: WorkspaceChangeHook> HookDispatcher<N, L, W> {
    /// The new-client hooks, in registration order.
    pub closed spec fn spec_new_client_hooks(&self) -> Seq<N> {
        self.new_client_hooks@
    }

    /// The layout-change hooks, in registration order.
    pub closed spec fn spec_layout_change_hooks(&self) -> Seq<L> {
        self.layout_change_hooks@
    }

    /// The workspace-change hooks, in registration order.
    pub closed spec fn spec_workspace_change_hooks(&self) -> Seq<W> {
        self.workspace_change_hooks@
    }

    /// Every hook invocation ever dispatched, oldest first.
    pub closed spec fn spec_record(&self) -> Seq<Invocation> {
        self.record@
    }

    /// A dispatcher with no hooks registered and nothing dispatched yet.
    pub fn new() -> (d: Self)
        ensures
            d.spec_new_client_hooks() == Seq::<N>::empty(),
            d.spec_layout_change_hooks() == Seq::<L>::empty(),
            d.spec_workspace_change_hooks() == Seq::<W>::empty(),
            d.spec_record() == Seq::<Invocation>::empty(),
    {
        HookDispatcher {
            new_client_hooks: Vec::new(),
            layout_change_hooks: Vec::new(),
            workspace_change_hooks: Vec::new(),
            record: Ghost(Seq::empty()),
        }
    }

    /// Append a hook to the new-client list; it will run after every hook
    /// registered earlier.
    pub fn register_new_client_hook(&mut self, hook: N)
        ensures
            final(self).spec_new_client_hooks() == old(self).spec_new_client_hooks().push(
                hook,
            ),
            final(self).spec_layout_change_hooks() == old(self).spec_layout_change_hooks(),
            final(self).spec_workspace_change_hooks() == old(
                self,
            ).spec_workspace_change_hooks(),
            final(self).spec_record() == old(self).spec_record(),
    {
        self.new_client_hooks.push(hook);
    }

    /// Append a hook to the layout-change list.
    pub fn register_layout_change_hook(&mut self, hook: L)
        ensures
            final(self).spec_layout_change_hooks() == old(
                self,
            ).spec_layout_change_hooks().push(hook),
            final(self).spec_new_client_hooks() == old(self).spec_new_client_hooks(),
            final(self).spec_workspace_change_hooks() == old(
                self,
            ).spec_workspace_change_hooks(),
            final(self).spec_record() == old(self).spec_record(),
    {
        self.layout_change_hooks.push(hook);
    }

    /// Append a hook to the workspace-change list.
    pub fn register_workspace_change_hook(&mut self, hook: W)
        ensures
            final(self).spec_workspace_change_hooks() == old(
                self,
            ).spec_workspace_change_hooks().push(hook),
            final(self).spec_new_client_hooks() == old(self).spec_new_client_hooks(),
            final(self).spec_layout_change_hooks() == old(self).spec_layout_change_hooks(),
            final(self).spec_record() == old(self).spec_record(),
    {
        self.workspace_change_hooks.push(hook);
    }

    /// Fire a new-client event: invoke every new-client hook, in
    /// registration order, exactly once, each seeing the manager and client
    /// state its predecessors left behind. Dispatch is not re-entrant: the
    /// list is walked once for this event.
    pub fn fire_new_client(&mut self, wm: &mut WindowManager, c: &mut Client)
        requires
            old(wm).well_formed(),
        ensures
            final(wm).well_formed(),
            final(self).spec_new_client_hooks().len() == old(
                self,
            ).spec_new_client_hooks().len(),
            final(self).spec_layout_change_hooks() == old(self).spec_layout_change_hooks(),
            final(self).spec_workspace_change_hooks() == old(
                self,
            ).spec_workspace_change_hooks(),
            final(self).spec_record() == old(self).spec_record() + invocation_run(
                HookKind::NewClient,
                old(self).spec_new_client_hooks().len() as int,
            ),
            exists|wms: Seq<WindowManager>, cs: Seq<Client>|
                new_client_chain(
                    old(self).spec_new_client_hooks(),
                    final(self).spec_new_client_hooks(),
                    *old(wm),
                    *final(wm),
                    *old(c),
                    *final(c),
                    wms,
                    cs,
                ),
    {
        let ghost hooks0 = self.new_client_hooks@;
        let ghost rec0 = self.record@;
        let ghost mut wms: Seq<WindowManager> = seq![*wm];
        let ghost mut cs: Seq<Client> = seq![*c];
        let n = self.new_client_hooks.len();
        let mut i: usize = 0;
        while i < n
            invariant
                i <= n,
                n == self.new_client_hooks@.len(),
                n == hooks0.len(),
                self.layout_change_hooks@ == old(self).layout_change_hooks@,
                self.workspace_change_hooks@ == old(self).workspace_change_hooks@,
                self.record@ == rec0 + invocation_run(HookKind::NewClient, i as int),
                rec0 == old(self).record@,
                hooks0 == old(self).new_client_hooks@,
                wm.well_formed(),
                wms.len() == i + 1,
                cs.len() == i + 1,
                wms.first() == *old(wm),
                cs.first() == *old(c),
                wms.last() == *wm,
                cs.last() == *c,
                forall|k: int| i <= k < n ==> self.new_client_hooks@[k] == hooks0[k],
                forall|k: int|
                    0 <= k < i ==> #[trigger] N::call_ens(
                        hooks0[k],
                        self.new_client_hooks@[k],
                        wms[k],
                        wms[k + 1],
                        cs[k],
                        cs[k + 1],
                    ),
            decreases n - i,
        {
            let h = &mut self.new_client_hooks[i];
            h.call(wm, c);
            proof {
                wms = wms.push(*wm);
                cs = cs.push(*c);
            }
            self.record = Ghost(
                self.record@.push(Invocation { kind: HookKind::NewClient, hook_index: i as int }),
            );
            proof {
                assert(self.record@ =~= rec0 + invocation_run(
                    HookKind::NewClient,
                    (i + 1) as int,
                ));
            }
            i = i + 1;
        }
        proof {
            assert(exists|wms2: Seq<WindowManager>, cs2: Seq<Client>|
                new_client_chain(
                    old(self).spec_new_client_hooks(),
                    self.spec_new_client_hooks(),
                    *old(wm),
                    *wm,
                    *old(c),
                    *c,
                    wms2,
                    cs2,
                )) by {
                assert(new_client_chain(
                    old(self).spec_new_client_hooks(),
                    self.spec_new_client_hooks(),
                    *old(wm),
                    *wm,
                    *old(c),
                    *c,
                    wms,
                    cs,
                ));
            }
        }
    }

    /// Fire a layout-change event for workspace `workspace_index` whose
    /// layout `layout_index` became active: invoke every layout-change
    /// hook, in registration order, exactly once.
    pub fn fire_layout_change(
        &mut self,
        wm: &mut WindowManager,
        workspace_index: usize,
        layout_index: usize,
    )
        requires
            old(wm).well_formed(),
        ensures
            final(wm).well_formed(),
            final(self).spec_layout_change_hooks().len() == old(
                self,
            ).spec_layout_change_hooks().len(),
            final(self).spec_new_client_hooks() == old(self).spec_new_client_hooks(),
            final(self).spec_workspace_change_hooks() == old(
                self,
            ).spec_workspace_change_hooks(),
            final(self).spec_record() == old(self).spec_record() + invocation_run(
                HookKind::LayoutChange,
                old(self).spec_layout_change_hooks().len() as int,
            ),
            exists|wms: Seq<WindowManager>|
                layout_change_chain(
                    old(self).spec_layout_change_hooks(),
                    final(self).spec_layout_change_hooks(),
                    *old(wm),
                    *final(wm),
                    workspace_index,
                    layout_index,
                    wms,
                ),
    {
        let ghost hooks0 = self.layout_change_hooks@;
        let ghost rec0 = self.record@;
        let ghost mut wms: Seq<WindowManager> = seq![*wm];
        let n = self.layout_change_hooks.len();
        let mut i: usize = 0;
        while i < n
            invariant
                i <= n,
                n == self.layout_change_hooks@.len(),
                n == hooks0.len(),
                self.new_client_hooks@ == old(self).new_client_hooks@,
                self.workspace_change_hooks@ == old(self).workspace_change_hooks@,
                self.record@ == rec0 + invocation_run(HookKind::LayoutChange, i as int),
                rec0 == old(self).record@,
                hooks0 == old(self).layout_change_hooks@,
                wm.well_formed(),
                wms.len() == i + 1,
                wms.first() == *old(wm),
                wms.last() == *wm,
                forall|k: int| i <= k < n ==> self.layout_change_hooks@[k] == hooks0[k],
                forall|k: int|
                    0 <= k < i ==> #[trigger] L::call_ens(
                        hooks0[k],
                        self.layout_change_hooks@[k],
                        wms[k],
                        wms[k + 1],
                        workspace_index,
                        layout_index,
                    ),
            decreases n - i,
        {
            let h = &mut self.layout_change_hooks[i];
            h.call(wm, workspace_index, layout_index);
            proof {
                wms = wms.push(*wm);
            }
            self.record = Ghost(
                self.record@.push(
                    Invocation { kind: HookKind::LayoutChange, hook_index: i as int },
                ),
            );
            proof {
                assert(self.record@ =~= rec0 + invocation_run(
                    HookKind::LayoutChange,
                    (i + 1) as int,
                ));
            }
            i = i + 1;
        }
        proof {
            assert(exists|wms2: Seq<WindowManager>|
                layout_change_chain(
                    old(self).spec_layout_change_hooks(),
                    self.spec_layout_change_hooks(),
                    *old(wm),
                    *wm,
                    workspace_index,
                    layout_index,
                    wms2,
                )) by {
                assert(layout_change_chain(
                    old(self).spec_layout_change_hooks(),
                    self.spec_layout_change_hooks(),
                    *old(wm),
                    *wm,
                    workspace_index,
                    layout_index,
                    wms,
                ));
            }
        }
    }

    /// Fire a workspace-change event from workspace `previous` to workspace
    /// `next`: invoke every workspace-change hook, in registration order,
    /// exactly once.
    pub fn fire_workspace_change(&mut self, wm: &mut WindowManager, previous: usize, next: usize)
        requires
            old(wm).well_formed(),
        ensures
            final(wm).well_formed(),
            final(self).spec_workspace_change_hooks().len() == old(
                self,
            ).spec_workspace_change_hooks().len(),
            final(self).spec_new_client_hooks() == old(self).spec_new_client_hooks(),
            final(self).spec_layout_change_hooks() == old(self).spec_layout_change_hooks(),
            final(self).spec_record() == old(self).spec_record() + invocation_run(
                HookKind::WorkspaceChange,
                old(self).spec_workspace_change_hooks().len() as int,
            ),
            exists|wms: Seq<WindowManager>|
                workspace_change_chain(
                    old(self).spec_workspace_change_hooks(),
                    final(self).spec_workspace_change_hooks(),
                    *old(wm),
                    *final(wm),
                    previous,
                    next,
                    wms,
                ),
    {
        let ghost hooks0 = self.workspace_change_hooks@;
        let ghost rec0 = self.record@;
        let ghost mut wms: Seq<WindowManager> = seq![*wm];
        let n = self.workspace_change_hooks.len();
        let mut i: usize = 0;
        while i < n
            invariant
                i <= n,
                n == self.workspace_change_hooks@.len(),
                n == hooks0.len(),
                self.new_client_hooks@ == old(self).new_client_hooks@,
                self.layout_change_hooks@ == old(self).layout_change_hooks@,
                self.record@ == rec0 + invocation_run(HookKind::WorkspaceChange, i as int),
                rec0 == old(self).record@,
                hooks0 == old(self).workspace_change_hooks@,
                wm.well_formed(),
                wms.len() == i + 1,
                wms.first() == *old(wm),
                wms.last() == *wm,
                forall|k: int| i <= k < n ==> self.workspace_change_hooks@[k] == hooks0[k],
                forall|k: int|
                    0 <= k < i ==> #[trigger] W::call_ens(
                        hooks0[k],
                        self.workspace_change_hooks@[k],
                        wms[k],
                        wms[k + 1],
                        previous,
                        next,
                    ),
            decreases n - i,
        {
            let h = &mut self.workspace_change_hooks[i];
            h.call(wm, previous, next);
            proof {
                wms = wms.push(*wm);
            }
            self.record = Ghost(
                self.record@.push(
                    Invocation { kind: HookKind::WorkspaceChange, hook_index: i as int },
                ),
            );
            proof {
                assert(self.record@ =~= rec0 + invocation_run(
                    HookKind::WorkspaceChange,
                    (i + 1) as int,
                ));
            }
            i = i + 1;
        }
        proof {
            assert(exists|wms2: Seq<WindowManager>|
                workspace_change_chain(
                    old(self).spec_workspace_change_hooks(),
                    self.spec_workspace_change_hooks(),
                    *old(wm),
                    *wm,
                    previous,
                    next,
                    wms2,
                )) by {
                assert(workspace_change_chain(
                    old(self).spec_workspace_change_hooks(),
                    self.spec_workspace_change_hooks(),
                    *old(wm),
                    *wm,
                    previous,
                    next,
                    wms,
                ));
            }
        }
    }
}

} // verus!
