//! The minimal workspace surface that hooks may query and mutate: its name,
//! how many clients it holds, and which of its layouts is active.

use vstd::prelude::*;

use crate::data_types::WinId;

verus! {

/// Mathematical model of a [`Workspace`].
#[verifier::ext_equal]
pub ghost struct WorkspaceView {
    pub name: Seq<char>,
    /// The windows currently attached to the workspace, oldest first.
    pub clients: Seq<WinId>,
    /// The short symbols of the layouts the workspace can arrange, in order.
    pub layout_symbols: Seq<Seq<char>>,
    /// Index into `layout_symbols` of the active layout.
    pub current_layout: int,
}

/// The model of a workspace after a layout request for `symbol`: the first
/// layout carrying that symbol becomes active; an unknown symbol changes
/// nothing.
pub open spec fn apply_layout(w: WorkspaceView, symbol: Seq<char>) -> WorkspaceView {
    match w.layout_symbols.index_of_first(symbol) {
        Some(i) => WorkspaceView { current_layout: i, ..w },
        None => w,
    }
}

/// An external container of clients arranged under one active layout,
/// referenced by the manager facade via selector or index.
#[derive(Debug)]
pub struct Workspace {
    name: String,
    clients: Vec<WinId>,
    layout_symbols: Vec<String>,
    current_layout: usize,
}

impl View for Workspace {
    type V = WorkspaceView;

    closed spec fn view(&self) -> WorkspaceView {
        WorkspaceView {
            name: self.name@,
            clients: self.clients@,
            layout_symbols: self.layout_symbols@.map_values(|s: String| s@),
            current_layout: self.current_layout as int,
        }
    }
}

impl Workspace {
    /// A workspace always offers at least one layout and keeps its active
    /// layout index inside the layout list.
    #[verifier::type_invariant]
    spec fn wf(self) -> bool {
        &&& self.layout_symbols@.len() > 0
        &&& (self.current_layout as int) < self.layout_symbols@.len()
    }

    /// A workspace with no clients whose first layout is active.
    pub fn new(name: String, layout_symbols: Vec<String>) -> (w: Workspace)
        requires
            layout_symbols@.len() > 0,
        ensures
            w@ == (WorkspaceView {
                name: name@,
                clients: Seq::<WinId>::empty(),
                layout_symbols: layout_symbols@.map_values(|s: String| s@),
                current_layout: 0,
            }),
    {
        Workspace { name, clients: Vec::new(), layout_symbols, current_layout: 0 }
    }

    /// The workspace's name.
    pub fn name(&self) -> (r: &String)
        ensures
            r@ == self@.name,
    {
        &self.name
    }

    /// How many clients the workspace currently holds.
    pub fn len(&self) -> (r: usize)
        ensures
            r == self@.clients.len(),
    {
        self.clients.len()
    }

    /// The window identifiers attached to the workspace, oldest first.
    pub fn clients(&self) -> (r: &Vec<WinId>)
        ensures
            r@ == self@.clients,
    {
        &self.clients
    }

    /// The short symbol of the active layout.
    pub fn layout_symbol(&self) -> (r: &String)
        ensures
            r@ == self@.layout_symbols[self@.current_layout],
    {
        proof {
            use_type_invariant(&*self);
        }
        &self.layout_symbols[self.current_layout]
    }

    /// Attach a window to the workspace.
    pub fn add_client(&mut self, id: WinId)
        ensures
            final(self)@ == (WorkspaceView {
                clients: old(self)@.clients.push(id),
                ..old(self)@
            }),
    {
        proof {
            use_type_invariant(&*self);
        }
        let mut clients: Vec<WinId> = Vec::new();
        std::mem::swap(&mut clients, &mut self.clients);
        clients.push(id);
        std::mem::swap(&mut clients, &mut self.clients);
    }

    /// Make the first layout whose symbol equals `symbol` the active one.
    /// Returns whether such a layout exists; an unknown symbol is a local,
    /// recoverable failure that leaves the workspace unchanged.
    pub fn try_set_layout(&mut self, symbol: &String) -> (r: bool)
        ensures
            r == old(self)@.layout_symbols.contains(symbol@),
            final(self)@ == apply_layout(old(self)@, symbol@),
    {
        proof {
            use_type_invariant(&*self);
            old(self)@.layout_symbols.index_of_first_ensures(symbol@);
        }
        let ghost orig = *self;
        let n = self.layout_symbols.len();
        let mut found: usize = n;
        let mut i: usize = 0;
        while i < n
            invariant
                *self == orig,
                n == orig@.layout_symbols.len(),
                n == self.layout_symbols@.len(),
                i <= n,
                found == n || found < i,
                found == n ==> forall|k: int| 0 <= k < i ==> orig@.layout_symbols[k]
                    != symbol@,
                found < n ==> orig@.layout_symbols[found as int] == symbol@ && forall|k: int|
                    0 <= k < found ==> orig@.layout_symbols[k] != symbol@,
            decreases n - i,
        {
            if found == n && self.layout_symbols[i] == *symbol {
                proof {
                    assert(orig@.layout_symbols[i as int] == self.layout_symbols@[i as int]@);
                }
                found = i;
            }
            i = i + 1;
        }
        if found < n {
            proof {
                assert(orig@.layout_symbols.contains(symbol@));
            }
            self.current_layout = found;
            proof {
                assert(self@ =~= apply_layout(orig@, symbol@));
            }
            true
        } else {
            proof {
                assert(!orig@.layout_symbols.contains(symbol@)) by {
                    assert forall|k: int|
                        0 <= k < orig@.layout_symbols.len() implies orig@.layout_symbols[k]
                        != symbol@ by {}
                }
                assert(self@ =~= apply_layout(orig@, symbol@));
            }
            false
        }
    }
}

} // verus!
