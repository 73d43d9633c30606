//! Per-window state record and the focus/unfocus state machine.

use vstd::prelude::*;

use crate::connection::{ConnOp, WindowConnection};
use crate::data_types::{border_color, Border, ColorScheme, WinId};

verus! {

/// Mathematical model of a [`Client`].
#[verifier::ext_equal]
pub ghost struct ClientView {
    pub id: WinId,
    /// The name the window reported when it was mapped, if it reported one.
    pub wm_name: Option<Seq<char>>,
    pub wm_class: Seq<char>,
    pub focused: bool,
    pub floating: bool,
    pub fullscreen: bool,
}

/// The model of a client after `focus`: only the `focused` flag changes.
pub open spec fn focused_view(c: ClientView) -> ClientView {
    ClientView { focused: true, ..c }
}

/// The model of a client after `unfocus`: only the `focused` flag changes.
pub open spec fn unfocused_view(c: ClientView) -> ClientView {
    ClientView { focused: false, ..c }
}

/// The name a client exposes to status consumers: the reported name, or the
/// fixed placeholder when the window reported none.
pub open spec fn effective_name(c: ClientView) -> Seq<char> {
    match c.wm_name {
        Some(n) => n,
        None => "n/a"@,
    }
}

/// The two protocol requests that `focus` issues, in order: transfer input
/// focus, then repaint the border with the focused-state color.
pub open spec fn focus_requests(c: ClientView, scheme: ColorScheme) -> Seq<ConnOp> {
    seq![
        ConnOp::FocusClient(c.id),
        ConnOp::SetClientBorderColor(c.id, scheme.highlight),
    ]
}

/// The single protocol request that `unfocus` issues: repaint the border
/// with the unfocused-state color. Input focus is not transferred anywhere.
pub open spec fn unfocus_requests(c: ClientView, scheme: ColorScheme) -> Seq<ConnOp> {
    seq![ConnOp::SetClientBorderColor(c.id, scheme.fg_1)]
}

/// Meta-data around a client window that the manager is handling: state
/// flags and the information used to decide how the window is decorated.
#[derive(Clone, Debug, PartialEq)]
pub struct Client {
    id: WinId,
    wm_name: Option<String>,
    wm_class: String,
    // state flags
    focused: bool,
    floating: bool,
    fullscreen: bool,
}

impl View for Client {
    type V = ClientView;

    closed spec fn view(&self) -> ClientView {
        ClientView {
            id: self.id,
            wm_name: match self.wm_name {
                Some(n) => Some(n@),
                None => None,
            },
            wm_class: self.wm_class@,
            focused: self.focused,
            floating: self.floating,
            fullscreen: self.fullscreen,
        }
    }
}

impl Client {
    /// A freshly mapped window starts unfocused and not fullscreen; the name
    /// is read exactly once, here — later renames are not observed.
    pub fn new(id: WinId, wm_name: Option<String>, wm_class: String, floating: bool) -> (c:
        Client)
        ensures
            c@ == (ClientView {
                id,
                wm_name: match wm_name {
                    Some(n) => Some(n@),
                    None => None,
                },
                wm_class: wm_class@,
                focused: false,
                floating,
                fullscreen: false,
            }),
    {
        Client { id, wm_name, wm_class, focused: false, floating, fullscreen: false }
    }

    /// The window identifier.
    pub fn id(&self) -> (r: WinId)
        ensures
            r == self@.id,
    {
        self.id
    }

    /// The protocol-reported class string.
    pub fn class(&self) -> (r: &str)
        ensures
            r@ == self@.wm_class,
    {
        self.wm_class.as_str()
    }

    /// The name the window reported at map time, or the placeholder `"n/a"`
    /// when it reported none.
    pub fn wm_name(&self) -> (r: &str)
        ensures
            r@ == effective_name(self@),
    {
        match &self.wm_name {
            Some(n) => n.as_str(),
            None => "n/a",
        }
    }

    /// Whether the last focus/unfocus call on this record was `focus`.
    pub fn is_focused(&self) -> (r: bool)
        ensures
            r == self@.focused,
    {
        self.focused
    }

    /// Whether the window floats above the tiled layer. Orthogonal to the
    /// focus state machine, which never changes it.
    pub fn is_floating(&self) -> (r: bool)
        ensures
            r == self@.floating,
    {
        self.floating
    }

    /// Whether the window is fullscreen. Orthogonal to the focus state
    /// machine, which never changes it.
    pub fn is_fullscreen(&self) -> (r: bool)
        ensures
            r == self@.fullscreen,
    {
        self.fullscreen
    }

    /// Give the window input focus and paint its border with the
    /// focused-state color. The protocol focus request precedes the border
    /// repaint, and the flag update comes last.
    pub fn focus<C: WindowConnection>(&mut self, conn: &mut C, scheme: &ColorScheme)
        ensures
            final(self)@ == focused_view(old(self)@),
            final(conn).requests() == old(conn).requests() + focus_requests(
                old(self)@,
                *scheme,
            ),
    {
        conn.focus_client(self.id);
        self.set_window_border(conn, Border::Focused, scheme);
        self.focused = true;
        proof {
            assert(final(conn).requests() =~= old(conn).requests() + focus_requests(
                old(self)@,
                *scheme,
            ));
        }
    }

    /// Paint the window's border with the unfocused-state color and clear
    /// the flag. Input focus is not transferred anywhere: the caller is
    /// responsible for focusing a different client or clearing focus.
    pub fn unfocus<C: WindowConnection>(&mut self, conn: &mut C, scheme: &ColorScheme)
        ensures
            final(self)@ == unfocused_view(old(self)@),
            final(conn).requests() == old(conn).requests() + unfocus_requests(
                old(self)@,
                *scheme,
            ),
    {
        self.set_window_border(conn, Border::Unfocused, scheme);
        self.focused = false;
        proof {
            assert(final(conn).requests() =~= old(conn).requests() + unfocus_requests(
                old(self)@,
                *scheme,
            ));
        }
    }

    /// Request that the window's border be painted with the scheme color for
    /// `border`. `focus` and `unfocus` route their repaints through this
    /// single selection step; the `Urgent` variant is not used by either and
    /// is exposed for external urgency-signalling logic.
    pub fn set_window_border<C: WindowConnection>(
        &mut self,
        conn: &mut C,
        border: Border,
        scheme: &ColorScheme,
    )
        ensures
            final(self)@ == old(self)@,
            final(conn).requests() == old(conn).requests().push(
                ConnOp::SetClientBorderColor(old(self)@.id, border_color(border, *scheme)),
            ),
    {
        let color = match border {
            Border::Urgent => scheme.urgent,
            Border::Focused => scheme.highlight,
            Border::Unfocused => scheme.fg_1,
        };

        conn.set_client_border_color(self.id, color);
    }
}

/// A focus cycle repaints with the same color: after `focus` and then
/// `unfocus`, a second `focus` issues exactly the requests the first one
/// issued — in particular the same focused-state border color.
pub proof fn lemma_focus_cycle_repaints_same(c: ClientView, scheme: ColorScheme)
    ensures
        focus_requests(unfocused_view(focused_view(c)), scheme) == focus_requests(c, scheme),
{
    assert(focus_requests(unfocused_view(focused_view(c)), scheme) =~= focus_requests(
        c,
        scheme,
    ));
}

} // verus!
