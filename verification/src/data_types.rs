//! Small value types shared across the crate: window identifiers, colors,
//! the border selector and workspace selectors.

use vstd::prelude::*;

verus! {

/// Opaque identifier of a managed window, stable for the window's lifetime.
pub type WinId = u32;

/// A border color value as handed to the windowing protocol.
pub type Color = u32;

/// The three decoration colors, shared by reference across all clients.
#[derive(Clone, Copy, Debug, PartialEq, Eq, Structural)]
pub struct ColorScheme {
    /// Border color of a window that signalled urgency.
    pub urgent: Color,
    /// Border color of the focused window.
    pub highlight: Color,
    /// Border color of unfocused windows.
    pub fg_1: Color,
}

/// Selector for the three visual border states of a window.
#[derive(Clone, Copy, Debug, PartialEq, Eq, Structural)]
pub enum Border {
    Urgent,
    Focused,
    Unfocused,
}

/// Which color of a scheme applies to each border state.
pub open spec fn border_color(border: Border, scheme: ColorScheme) -> Color {
    match border {
        Border::Urgent => scheme.urgent,
        Border::Focused => scheme.highlight,
        Border::Unfocused => scheme.fg_1,
    }
}

/// Lookup discriminator used by the manager facade to resolve a workspace.
#[derive(Clone, Copy, Debug, PartialEq, Eq, Structural)]
pub enum Selector {
    /// The workspace at the given position in the manager's workspace list.
    Index(usize),
    /// The currently focused workspace.
    Focused,
}

} // verus!
