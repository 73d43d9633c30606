//! Client-state and extension-hook core of a tiling window manager.
//!
//! The crate tracks per-window decoration and focus state (`client`),
//! decouples protocol effects behind a capability interface (`connection`),
//! models the minimal manager facade that extension hooks may call
//! (`workspace`, `manager`), and dispatches lifecycle events to ordered
//! lists of registered hooks (`hooks`, with ready-made hooks in `contrib`).

pub mod client;
pub mod connection;
pub mod contrib;
pub mod data_types;
pub mod hooks;
pub mod manager;
pub mod workspace;
