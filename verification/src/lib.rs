//! Native shell controller for the Aura desktop assistant.
//!
//! The core of this crate is the window-visibility state machine: every
//! trigger (a tray click, a tray menu selection, a global hotkey, a command
//! from the embedded UI, a close request) is routed through a single
//! coordinator that observes the window's visibility and decides whether to
//! show, hide, or leave the window alone, whether to emit a notification to
//! the UI, and whether to terminate the process. The fixed tray menu, the
//! global shortcut set, and the host-information record are modelled here as
//! well. The host-facing shell that owns the real OS window performs the
//! decisions this library computes.

pub mod events;
pub mod laws;
pub mod shortcuts;
pub mod strutil;
pub mod sysinfo;
pub mod tray;
pub mod window;
