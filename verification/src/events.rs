//! Triggers routed through the visibility coordinator, and the decision each
//! one produces.
//!
//! Every external stimulus — a tray icon click, a tray menu selection, a
//! global hotkey press, a command invoked by the embedded UI, a window close
//! request, a focus change — is represented as a [`ShellEvent`]. The
//! coordinator observes the window's current visibility and maps the event to
//! a [`Decision`]: the window operation to perform, whether to notify the UI
//! that the settings view should open, whether to suppress the window's
//! destruction, and whether to terminate the process.

use vstd::prelude::*;
use crate::strutil::str_eq;

verus! {

/// A stimulus that the visibility coordinator reconciles.
///
/// Tray menu selections carry the selected item's stable id.
#[derive(Debug)]
pub enum ShellEvent {
    /// A primary-button click on the tray icon itself.
    TrayLeftClick,
    /// A tray menu item was selected; the payload is the item's id.
    TrayMenuItem(String),
    /// A registered global key combination was pressed.
    HotkeyToggle,
    /// The embedded UI invoked the toggle command.
    UiToggle,
    /// The embedded UI invoked the show command.
    UiShow,
    /// The embedded UI invoked the hide command.
    UiHide,
    /// The OS delivered a close request for the main window.
    CloseRequested,
    /// The main window lost input focus (observed, deliberately inert).
    FocusLost,
}

/// The operation the coordinator applies to the main window.
#[derive(Clone, Copy, Debug, PartialEq, Eq, Structural)]
pub enum WindowOp {
    /// Make the window visible, then grant it input focus.
    ShowFocus,
    /// Make the window invisible.
    Hide,
    /// Leave the window as it is.
    Keep,
}

/// The coordinator's verdict on one event: what to do to the window, what to
/// tell the UI, and whether the process goes on.
#[derive(Clone, Copy, Debug, PartialEq, Eq, Structural)]
pub struct Decision {
    /// The window operation to perform.
    pub op: WindowOp,
    /// Emit one `show-settings` notification to the embedded UI.
    pub emit_settings: bool,
    /// Suppress the window's default destroy-on-close transition.
    pub prevent_close: bool,
    /// Terminate the process immediately.
    pub quit: bool,
}

/// A decision that performs the given window operation and nothing else.
pub open spec fn op_only(op: WindowOp) -> Decision {
    Decision { op, emit_settings: false, prevent_close: false, quit: false }
}

/// Toggling: hide a visible window; show and focus a hidden one.
pub open spec fn toggle_decision(visible: bool) -> Decision {
    if visible {
        op_only(WindowOp::Hide)
    } else {
        op_only(WindowOp::ShowFocus)
    }
}

/// Dispatch on a tray menu item id: `show`, `hide`, `settings` and `quit` are
/// recognized; any other id is a forward-compatible no-op.
pub open spec fn menu_decision(id: Seq<char>) -> Decision {
    if id == "quit"@ {
        Decision { op: WindowOp::Keep, emit_settings: false, prevent_close: false, quit: true }
    } else if id == "show"@ {
        op_only(WindowOp::ShowFocus)
    } else if id == "hide"@ {
        op_only(WindowOp::Hide)
    } else if id == "settings"@ {
        Decision { op: WindowOp::ShowFocus, emit_settings: true, prevent_close: false, quit: false }
    } else {
        op_only(WindowOp::Keep)
    }
}

/// The coordinator's full decision function: what each event does, given the
/// visibility observed at the moment of the decision.
pub open spec fn spec_decide(visible: bool, event: ShellEvent) -> Decision {
    match event {
        ShellEvent::TrayLeftClick => toggle_decision(visible),
        ShellEvent::TrayMenuItem(id) => menu_decision(id@),
        ShellEvent::HotkeyToggle => toggle_decision(visible),
        ShellEvent::UiToggle => toggle_decision(visible),
        ShellEvent::UiShow => op_only(WindowOp::ShowFocus),
        ShellEvent::UiHide => op_only(WindowOp::Hide),
        ShellEvent::CloseRequested => (Decision {
            op: WindowOp::Hide,
            emit_settings: false,
            prevent_close: true,
            quit: false,
        }),
        ShellEvent::FocusLost => op_only(WindowOp::Keep),
    }
}

/// How many `show-settings` notifications a decision emits.
pub open spec fn settings_notices(d: Decision) -> nat {
    if d.emit_settings {
        1
    } else {
        0
    }
}

/// Maps an event to the coordinator's decision, given the visibility observed
/// immediately before the call.
pub fn decide(visible: bool, event: &ShellEvent) -> (d: Decision)
    ensures
        d == spec_decide(visible, *event),
{
    match event {
        ShellEvent::TrayLeftClick => decide_toggle(visible),
        ShellEvent::TrayMenuItem(id) => decide_menu_item(id),
        ShellEvent::HotkeyToggle => decide_toggle(visible),
        ShellEvent::UiToggle => decide_toggle(visible),
        ShellEvent::UiShow => Decision {
            op: WindowOp::ShowFocus,
            emit_settings: false,
            prevent_close: false,
            quit: false,
        },
        ShellEvent::UiHide => Decision {
            op: WindowOp::Hide,
            emit_settings: false,
            prevent_close: false,
            quit: false,
        },
        ShellEvent::CloseRequested => Decision {
            op: WindowOp::Hide,
            emit_settings: false,
            prevent_close: true,
            quit: false,
        },
        ShellEvent::FocusLost => Decision {
            op: WindowOp::Keep,
            emit_settings: false,
            prevent_close: false,
            quit: false,
        },
    }
}

/// The toggle verdict for the observed visibility.
pub fn decide_toggle(visible: bool) -> (d: Decision)
    ensures
        d == toggle_decision(visible),
{
    if visible {
        Decision { op: WindowOp::Hide, emit_settings: false, prevent_close: false, quit: false }
    } else {
        Decision {
            op: WindowOp::ShowFocus,
            emit_settings: false,
            prevent_close: false,
            quit: false,
        }
    }
}

/// The verdict for a tray menu selection, dispatched on the item's id.
pub fn decide_menu_item(id: &String) -> (d: Decision)
    ensures
        d == menu_decision(id@),
{
    if str_eq(id.as_str(), "quit") {
        Decision { op: WindowOp::Keep, emit_settings: false, prevent_close: false, quit: true }
    } else if str_eq(id.as_str(), "show") {
        Decision {
            op: WindowOp::ShowFocus,
            emit_settings: false,
            prevent_close: false,
            quit: false,
        }
    } else if str_eq(id.as_str(), "hide") {
        Decision { op: WindowOp::Hide, emit_settings: false, prevent_close: false, quit: false }
    } else if str_eq(id.as_str(), "settings") {
        Decision {
            op: WindowOp::ShowFocus,
            emit_settings: true,
            prevent_close: false,
            quit: false,
        }
    } else {
        Decision { op: WindowOp::Keep, emit_settings: false, prevent_close: false, quit: false }
    }
}

} // verus!
