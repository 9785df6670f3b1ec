//! The window-visibility state machine.
//!
//! The main window's observable state is a visibility flag and a focus flag.
//! The real flags are owned by the OS windowing layer; the coordinator never
//! trusts a cached copy but observes visibility immediately before every
//! decision. [`WindowModel`] is that observed state, and the operations here
//! are the only transitions the coordinator ever applies to it. The
//! host-facing shell mirrors each transition onto the real window.

use vstd::prelude::*;
use crate::events::{Decision, ShellEvent, WindowOp, decide, spec_decide};

verus! {

/// The observable state of the single main window.
#[derive(Clone, Copy, Debug, PartialEq, Eq, Structural)]
pub struct WindowModel {
    /// Whether the window is visible.
    pub visible: bool,
    /// Whether the window holds input focus.
    pub focused: bool,
}

/// The window after an unconditional show: visible and focused.
pub open spec fn shown(w: WindowModel) -> WindowModel {
    WindowModel { visible: true, focused: true }
}

/// The window after an unconditional hide: invisible, without focus.
pub open spec fn hidden(w: WindowModel) -> WindowModel {
    WindowModel { visible: false, focused: false }
}

/// The window after a toggle: hidden if it was visible, shown otherwise.
pub open spec fn toggled(w: WindowModel) -> WindowModel {
    if w.visible {
        hidden(w)
    } else {
        shown(w)
    }
}

/// The window after one of the coordinator's operations.
pub open spec fn apply_op(w: WindowModel, op: WindowOp) -> WindowModel {
    match op {
        WindowOp::ShowFocus => shown(w),
        WindowOp::Hide => hidden(w),
        WindowOp::Keep => w,
    }
}

/// The window after the coordinator handles one event: the decision is made
/// against the visibility observed at that moment, then applied.
pub open spec fn after_event(w: WindowModel, event: ShellEvent) -> WindowModel {
    apply_op(w, spec_decide(w.visible, event).op)
}

/// Makes the window visible and grants it input focus.
pub fn show_window(w: &mut WindowModel)
    ensures
        *final(w) == shown(*old(w)),
{
    w.visible = true;
    w.focused = true;
}

/// Makes the window invisible; a hidden window holds no input focus.
pub fn hide_window(w: &mut WindowModel)
    ensures
        *final(w) == hidden(*old(w)),
{
    w.visible = false;
    w.focused = false;
}

/// Observes the current visibility and inverts it: hides a visible window,
/// shows and focuses a hidden one.
pub fn toggle_window(w: &mut WindowModel)
    ensures
        *final(w) == toggled(*old(w)),
        final(w).visible == !old(w).visible,
{
    if w.visible {
        hide_window(w);
    } else {
        show_window(w);
    }
}

/// Applies a decision's window operation.
pub fn apply_decision(w: &mut WindowModel, d: &Decision)
    ensures
        *final(w) == apply_op(*old(w), d.op),
{
    match d.op {
        WindowOp::ShowFocus => show_window(w),
        WindowOp::Hide => hide_window(w),
        WindowOp::Keep => {},
    }
}

/// The coordinator's serialized read-then-act step: observe visibility,
/// decide, apply. The returned decision carries the side effects the shell
/// must still perform (notify the UI, suppress the close, quit).
pub fn handle_event(w: &mut WindowModel, event: &ShellEvent) -> (d: Decision)
    ensures
        d == spec_decide(old(w).visible, *event),
        *final(w) == after_event(*old(w), *event),
{
    let visible = w.visible;
    let d = decide(visible, event);
    apply_decision(w, &d);
    d
}

} // verus!
