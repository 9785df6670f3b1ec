//! The coordination laws: what holds of every sequence of triggers, proved
//! over the state machine of [`crate::window`] and the decision function of
//! [`crate::events`].

use vstd::prelude::*;
use crate::events::{ShellEvent, WindowOp, menu_decision, op_only, settings_notices, spec_decide};
use crate::window::{WindowModel, after_event, shown, toggled};

verus! {

/// The window after `n` consecutive toggles.
pub open spec fn toggled_n(w: WindowModel, n: nat) -> WindowModel
    decreases n,
{
    if n == 0 {
        w
    } else {
        toggled(toggled_n(w, (n - 1) as nat))
    }
}

/// Any run of consecutive toggles, with no external actor changing visibility
/// in between, leaves the window's visibility equal to the initial visibility
/// XORed with the parity of the number of toggles.
pub proof fn lemma_toggle_parity(w: WindowModel, n: nat)
    ensures
        toggled_n(w, n).visible == (w.visible != (n % 2 == 1)),
    decreases n,
{
    if n > 0 {
        lemma_toggle_parity(w, (n - 1) as nat);
    }
}

/// The window after a sequence of events, each handled by the coordinator's
/// observe-then-act step, with no external actor touching visibility in
/// between.
pub open spec fn after_events(w: WindowModel, events: Seq<ShellEvent>) -> WindowModel
    decreases events.len(),
{
    if events.len() == 0 {
        w
    } else {
        after_events(after_event(w, events[0]), events.drop_first())
    }
}

/// Whether an event is one of the three toggle triggers: a tray click, a
/// global hotkey press, or the UI's toggle command.
pub open spec fn is_toggle_trigger(e: ShellEvent) -> bool {
    match e {
        ShellEvent::TrayLeftClick => true,
        ShellEvent::HotkeyToggle => true,
        ShellEvent::UiToggle => true,
        _ => false,
    }
}

/// Any sequence of toggle triggers, from any of the three sources and in any
/// order, leaves the window's visibility equal to the initial visibility
/// XORed with the parity of the number of triggers — no matter how the
/// triggers interleave, as long as each observe-then-act step runs whole.
pub proof fn lemma_toggle_trigger_parity(w: WindowModel, events: Seq<ShellEvent>)
    requires
        forall|i: int| 0 <= i < events.len() ==> is_toggle_trigger(#[trigger] events[i]),
    ensures
        after_events(w, events).visible == (w.visible != (events.len() % 2 == 1)),
    decreases events.len(),
{
    if events.len() > 0 {
        assert(is_toggle_trigger(events[0]));
        let rest = events.drop_first();
        assert forall|i: int| 0 <= i < rest.len() implies is_toggle_trigger(#[trigger] rest[i]) by {
            assert(rest[i] == events[i + 1]);
        }
        lemma_toggle_trigger_parity(after_event(w, events[0]), rest);
    }
}

/// Two toggles back to back, with no intervening external visibility change,
/// leave the window's visibility exactly as it started — whether the toggles
/// are taken as state transitions or as full coordinator events.
pub proof fn lemma_double_toggle(w: WindowModel)
    ensures
        toggled(toggled(w)).visible == w.visible,
        after_event(after_event(w, ShellEvent::UiToggle), ShellEvent::UiToggle).visible
            == w.visible,
{
}

/// Showing is idempotent: a second consecutive show leaves the window exactly
/// as the first did — visible and focused.
pub proof fn lemma_show_idempotent(w: WindowModel)
    ensures
        after_event(after_event(w, ShellEvent::UiShow), ShellEvent::UiShow)
            == after_event(w, ShellEvent::UiShow),
        after_event(w, ShellEvent::UiShow).visible,
        after_event(w, ShellEvent::UiShow).focused,
        after_event(w, ShellEvent::UiShow) == shown(w),
{
}

/// Hiding is idempotent: a second consecutive hide leaves the window exactly
/// as the first did — hidden.
pub proof fn lemma_hide_idempotent(w: WindowModel)
    ensures
        after_event(after_event(w, ShellEvent::UiHide), ShellEvent::UiHide)
            == after_event(w, ShellEvent::UiHide),
        !after_event(w, ShellEvent::UiHide).visible,
{
}

/// A close request never destroys the window and never ends the process: the
/// default destroy transition is suppressed, and the window ends hidden.
pub proof fn lemma_close_request_hides(w: WindowModel)
    ensures
        spec_decide(w.visible, ShellEvent::CloseRequested).prevent_close,
        !spec_decide(w.visible, ShellEvent::CloseRequested).quit,
        !after_event(w, ShellEvent::CloseRequested).visible,
{
}

/// Selecting the tray `settings` item, whatever the prior visibility, leaves
/// the window visible and focused and emits exactly one `show-settings`
/// notification, and does not end the process.
pub proof fn lemma_settings_item(w: WindowModel, id: String)
    requires
        id@ == "settings"@,
    ensures
        after_event(w, ShellEvent::TrayMenuItem(id)).visible,
        after_event(w, ShellEvent::TrayMenuItem(id)).focused,
        settings_notices(spec_decide(w.visible, ShellEvent::TrayMenuItem(id))) == 1,
        !spec_decide(w.visible, ShellEvent::TrayMenuItem(id)).quit,
{
    reveal_strlit("settings");
    reveal_strlit("quit");
    reveal_strlit("show");
    reveal_strlit("hide");
    assert("settings"@.len() == 8);
    assert("quit"@.len() == 4);
    assert("show"@.len() == 4);
    assert("hide"@.len() == 4);
    assert(id@ != "quit"@);
    assert(id@ != "show"@);
    assert(id@ != "hide"@);
}

/// Every actionable id in the fixed tray menu maps to its intended action:
/// `show` shows and focuses, `hide` hides, `settings` shows and emits the
/// settings notification, and `quit` is the only id that ends the process.
pub proof fn lemma_menu_ids_recognized()
    ensures
        menu_decision("show"@) == op_only(WindowOp::ShowFocus),
        menu_decision("hide"@) == op_only(WindowOp::Hide),
        menu_decision("settings"@).op == WindowOp::ShowFocus,
        settings_notices(menu_decision("settings"@)) == 1,
        !menu_decision("settings"@).quit,
        menu_decision("quit"@).quit,
        menu_decision("quit"@).op == WindowOp::Keep,
{
    reveal_strlit("show");
    reveal_strlit("hide");
    reveal_strlit("settings");
    reveal_strlit("quit");
    assert("show"@[0] == 's');
    assert("hide"@[0] == 'h');
    assert("quit"@[0] == 'q');
    assert("show"@.len() == 4);
    assert("hide"@.len() == 4);
    assert("quit"@.len() == 4);
    assert("settings"@.len() == 8);
    assert("show"@ != "quit"@);
    assert("hide"@ != "quit"@);
    assert("hide"@ != "show"@);
    assert("settings"@ != "quit"@);
    assert("settings"@ != "show"@);
    assert("settings"@ != "hide"@);
}

/// An unrecognized tray menu item id is a no-op: the window is untouched, no
/// notification is emitted, and the process goes on.
pub proof fn lemma_unknown_menu_item_ignored(w: WindowModel, id: String)
    requires
        id@ != "quit"@,
        id@ != "show"@,
        id@ != "hide"@,
        id@ != "settings"@,
    ensures
        after_event(w, ShellEvent::TrayMenuItem(id)) == w,
        settings_notices(menu_decision(id@)) == 0,
        !menu_decision(id@).quit,
{
}

} // verus!
