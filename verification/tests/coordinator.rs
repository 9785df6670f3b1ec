use aura::events::{decide, decide_menu_item, decide_toggle, Decision, ShellEvent, WindowOp};
use aura::window::{
    apply_decision, handle_event, hide_window, show_window, toggle_window, WindowModel,
};

fn hidden_start() -> WindowModel {
    WindowModel { visible: false, focused: false }
}

fn visible_start() -> WindowModel {
    WindowModel { visible: true, focused: true }
}

#[test]
fn toggle_parity_odd() {
    let mut w = hidden_start();
    for _ in 0..5 {
        toggle_window(&mut w);
    }
    assert!(w.visible);
    assert!(w.focused);
}

#[test]
fn toggle_parity_even() {
    let mut w = hidden_start();
    for _ in 0..4 {
        toggle_window(&mut w);
    }
    assert!(!w.visible);
}

#[test]
fn show_is_idempotent() {
    let mut once = hidden_start();
    show_window(&mut once);
    let mut twice = hidden_start();
    show_window(&mut twice);
    show_window(&mut twice);
    assert_eq!(once, twice);
    assert!(twice.visible);
    assert!(twice.focused);
}

#[test]
fn hide_is_idempotent() {
    let mut once = visible_start();
    hide_window(&mut once);
    let mut twice = visible_start();
    hide_window(&mut twice);
    hide_window(&mut twice);
    assert_eq!(once, twice);
    assert!(!twice.visible);
}

#[test]
fn close_request_hides_and_keeps_process() {
    let mut w = visible_start();
    let d = handle_event(&mut w, &ShellEvent::CloseRequested);
    assert!(d.prevent_close);
    assert!(!d.quit);
    assert_eq!(d.op, WindowOp::Hide);
    assert!(!w.visible);

    let mut h = hidden_start();
    let d2 = handle_event(&mut h, &ShellEvent::CloseRequested);
    assert!(d2.prevent_close);
    assert!(!h.visible);
}

#[test]
fn settings_item_shows_and_notifies_once() {
    let mut w = hidden_start();
    let d = handle_event(&mut w, &ShellEvent::TrayMenuItem("settings".to_string()));
    assert!(d.emit_settings);
    assert!(!d.quit);
    assert!(w.visible);
    assert!(w.focused);

    let mut v = visible_start();
    let d2 = handle_event(&mut v, &ShellEvent::TrayMenuItem("settings".to_string()));
    assert!(d2.emit_settings);
    assert!(v.visible);
    assert!(v.focused);
}

#[test]
fn two_toggle_triggers_back_to_back_cancel() {
    for start in [hidden_start(), visible_start()] {
        let mut w = start;
        handle_event(&mut w, &ShellEvent::HotkeyToggle);
        handle_event(&mut w, &ShellEvent::TrayLeftClick);
        assert_eq!(w.visible, start.visible);
    }
}

#[test]
fn mixed_toggle_triggers_follow_parity() {
    let mut w = hidden_start();
    handle_event(&mut w, &ShellEvent::HotkeyToggle);
    handle_event(&mut w, &ShellEvent::TrayLeftClick);
    handle_event(&mut w, &ShellEvent::UiToggle);
    assert!(w.visible);
    handle_event(&mut w, &ShellEvent::HotkeyToggle);
    assert!(!w.visible);
}

#[test]
fn tray_left_click_toggles() {
    let mut w = visible_start();
    let d = handle_event(&mut w, &ShellEvent::TrayLeftClick);
    assert_eq!(d.op, WindowOp::Hide);
    assert!(!w.visible);
    let d2 = handle_event(&mut w, &ShellEvent::TrayLeftClick);
    assert_eq!(d2.op, WindowOp::ShowFocus);
    assert!(w.visible);
    assert!(w.focused);
}

#[test]
fn menu_quit_terminates() {
    let d = decide_menu_item(&"quit".to_string());
    assert!(d.quit);
    assert_eq!(d.op, WindowOp::Keep);
    assert!(!d.emit_settings);
}

#[test]
fn menu_show_and_hide() {
    let ds = decide_menu_item(&"show".to_string());
    assert_eq!(ds.op, WindowOp::ShowFocus);
    assert!(!ds.quit && !ds.emit_settings && !ds.prevent_close);

    let dh = decide_menu_item(&"hide".to_string());
    assert_eq!(dh.op, WindowOp::Hide);
    assert!(!dh.quit && !dh.emit_settings && !dh.prevent_close);
}

#[test]
fn unknown_menu_item_is_ignored() {
    let d = decide_menu_item(&"frobnicate".to_string());
    assert_eq!(
        d,
        Decision { op: WindowOp::Keep, emit_settings: false, prevent_close: false, quit: false }
    );
    let mut w = visible_start();
    let before = w;
    apply_decision(&mut w, &d);
    assert_eq!(w, before);
}

#[test]
fn focus_lost_is_inert() {
    let mut w = visible_start();
    let d = handle_event(&mut w, &ShellEvent::FocusLost);
    assert_eq!(d.op, WindowOp::Keep);
    assert!(!d.emit_settings && !d.prevent_close && !d.quit);
    assert_eq!(w, visible_start());
}

#[test]
fn ui_commands_forward() {
    let mut w = hidden_start();
    handle_event(&mut w, &ShellEvent::UiShow);
    assert!(w.visible && w.focused);
    handle_event(&mut w, &ShellEvent::UiHide);
    assert!(!w.visible);
    handle_event(&mut w, &ShellEvent::UiToggle);
    assert!(w.visible);
}

#[test]
fn decide_observes_given_visibility() {
    assert_eq!(decide_toggle(true).op, WindowOp::Hide);
    assert_eq!(decide_toggle(false).op, WindowOp::ShowFocus);
    assert_eq!(decide(true, &ShellEvent::UiToggle).op, WindowOp::Hide);
    assert_eq!(decide(false, &ShellEvent::UiToggle).op, WindowOp::ShowFocus);
}
