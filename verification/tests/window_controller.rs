//! The window controller on its own: decisions for every event shape,
//! best-effort host outcomes, idempotent hiding, and the inert focus-loss
//! hook.

use meteobar::window::HostReport;
use meteobar::window::MouseButton;
use meteobar::window::MouseButtonState;
use meteobar::window::TrayEvent;
use meteobar::window::WindowAction;
use meteobar::window::WindowModel;
use meteobar::window::apply_action;
use meteobar::window::decide_tray_event;
use meteobar::window::effective_visibility;
use meteobar::window::handle_tray_event;
use meteobar::window::hide_window;
use meteobar::window::initial_window;
use meteobar::window::on_focus_changed;

fn primary_release() -> TrayEvent {
    TrayEvent::Click { button: MouseButton::Left, button_state: MouseButtonState::Up }
}

fn all_ok() -> HostReport {
    HostReport { move_ok: true, show_ok: true, focus_ok: true, hide_ok: true }
}

fn visible_window() -> WindowModel {
    WindowModel { visible: true, at_tray_center: true, focused: true }
}

#[test]
fn effective_visibility_defaults_to_hidden_on_failure() {
    assert!(!effective_visibility(None));
    assert!(!effective_visibility(Some(false)));
    assert!(effective_visibility(Some(true)));
}

#[test]
fn primary_release_toggles() {
    assert_eq!(decide_tray_event(&primary_release(), true, Some(false)), WindowAction::ShowAtTray);
    assert_eq!(decide_tray_event(&primary_release(), true, Some(true)), WindowAction::HideWindow);
}

#[test]
fn failed_visibility_check_leans_toward_showing() {
    assert_eq!(decide_tray_event(&primary_release(), true, None), WindowAction::ShowAtTray);
}

#[test]
fn other_events_do_nothing() {
    let press = TrayEvent::Click { button: MouseButton::Left, button_state: MouseButtonState::Down };
    let right_release = TrayEvent::Click { button: MouseButton::Right, button_state: MouseButtonState::Up };
    let middle_release = TrayEvent::Click { button: MouseButton::Middle, button_state: MouseButtonState::Up };
    assert_eq!(decide_tray_event(&press, true, Some(false)), WindowAction::NoAction);
    assert_eq!(decide_tray_event(&right_release, true, Some(false)), WindowAction::NoAction);
    assert_eq!(decide_tray_event(&middle_release, true, Some(true)), WindowAction::NoAction);
    assert_eq!(decide_tray_event(&TrayEvent::Other, true, Some(true)), WindowAction::NoAction);
}

#[test]
fn missing_window_means_no_action() {
    assert_eq!(decide_tray_event(&primary_release(), false, Some(true)), WindowAction::NoAction);
    assert_eq!(decide_tray_event(&primary_release(), false, None), WindowAction::NoAction);
}

#[test]
fn show_at_tray_sets_all_three_attributes() {
    let mut w = initial_window();
    apply_action(&mut w, &WindowAction::ShowAtTray, &all_ok());
    assert!(w.visible);
    assert!(w.at_tray_center);
    assert!(w.focused);
}

#[test]
fn failed_show_call_is_absorbed() {
    let mut w = initial_window();
    let r = HostReport { move_ok: true, show_ok: false, focus_ok: true, hide_ok: true };
    apply_action(&mut w, &WindowAction::ShowAtTray, &r);
    assert!(!w.visible);
    assert!(w.at_tray_center);
    assert!(w.focused);
}

#[test]
fn failed_hide_call_is_absorbed() {
    let mut w = visible_window();
    apply_action(&mut w, &WindowAction::HideWindow, &HostReport { move_ok: true, show_ok: true, focus_ok: true, hide_ok: false });
    assert!(w.visible);
}

#[test]
fn hide_twice_equals_hide_once() {
    let mut once = visible_window();
    hide_window(&mut once, true);

    let mut twice = visible_window();
    hide_window(&mut twice, true);
    hide_window(&mut twice, true);

    assert_eq!(once, twice);
    assert!(!twice.visible);
}

#[test]
fn hide_on_hidden_window_stays_hidden() {
    let mut w = initial_window();
    hide_window(&mut w, true);
    assert!(!w.visible);
    hide_window(&mut w, false);
    assert!(!w.visible);
}

#[test]
fn full_toggle_through_handle_tray_event() {
    let mut w = initial_window();
    let a = handle_tray_event(&mut w, &primary_release(), true, true, &all_ok());
    assert_eq!(a, WindowAction::ShowAtTray);
    assert!(w.visible && w.at_tray_center && w.focused);
    let a2 = handle_tray_event(&mut w, &primary_release(), true, true, &all_ok());
    assert_eq!(a2, WindowAction::HideWindow);
    assert!(!w.visible);
}

#[test]
fn focus_loss_hook_keeps_window_visible() {
    let mut w = visible_window();
    on_focus_changed(&mut w, false);
    assert!(w.visible);
    assert!(w.at_tray_center);
    assert!(!w.focused);
    on_focus_changed(&mut w, true);
    assert!(w.focused);
}
