//! Window Visibility Controller: the two-state (hidden / visible) machine of
//! the single main window, driven by tray-icon click events.
//!
//! Every host call that moves, shows, focuses or hides the window is
//! best-effort: its success or failure arrives here as a plain `bool`, and a
//! failed call leaves the modelled state unchanged.

use vstd::prelude::*;

verus! {

/// The mouse button of a tray click, as the host reports it.
#[derive(Clone, Copy, PartialEq, Eq, Structural, Debug)]
pub enum MouseButton {
    Left,
    Right,
    Middle,
}

/// Whether the button of a tray click was pressed or released.
#[derive(Clone, Copy, PartialEq, Eq, Structural, Debug)]
pub enum MouseButtonState {
    Up,
    Down,
}

/// A tray-icon event as the window controller sees it: a click with its
/// button and button state, or any other event kind (double click, pointer
/// enter, move or leave), which the controller ignores.
#[derive(Clone, Copy, PartialEq, Eq, Structural, Debug)]
pub enum TrayEvent {
    Click { button: MouseButton, button_state: MouseButtonState },
    Other,
}

/// The action the controller asks the host to perform after a tray event.
#[derive(Clone, Copy, PartialEq, Eq, Structural, Debug)]
pub enum WindowAction {
    /// Hide the main window.
    HideWindow,
    /// Move the main window to the tray icon, show it, and focus it.
    ShowAtTray,
    /// Do nothing.
    NoAction,
}

/// The observable state of the main window: whether it is visible, whether
/// it has been positioned at the tray icon, and whether it holds input
/// focus.
#[derive(Clone, Copy, PartialEq, Eq, Structural, Debug)]
pub struct WindowModel {
    pub visible: bool,
    pub at_tray_center: bool,
    pub focused: bool,
}

/// The reported outcomes of the best-effort host calls that one tray event
/// may trigger: window move, show, focus and hide.
#[derive(Clone, Copy, PartialEq, Eq, Structural, Debug)]
pub struct HostReport {
    pub move_ok: bool,
    pub show_ok: bool,
    pub focus_ok: bool,
    pub hide_ok: bool,
}

/// The report of a run in which every host call succeeded.
pub open spec fn spec_all_calls_ok() -> HostReport {
    HostReport { move_ok: true, show_ok: true, focus_ok: true, hide_ok: true }
}

/// The state of the window right after startup: hidden, unpositioned,
/// unfocused.
pub open spec fn spec_initial_window() -> WindowModel {
    WindowModel { visible: false, at_tray_center: false, focused: false }
}

/// A primary-button release: the one gesture that toggles the window.
pub open spec fn spec_is_primary_release(e: TrayEvent) -> bool {
    e == (TrayEvent::Click { button: MouseButton::Left, button_state: MouseButtonState::Up })
}

/// How the host's report of the window's visibility is read: a successful
/// check is believed; a failed check (`None`) falls back to "not visible",
/// so that a failure leans toward showing the window rather than erring.
pub open spec fn spec_effective_visibility(check: Option<bool>) -> bool {
    check == Some(true)
}

/// The decision a tray event leads to: a primary-button release on a
/// present window toggles it (hide when effectively visible, show at the
/// tray otherwise); every other event, and a missing window, asks for
/// nothing.
pub open spec fn spec_tray_action(e: TrayEvent, window_present: bool, visible_now: bool) -> WindowAction {
    if spec_is_primary_release(e) && window_present {
        if visible_now {
            WindowAction::HideWindow
        } else {
            WindowAction::ShowAtTray
        }
    } else {
        WindowAction::NoAction
    }
}

/// The effect of the host's `hide` call: on success the window becomes
/// invisible, on failure nothing changes.
pub open spec fn spec_hide_window(w: WindowModel, call_ok: bool) -> WindowModel {
    if call_ok {
        WindowModel { visible: false, ..w }
    } else {
        w
    }
}

/// The effect of the host's move-to-tray call.
pub open spec fn spec_move_to_tray(w: WindowModel, call_ok: bool) -> WindowModel {
    if call_ok {
        WindowModel { at_tray_center: true, ..w }
    } else {
        w
    }
}

/// The effect of the host's `show` call.
pub open spec fn spec_show_window(w: WindowModel, call_ok: bool) -> WindowModel {
    if call_ok {
        WindowModel { visible: true, ..w }
    } else {
        w
    }
}

/// The effect of the host's `set_focus` call.
pub open spec fn spec_focus_window(w: WindowModel, call_ok: bool) -> WindowModel {
    if call_ok {
        WindowModel { focused: true, ..w }
    } else {
        w
    }
}

/// The effect of performing one action: hiding runs the hide call; showing
/// runs move, show and focus in that order, each best-effort on its own.
pub open spec fn spec_apply_action(w: WindowModel, a: WindowAction, r: HostReport) -> WindowModel {
    match a {
        WindowAction::HideWindow => spec_hide_window(w, r.hide_ok),
        WindowAction::ShowAtTray => spec_focus_window(
            spec_show_window(spec_move_to_tray(w, r.move_ok), r.show_ok),
            r.focus_ok,
        ),
        WindowAction::NoAction => w,
    }
}

/// One full reaction to a tray event: the visibility check reports the true
/// state when it succeeds and nothing when it fails, the event is decided,
/// and the decided action is performed with the given host outcomes.
pub open spec fn spec_window_step(
    w: WindowModel,
    e: TrayEvent,
    window_present: bool,
    check_ok: bool,
    r: HostReport,
) -> WindowModel {
    spec_apply_action(w, spec_tray_action(e, window_present, check_ok && w.visible), r)
}

/// The initial window state, as an executable value.
pub fn initial_window() -> (w: WindowModel)
    ensures
        w == spec_initial_window(),
{
    WindowModel { visible: false, at_tray_center: false, focused: false }
}

/// Reads the host's visibility check, defaulting to "not visible" when the
/// check itself failed.
pub fn effective_visibility(check: Option<bool>) -> (v: bool)
    ensures
        v == spec_effective_visibility(check),
{
    match check {
        Some(v) => v,
        None => false,
    }
}

/// Decides what to do with a tray event, given whether the main window was
/// found and what the visibility check returned (`None` when the check
/// failed).
pub fn decide_tray_event(e: &TrayEvent, window_present: bool, visibility_check: Option<bool>) -> (a: WindowAction)
    ensures
        a == spec_tray_action(*e, window_present, spec_effective_visibility(visibility_check)),
{
    let primary_release = match e {
        TrayEvent::Click { button: MouseButton::Left, button_state: MouseButtonState::Up } => true,
        _ => false,
    };
    if primary_release && window_present {
        if effective_visibility(visibility_check) {
            WindowAction::HideWindow
        } else {
            WindowAction::ShowAtTray
        }
    } else {
        WindowAction::NoAction
    }
}

/// Performs one action on the window model, with the host's reported
/// outcome of each best-effort call; a failed call changes nothing.
pub fn apply_action(w: &mut WindowModel, a: &WindowAction, r: &HostReport)
    ensures
        *final(w) == spec_apply_action(*old(w), *a, *r),
{
    match a {
        WindowAction::HideWindow => {
            if r.hide_ok {
                w.visible = false;
            }
        }
        WindowAction::ShowAtTray => {
            if r.move_ok {
                w.at_tray_center = true;
            }
            if r.show_ok {
                w.visible = true;
            }
            if r.focus_ok {
                w.focused = true;
            }
        }
        WindowAction::NoAction => {}
    }
}

/// One full reaction to a tray event: decide from the event and the outcome
/// of the visibility check, then perform the decided action. Returns the
/// action so the caller can drive the host.
pub fn handle_tray_event(
    w: &mut WindowModel,
    e: &TrayEvent,
    window_present: bool,
    check_ok: bool,
    r: &HostReport,
) -> (a: WindowAction)
    ensures
        a == spec_tray_action(*e, window_present, check_ok && old(w).visible),
        *final(w) == spec_window_step(*old(w), *e, window_present, check_ok, *r),
{
    let check: Option<bool> = if check_ok {
        Some(w.visible)
    } else {
        None
    };
    let a = decide_tray_event(e, window_present, check);
    apply_action(w, &a, r);
    a
}

/// The standalone hide operation: unconditionally asks the host to hide the
/// window; the host call's failure (`call_ok == false`) is silently
/// absorbed.
pub fn hide_window(w: &mut WindowModel, call_ok: bool)
    ensures
        *final(w) == spec_hide_window(*old(w), call_ok),
{
    if call_ok {
        w.visible = false;
    }
}

/// The host reports that the window gained or lost input focus. Losing
/// focus deliberately triggers no further action: the hide-on-focus-loss
/// hook is an intentional, inert extension point, so visibility and
/// position are untouched.
pub fn on_focus_changed(w: &mut WindowModel, focused: bool)
    ensures
        *final(w) == (WindowModel { focused: focused, ..*old(w) }),
{
    w.focused = focused;
}

/// Hiding is idempotent: two hides in a row, with any pair of host
/// outcomes, end exactly where one hide ends whose call succeeded if either
/// of the two did; in particular, hiding an already-hidden window leaves it
/// hidden.
pub proof fn lemma_hide_idempotent(w: WindowModel, ok1: bool, ok2: bool)
    ensures
        spec_hide_window(spec_hide_window(w, ok1), ok2) == spec_hide_window(w, ok1 || ok2),
        !w.visible ==> !spec_hide_window(w, ok1).visible,
{
}

/// The hide operation never shows a window: whatever the host reported, the
/// window is visible afterwards only if it was visible before.
pub proof fn lemma_hide_never_shows(w: WindowModel, ok: bool)
    ensures
        spec_hide_window(w, ok).visible ==> w.visible,
{
}

/// State-machine correctness of the click path: from a hidden window, a
/// primary-button release (window present, visibility check succeeding, all
/// host calls succeeding) moves the window to the tray, shows it and gives
/// it focus; a second such click hides it again.
pub proof fn lemma_click_toggles(w: WindowModel, e: TrayEvent)
    requires
        !w.visible,
        spec_is_primary_release(e),
    ensures
        ({
            let shown = spec_window_step(w, e, true, true, spec_all_calls_ok());
            &&& shown.visible
            &&& shown.at_tray_center
            &&& shown.focused
            &&& !spec_window_step(shown, e, true, true, spec_all_calls_ok()).visible
        }),
{
}

/// A hidden window becomes visible only through the tray-click path: the
/// only action whose successful host calls can make it visible is the
/// show-at-tray action, which only a primary-button release produces.
pub proof fn lemma_hidden_to_visible_only_by_click(w: WindowModel, a: WindowAction, r: HostReport)
    requires
        !w.visible,
        spec_apply_action(w, a, r).visible,
    ensures
        a is ShowAtTray,
        r.show_ok,
{
}

} // verus!
