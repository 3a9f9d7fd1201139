//! The application: process-wide state and the command surface.
//!
//! `AppModel` gathers everything the application observes and controls in
//! the host: the presentation policy, the managed tray identifier, the live
//! tray icon, and the main window. Startup runs once and publishes the tray
//! identifier only after the icon exists; the two externally invokable
//! commands — updating the tray title and hiding the window — are
//! best-effort and always succeed toward their caller.

use vstd::prelude::*;

use crate::policy::ActivationPolicy;
use crate::policy::set_accessory_policy;
use crate::tray::TrayIcon;
use crate::tray::TrayIconView;
use crate::tray::TrayState;
use crate::tray::build_tray_icon;
use crate::tray::set_title;
use crate::tray::spec_new_tray;
use crate::window::HostReport;
use crate::window::TrayEvent;
use crate::window::WindowAction;
use crate::window::WindowModel;
use crate::window::handle_tray_event;
use crate::window::initial_window;
use crate::window::spec_initial_window;
use crate::window::spec_tray_action;
use crate::window::spec_window_step;

verus! {

/// Everything this application observes and controls in the host.
pub struct AppModel {
    /// The process's presentation policy.
    pub policy: ActivationPolicy,
    /// The managed state: the stored identifier of the live tray icon,
    /// absent until startup publishes it.
    pub tray_state: Option<TrayState>,
    /// The live tray icon, absent until startup creates it.
    pub tray: Option<TrayIcon>,
    /// The main window.
    pub window: WindowModel,
}

/// The mathematical value of the application state.
#[verifier::ext_equal]
pub ghost struct AppView {
    pub policy: ActivationPolicy,
    pub tray_state: Option<u64>,
    pub tray: Option<TrayIconView>,
    pub window: WindowModel,
}

impl View for AppModel {
    type V = AppView;

    open spec fn view(&self) -> AppView {
        AppView {
            policy: self.policy,
            tray_state: match self.tray_state {
                Some(s) => Some(s.tray_id),
                None => None,
            },
            tray: match self.tray {
                Some(t) => Some(t@),
                None => None,
            },
            window: self.window,
        }
    }
}

/// Well-formedness of the application state: the stored identifier, when
/// present, names the live tray icon.
pub open spec fn spec_app_wf(a: AppView) -> bool {
    a.tray_state matches Some(id) ==> (a.tray matches Some(t) && t.id == id)
}

/// Whether the title-update lookup finds its target: managed state present
/// and the live tray icon carrying the stored identifier.
pub open spec fn spec_tray_lookup_hits(a: AppView) -> bool {
    &&& a.tray_state matches Some(id)
    &&& a.tray matches Some(t)
    &&& t.id == id
}

/// The title the tray icon currently displays, when there is one.
pub open spec fn spec_tray_title(a: AppView) -> Option<Seq<char>> {
    match a.tray {
        Some(t) => Some(t.title),
        None => None,
    }
}

/// The fixed name under which the host knows the single main window.
pub open spec fn spec_main_window_label() -> Seq<char> {
    "main"@
}

/// The state at process start: regular presentation, no managed state, no
/// tray icon, window hidden.
pub open spec fn spec_fresh_app() -> AppView {
    AppView {
        policy: ActivationPolicy::Regular,
        tray_state: None,
        tray: None,
        window: spec_initial_window(),
    }
}

/// The one fatal startup error: the host could not create the tray icon.
#[derive(Clone, Copy, PartialEq, Eq, Structural, Debug)]
pub enum SetupError {
    TrayCreation,
}

/// The effect of startup: the presentation policy becomes accessory; when
/// the host could build the tray icon, the icon exists with its fixed
/// creation attributes and its identifier is published to the managed
/// state; when it could not, nothing is published.
pub open spec fn spec_setup(a: AppView, tray_build_ok: bool, tray_id: u64) -> AppView {
    if tray_build_ok {
        AppView {
            policy: ActivationPolicy::Accessory,
            tray_state: Some(tray_id),
            tray: Some(spec_new_tray(tray_id)),
            ..a
        }
    } else {
        AppView { policy: ActivationPolicy::Accessory, ..a }
    }
}

/// The effect of the title-update command: when the stored identifier
/// finds the live tray icon and the host's set-title call succeeds, the
/// title becomes exactly the given text; in every other case — no managed
/// state, no tray icon, a stale identifier, or a failed host call — the
/// state is left exactly as it was.
pub open spec fn spec_update_tray_title(a: AppView, title: Seq<char>, set_ok: bool) -> AppView {
    match (a.tray_state, a.tray) {
        (Some(id), Some(t)) => {
            if t.id == id && set_ok {
                AppView { tray: Some(crate::tray::spec_set_title(t, title, true)), ..a }
            } else {
                a
            }
        }
        _ => a,
    }
}

/// The effect of a tray event on the application: only the window moves;
/// the tray icon, the stored identifier and the policy stay untouched.
pub open spec fn spec_app_tray_event(
    a: AppView,
    e: TrayEvent,
    window_present: bool,
    check_ok: bool,
    r: HostReport,
) -> AppView {
    AppView { window: spec_window_step(a.window, e, window_present, check_ok, r), ..a }
}

/// The main window's fixed name, as an executable value.
pub fn main_window_label() -> (s: String)
    ensures
        s@ == spec_main_window_label(),
{
    String::from_str("main")
}

/// The application state at process start, as an executable value.
pub fn new_app() -> (app: AppModel)
    ensures
        app@ == spec_fresh_app(),
{
    let app = AppModel {
        policy: ActivationPolicy::Regular,
        tray_state: None,
        tray: None,
        window: initial_window(),
    };
    proof {
        assert(app@ =~~= spec_fresh_app());
    }
    app
}

/// One-time startup: switch the presentation policy to accessory, then ask
/// the host to build the tray icon. `tray_build_ok` is the host's verdict
/// on that creation and `tray_id` the identifier it assigned. The
/// identifier is published to the managed state only once the icon exists;
/// a creation failure is returned as the fatal startup error, with nothing
/// published.
pub fn setup(app: &mut AppModel, tray_build_ok: bool, tray_id: u64) -> (r: Result<(), SetupError>)
    requires
        old(app)@.tray_state is None,
        old(app)@.tray is None,
    ensures
        final(app)@ == spec_setup(old(app)@, tray_build_ok, tray_id),
        r is Ok <==> tray_build_ok,
        !tray_build_ok ==> r == Err::<(), SetupError>(SetupError::TrayCreation),
{
    set_accessory_policy(&mut app.policy);
    if tray_build_ok {
        let t = build_tray_icon(tray_id);
        app.tray = Some(t);
        app.tray_state = Some(TrayState { tray_id: tray_id });
        proof {
            assert(app@ =~~= spec_setup(old(app)@, tray_build_ok, tray_id));
        }
        Ok(())
    } else {
        proof {
            assert(app@ =~~= spec_setup(old(app)@, tray_build_ok, tray_id));
        }
        Err(SetupError::TrayCreation)
    }
}

/// The title-update command: look the tray icon up by the stored
/// identifier and ask the host to retitle it with the best-effort set-title
/// call, whose reported outcome is `set_ok`. The command accepts every
/// title — empty, arbitrarily long, arbitrary characters — verbatim, and
/// always succeeds toward its caller: when the managed state or the icon is
/// absent or the host call fails, it changes nothing.
pub fn update_tray_title(app: &mut AppModel, title: String, set_ok: bool)
    ensures
        final(app)@ == spec_update_tray_title(old(app)@, title@, set_ok),
{
    let stored_id: Option<u64> = match &app.tray_state {
        Some(s) => Some(s.tray_id),
        None => None,
    };
    match stored_id {
        Some(id) => {
            match &mut app.tray {
                Some(t) => {
                    if t.id == id {
                        set_title(t, title, set_ok);
                    }
                }
                None => {}
            }
        }
        None => {}
    }
    proof {
        assert(app@ =~~= spec_update_tray_title(old(app)@, title@, set_ok));
    }
}

/// One full reaction to a tray event at the application level: the window
/// controller decides from the event and the visibility check, the decided
/// action runs against the host, and everything else is untouched. Returns
/// the action so the host loop can perform it.
pub fn app_handle_tray_event(
    app: &mut AppModel,
    e: &TrayEvent,
    window_present: bool,
    check_ok: bool,
    r: &HostReport,
) -> (a: WindowAction)
    ensures
        a == spec_tray_action(*e, window_present, check_ok && old(app)@.window.visible),
        final(app)@ == spec_app_tray_event(old(app)@, *e, window_present, check_ok, *r),
{
    let a = handle_tray_event(&mut app.window, e, window_present, check_ok, r);
    proof {
        assert(app@ =~~= spec_app_tray_event(old(app)@, *e, window_present, check_ok, *r));
    }
    a
}

/// The hide-window command: unconditionally asks the host to hide the main
/// window and absorbs the call's failure; nothing but the window's
/// visibility can change, and the command always succeeds toward its
/// caller.
pub fn app_hide_window(app: &mut AppModel, call_ok: bool)
    ensures
        final(app)@ == (AppView {
            window: crate::window::spec_hide_window(old(app)@.window, call_ok),
            ..old(app)@
        }),
{
    crate::window::hide_window(&mut app.window, call_ok);
    proof {
        assert(app@ =~~= (AppView {
            window: crate::window::spec_hide_window(old(app)@.window, call_ok),
            ..old(app)@
        }));
    }
}

/// For every title, the update command either retitles the tray icon to
/// exactly that text or leaves the whole application state unchanged — and
/// in both cases the stored identifier, the window and the policy are
/// exactly what they were.
pub proof fn lemma_update_title_exact_or_unchanged(a: AppView, title: Seq<char>, set_ok: bool)
    ensures
        ({
            let a2 = spec_update_tray_title(a, title, set_ok);
            &&& a2.tray_state == a.tray_state
            &&& a2.window == a.window
            &&& a2.policy == a.policy
            &&& a2 == a || spec_tray_title(a2) == Some(title)
            &&& !(spec_tray_lookup_hits(a) && set_ok) ==> a2 == a
        }),
{
    let a2 = spec_update_tray_title(a, title, set_ok);
    if !(spec_tray_lookup_hits(a) && set_ok) {
        assert(a2 =~~= a);
    }
}

/// The stored tray identifier is never corrupted after publication: the
/// title-update command, the tray-click path and the hide command all leave
/// it exactly as it was, whatever the host reported; only startup writes
/// it, exactly once, and only after the icon it names exists.
pub proof fn lemma_identifier_stable(
    a: AppView,
    title: Seq<char>,
    set_ok: bool,
    e: TrayEvent,
    window_present: bool,
    check_ok: bool,
    r: HostReport,
)
    ensures
        spec_update_tray_title(a, title, set_ok).tray_state == a.tray_state,
        spec_app_tray_event(a, e, window_present, check_ok, r).tray_state == a.tray_state,
        spec_setup(a, true, 0).tray_state == Some(0u64),
        spec_setup(a, true, 0).tray matches Some(t) && t.id == 0,
        spec_setup(a, false, 0).tray_state == a.tray_state,
        spec_setup(a, false, 0).tray == a.tray,
{
}

/// Startup establishes well-formedness, and both commands and the click
/// path preserve it: the stored identifier always names the live tray
/// icon.
pub proof fn lemma_wf_preserved(
    a: AppView,
    title: Seq<char>,
    set_ok: bool,
    e: TrayEvent,
    window_present: bool,
    check_ok: bool,
    r: HostReport,
    tray_build_ok: bool,
    tray_id: u64,
)
    ensures
        a.tray_state is None ==> spec_app_wf(spec_setup(a, tray_build_ok, tray_id)),
        spec_app_wf(a) ==> spec_app_wf(spec_update_tray_title(a, title, set_ok)),
        spec_app_wf(a) ==> spec_app_wf(spec_app_tray_event(a, e, window_present, check_ok, r)),
        spec_app_wf(spec_fresh_app()),
{
}

/// A title update does not affect the window: visibility, position and
/// focus are exactly what they were, so a click after an update still
/// decides and acts from the same window state; and, the other way, a tray
/// event never touches the tray icon's title.
pub proof fn lemma_title_and_visibility_independent(
    a: AppView,
    title: Seq<char>,
    set_ok: bool,
    e: TrayEvent,
    window_present: bool,
    check_ok: bool,
    r: HostReport,
)
    ensures
        spec_update_tray_title(a, title, set_ok).window == a.window,
        spec_app_tray_event(
            spec_update_tray_title(a, title, set_ok),
            e,
            window_present,
            check_ok,
            r,
        ).window == spec_app_tray_event(a, e, window_present, check_ok, r).window,
        spec_tray_title(spec_app_tray_event(a, e, window_present, check_ok, r)) == spec_tray_title(a),
{
}

} // verus!
