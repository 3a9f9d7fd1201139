//! Tray Controller: the single tray icon, its identifier, and its mutable
//! title.
//!
//! The icon's bitmap, tooltip and template flag are fixed at creation; only
//! the title changes afterwards, through a best-effort host call whose
//! failure leaves everything as it was.

use vstd::prelude::*;

verus! {

/// The identifier of the live tray icon, stored once at creation in the
/// process-wide managed state and never changed afterwards.
#[derive(Clone, Copy, PartialEq, Eq, Structural, Debug)]
pub struct TrayState {
    pub tray_id: u64,
}

/// An icon bitmap as handed to the host: raw RGBA bytes with dimensions.
#[derive(Debug)]
pub struct IconImage {
    pub rgba: Vec<u8>,
    pub width: u32,
    pub height: u32,
}

/// The mathematical value of an icon bitmap.
#[verifier::ext_equal]
pub ghost struct IconView {
    pub rgba: Seq<u8>,
    pub width: u32,
    pub height: u32,
}

impl View for IconImage {
    type V = IconView;

    open spec fn view(&self) -> IconView {
        IconView { rgba: self.rgba@, width: self.width, height: self.height }
    }
}

/// The single tray icon as the host shows it: its identifier, its mutable
/// title text, and the attributes fixed at creation.
#[derive(Debug)]
pub struct TrayIcon {
    pub id: u64,
    pub title: String,
    pub tooltip: String,
    pub icon: IconImage,
    pub icon_as_template: bool,
}

/// The mathematical value of a tray icon.
#[verifier::ext_equal]
pub ghost struct TrayIconView {
    pub id: u64,
    pub title: Seq<char>,
    pub tooltip: Seq<char>,
    pub icon: IconView,
    pub icon_as_template: bool,
}

impl View for TrayIcon {
    type V = TrayIconView;

    open spec fn view(&self) -> TrayIconView {
        TrayIconView {
            id: self.id,
            title: self.title@,
            tooltip: self.tooltip@,
            icon: self.icon@,
            icon_as_template: self.icon_as_template,
        }
    }
}

/// A fully transparent bitmap: every byte of every RGBA pixel is zero, so
/// the host renders nothing of the image and recolors it as a template,
/// leaving only the title text visually meaningful.
pub open spec fn spec_is_fully_transparent(icon: IconView) -> bool {
    forall|i: int| 0 <= i < icon.rgba.len() ==> icon.rgba[i] == 0u8
}

/// The icon every tray is created with: one fully transparent RGBA pixel.
pub open spec fn spec_initial_icon() -> IconView {
    IconView { rgba: seq![0u8, 0u8, 0u8, 0u8], width: 1, height: 1 }
}

/// The title the tray icon shows before any update: a placeholder degree
/// reading.
pub open spec fn spec_initial_title() -> Seq<char> {
    "--°"@
}

/// The fixed tooltip of the tray icon: the application's name.
pub open spec fn spec_tooltip() -> Seq<char> {
    "MeteoBar"@
}

/// The tray icon as created at startup with a given host-assigned
/// identifier: transparent one-pixel template icon, placeholder title,
/// application tooltip.
pub open spec fn spec_new_tray(id: u64) -> TrayIconView {
    TrayIconView {
        id: id,
        title: spec_initial_title(),
        tooltip: spec_tooltip(),
        icon: spec_initial_icon(),
        icon_as_template: true,
    }
}

/// The effect of the host's set-title call: on success the displayed title
/// becomes exactly the given text, on failure nothing changes; the
/// attributes fixed at creation are untouched either way.
pub open spec fn spec_set_title(t: TrayIconView, title: Seq<char>, call_ok: bool) -> TrayIconView {
    if call_ok {
        TrayIconView { title: title, ..t }
    } else {
        t
    }
}

/// The initial tray title, as an executable value.
pub fn initial_title() -> (t: String)
    ensures
        t@ == spec_initial_title(),
{
    String::from_str("--°")
}

/// The tray tooltip, as an executable value.
pub fn tooltip_text() -> (t: String)
    ensures
        t@ == spec_tooltip(),
{
    String::from_str("MeteoBar")
}

/// The one-pixel fully transparent icon used at tray creation.
pub fn transparent_icon() -> (icon: IconImage)
    ensures
        icon@ == spec_initial_icon(),
        spec_is_fully_transparent(icon@),
{
    let mut rgba: Vec<u8> = Vec::new();
    rgba.push(0u8);
    rgba.push(0u8);
    rgba.push(0u8);
    rgba.push(0u8);
    let icon = IconImage { rgba: rgba, width: 1, height: 1 };
    proof {
        assert(icon@.rgba =~= seq![0u8, 0u8, 0u8, 0u8]);
        assert(icon@ =~= spec_initial_icon());
    }
    icon
}

/// Builds the tray icon exactly as startup configures it, under the
/// identifier the host assigned.
pub fn build_tray_icon(id: u64) -> (t: TrayIcon)
    ensures
        t@ == spec_new_tray(id),
{
    let t = TrayIcon {
        id: id,
        title: initial_title(),
        tooltip: tooltip_text(),
        icon: transparent_icon(),
        icon_as_template: true,
    };
    proof {
        assert(t@ =~~= spec_new_tray(id));
    }
    t
}

/// Retitles the tray icon through the host's best-effort set-title call,
/// whose reported outcome is `call_ok`.
pub fn set_title(t: &mut TrayIcon, title: String, call_ok: bool)
    ensures
        final(t)@ == spec_set_title(old(t)@, title@, call_ok),
{
    if call_ok {
        t.title = title;
    }
    proof {
        assert(t@ =~~= spec_set_title(old(t)@, title@, call_ok));
    }
}

/// The creation-time icon really is invisible as an image: it is a single
/// pixel, every byte of it zero.
pub proof fn lemma_initial_icon_transparent()
    ensures
        spec_is_fully_transparent(spec_initial_icon()),
        spec_initial_icon().width == 1,
        spec_initial_icon().height == 1,
        spec_initial_icon().rgba.len() == 4,
{
}

} // verus!
