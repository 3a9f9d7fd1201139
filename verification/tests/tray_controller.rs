//! The tray controller on its own: the fixed creation attributes and the
//! best-effort set-title call; and the activation-policy setter.

use meteobar::policy::ActivationPolicy;
use meteobar::policy::set_accessory_policy;
use meteobar::tray::build_tray_icon;
use meteobar::tray::initial_title;
use meteobar::tray::set_title;
use meteobar::tray::tooltip_text;
use meteobar::tray::transparent_icon;

#[test]
fn startup_constants() {
    assert_eq!(initial_title(), "--°");
    assert_eq!(tooltip_text(), "MeteoBar");
}

#[test]
fn transparent_icon_is_one_zero_pixel() {
    let icon = transparent_icon();
    assert_eq!(icon.rgba, vec![0u8, 0u8, 0u8, 0u8]);
    assert_eq!(icon.width, 1);
    assert_eq!(icon.height, 1);
}

#[test]
fn built_tray_carries_creation_attributes() {
    let t = build_tray_icon(42);
    assert_eq!(t.id, 42);
    assert_eq!(t.title, "--°");
    assert_eq!(t.tooltip, "MeteoBar");
    assert!(t.icon_as_template);
    assert_eq!(t.icon.rgba, vec![0u8, 0u8, 0u8, 0u8]);
}

#[test]
fn set_title_success_and_failure() {
    let mut t = build_tray_icon(5);
    set_title(&mut t, String::from("7°"), true);
    assert_eq!(t.title, "7°");
    assert_eq!(t.id, 5);
    assert_eq!(t.tooltip, "MeteoBar");
    assert!(t.icon_as_template);

    set_title(&mut t, String::from("8°"), false);
    assert_eq!(t.title, "7°");
}

#[test]
fn accessory_policy_is_set() {
    let mut p = ActivationPolicy::Regular;
    set_accessory_policy(&mut p);
    assert_eq!(p, ActivationPolicy::Accessory);
}
