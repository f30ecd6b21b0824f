use aether_launcher::{
    contains_ascii_ignore_case, on_key_pressed, plan, plan_placement, session_supports_overlay,
    KeyResponse, MonitorGeometry, OverlayPlacement, WindowPlacement, WindowSpec, ESCAPE_KEYVAL,
    WINDOW_HEIGHT, WINDOW_WIDTH,
};

#[test]
fn launcher_spec_is_fixed() {
    let w = WindowSpec::launcher();
    assert_eq!(w.width, 1200);
    assert_eq!(w.height, 800);
    assert_eq!((WINDOW_WIDTH, WINDOW_HEIGHT), (1200, 800));
    assert!(!w.resizable);
    assert!(!w.modal);
}

#[test]
fn centres_on_full_hd() {
    let r = plan(MonitorGeometry { width: 1920, height: 1080 }, WindowSpec::launcher());
    assert_eq!(r, OverlayPlacement { left_margin: 360, top_margin: 140 });
}

#[test]
fn centres_on_odd_sizes() {
    let r = plan(MonitorGeometry { width: 2561, height: 1441 }, WindowSpec::launcher());
    assert_eq!(r, OverlayPlacement { left_margin: 680, top_margin: 320 });
}

#[test]
fn equal_size_gives_zero_margins() {
    let r = plan(MonitorGeometry { width: 1200, height: 800 }, WindowSpec::launcher());
    assert_eq!(r, OverlayPlacement { left_margin: 0, top_margin: 0 });
}

#[test]
fn small_monitor_clamps_to_zero() {
    let r = plan(MonitorGeometry { width: 1024, height: 600 }, WindowSpec::launcher());
    assert_eq!(r, OverlayPlacement { left_margin: 0, top_margin: 0 });
    let r = plan(MonitorGeometry { width: 1600, height: 600 }, WindowSpec::launcher());
    assert_eq!(r, OverlayPlacement { left_margin: 200, top_margin: 0 });
}

#[test]
fn extreme_monitor_sizes_do_not_overflow() {
    let r = plan(MonitorGeometry { width: i32::MAX, height: i32::MIN }, WindowSpec::launcher());
    assert_eq!(r.left_margin, (i32::MAX - 1200) / 2);
    assert_eq!(r.top_margin, 0);
}

#[test]
fn wayland_display_is_detected_in_any_case() {
    assert!(session_supports_overlay("GdkWaylandDisplay", true));
    assert!(session_supports_overlay("WAYLAND", true));
    assert!(!session_supports_overlay("GdkWaylandDisplay", false));
    assert!(!session_supports_overlay("GdkX11Display", true));
    assert!(!session_supports_overlay("", true));
    assert!(!session_supports_overlay("Waylan", true));
}

#[test]
fn substring_search_ignores_ascii_case_only() {
    assert!(contains_ascii_ignore_case("abcDEF", "cde"));
    assert!(contains_ascii_ignore_case("x", ""));
    assert!(!contains_ascii_ignore_case("", "x"));
    assert!(!contains_ascii_ignore_case("abc", "abd"));
}

#[test]
fn overlay_session_gets_centred_overlay() {
    let mon = MonitorGeometry { width: 1920, height: 1080 };
    match plan_placement(true, Some(mon), WindowSpec::launcher()) {
        WindowPlacement::Overlay(o) => {
            assert!(o.top_layer);
            assert!(!o.anchored);
            assert_eq!((o.width, o.height), (1200, 800));
            assert!(o.auto_exclusive_zone);
            assert!(o.on_demand_keyboard);
            assert_eq!(o.margins, Some(OverlayPlacement { left_margin: 360, top_margin: 140 }));
        }
        WindowPlacement::ToolkitDefault => panic!("expected an overlay"),
    }
}

#[test]
fn overlay_without_monitor_has_no_margins() {
    match plan_placement(true, None, WindowSpec::launcher()) {
        WindowPlacement::Overlay(o) => assert_eq!(o.margins, None),
        WindowPlacement::ToolkitDefault => panic!("expected an overlay"),
    }
}

#[test]
fn unsupported_session_falls_back_to_toolkit_placement() {
    let mon = MonitorGeometry { width: 1920, height: 1080 };
    assert_eq!(
        plan_placement(false, Some(mon), WindowSpec::launcher()),
        WindowPlacement::ToolkitDefault
    );
    assert_eq!(plan_placement(false, None, WindowSpec::launcher()), WindowPlacement::ToolkitDefault);
}

#[test]
fn escape_closes_other_keys_pass() {
    assert_eq!(ESCAPE_KEYVAL, 0xff1b);
    assert_eq!(on_key_pressed(0xff1b), KeyResponse::CloseAndStop);
    assert_eq!(on_key_pressed(0x0061), KeyResponse::PassThrough);
    assert_eq!(on_key_pressed(0xff0d), KeyResponse::PassThrough);
}
