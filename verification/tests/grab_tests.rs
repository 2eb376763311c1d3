use xdg_shell_core::grab::{
    evaluate_grab_request, serial_fresh, DeviceGrabState, GrabDecision, GrabEnv, LayerTier,
    OutputFocus,
};
use xdg_shell_core::shell::{ActiveGrab, Shell};

fn env() -> GrabEnv {
    GrabEnv {
        ime_keyboard_grabbed: false,
        root: Some(10),
        locked: false,
        lock_focus: None,
        screenshot_open: false,
        output: Some(OutputFocus {
            root_layer: None,
            overlay_focusable: false,
            render_above_top: false,
            top_focusable: false,
            layout_focus: Some(10),
        }),
    }
}

fn idle_device() -> DeviceGrabState {
    DeviceGrabState { grabbed: false, holds_request_serial: false, holds_previous_serial: false }
}

#[test]
fn grab_rooted_at_lock_focus_is_granted_under_lock() {
    // Session locked, lock focus = surface L, popup rooted at L.
    let l: u64 = 77;
    let mut e = env();
    e.locked = true;
    e.lock_focus = Some(l);
    e.root = Some(l);
    assert_eq!(evaluate_grab_request(&e), GrabDecision::Proceed { root: l });

    // Completing with a fresh serial records root L in the grab state.
    let mut shell = Shell::new();
    let installed = shell.finish_grab(l, 3, false, &idle_device(), &idle_device());
    assert!(installed);
    assert_eq!(shell.popup_grab, Some(ActiveGrab { root: l, session: 3 }));
}

#[test]
fn grab_rooted_elsewhere_is_dismissed_under_lock() {
    let l: u64 = 77;
    let m: u64 = 78;
    let mut e = env();
    e.locked = true;
    e.lock_focus = Some(l);
    e.root = Some(m);
    assert_eq!(evaluate_grab_request(&e), GrabDecision::Dismiss { root: m });
}

#[test]
fn input_method_grab_is_silently_ignored() {
    let mut e = env();
    e.ime_keyboard_grabbed = true;
    assert_eq!(evaluate_grab_request(&e), GrabDecision::Ignore);
}

#[test]
fn unresolvable_root_is_denied_without_dismissal() {
    let mut e = env();
    e.root = None;
    assert_eq!(evaluate_grab_request(&e), GrabDecision::DenySilent);
}

#[test]
fn screenshot_overlay_owns_all_focus() {
    let mut e = env();
    e.screenshot_open = true;
    assert_eq!(evaluate_grab_request(&e), GrabDecision::Dismiss { root: 10 });
}

#[test]
fn no_active_output_dismisses() {
    let mut e = env();
    e.output = None;
    assert_eq!(evaluate_grab_request(&e), GrabDecision::Dismiss { root: 10 });
}

#[test]
fn layer_surface_roots_need_top_or_overlay_tier() {
    let mut e = env();
    for (tier, expected) in [
        (LayerTier::Overlay, GrabDecision::Proceed { root: 10 }),
        (LayerTier::Top, GrabDecision::Proceed { root: 10 }),
        (LayerTier::Bottom, GrabDecision::Dismiss { root: 10 }),
        (LayerTier::Background, GrabDecision::Dismiss { root: 10 }),
    ] {
        e.output.as_mut().unwrap().root_layer = Some(tier);
        assert_eq!(evaluate_grab_request(&e), expected);
    }
}

#[test]
fn focusable_overlay_outranks_a_window_root() {
    let mut e = env();
    e.output.as_mut().unwrap().overlay_focusable = true;
    assert_eq!(evaluate_grab_request(&e), GrabDecision::Dismiss { root: 10 });
}

#[test]
fn focusable_top_layer_outranks_unless_rendered_above() {
    let mut e = env();
    e.output.as_mut().unwrap().top_focusable = true;
    assert_eq!(evaluate_grab_request(&e), GrabDecision::Dismiss { root: 10 });
    e.output.as_mut().unwrap().render_above_top = true;
    assert_eq!(evaluate_grab_request(&e), GrabDecision::Proceed { root: 10 });
}

#[test]
fn window_root_must_match_layout_focus() {
    let mut e = env();
    e.output.as_mut().unwrap().layout_focus = Some(11);
    assert_eq!(evaluate_grab_request(&e), GrabDecision::Dismiss { root: 10 });
    e.output.as_mut().unwrap().layout_focus = None;
    assert_eq!(evaluate_grab_request(&e), GrabDecision::Dismiss { root: 10 });
}

#[test]
fn stale_serial_on_a_grabbed_device_rejects_and_installs_nothing() {
    // Keyboard grabbed by a different, non-chained session.
    let stale = DeviceGrabState {
        grabbed: true,
        holds_request_serial: false,
        holds_previous_serial: false,
    };
    assert!(!serial_fresh(true, &stale, &idle_device()));
    assert!(!serial_fresh(true, &idle_device(), &stale));

    let mut shell = Shell::new();
    let installed = shell.finish_grab(10, 4, true, &stale, &idle_device());
    assert!(!installed);
    assert_eq!(shell.popup_grab, None);
}

#[test]
fn chained_or_matching_serials_are_accepted() {
    let matching = DeviceGrabState {
        grabbed: true,
        holds_request_serial: true,
        holds_previous_serial: false,
    };
    let chained = DeviceGrabState {
        grabbed: true,
        holds_request_serial: false,
        holds_previous_serial: true,
    };
    assert!(serial_fresh(true, &matching, &chained));
    // With no previous serial recorded, an existing grab does not block.
    let grabbed = DeviceGrabState {
        grabbed: true,
        holds_request_serial: false,
        holds_previous_serial: false,
    };
    assert!(serial_fresh(false, &grabbed, &idle_device()));
}

#[test]
fn a_new_grab_replaces_the_previous_one() {
    let mut shell = Shell::new();
    assert!(shell.finish_grab(10, 1, false, &idle_device(), &idle_device()));
    assert!(shell.finish_grab(20, 2, false, &idle_device(), &idle_device()));
    assert_eq!(shell.popup_grab, Some(ActiveGrab { root: 20, session: 2 }));
}
