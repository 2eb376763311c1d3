use xdg_shell_core::rules::{ColumnWidth, WindowAttributes, WindowRule};
use xdg_shell_core::shell::{
    DestroyOutcome, LayoutAction, Shell, UnfullscreenAction,
};
use xdg_shell_core::toplevel::{
    initial_configure_sent, new_decoration, request_mode, unset_mode, DecorationMode,
    ToplevelState,
};

fn no_attrs() -> WindowAttributes {
    WindowAttributes { app_id: None, title: None }
}

fn global_rule(width: i32) -> WindowRule {
    WindowRule {
        matches: vec![],
        excludes: vec![],
        default_column_width: Some(vec![ColumnWidth::Fixed(width)]),
        open_on_output: Some("DP-1".to_string()),
    }
}

#[test]
fn destroy_unmapped_toplevel_needs_no_layout_action() {
    let mut shell = Shell::new();
    shell.register_new_toplevel(7, ToplevelState::new(no_attrs()));
    assert!(shell.unmapped.contains(7));
    let r = shell.toplevel_destroyed(7, None);
    assert_eq!(r, DestroyOutcome::UnmappedRemoved);
    assert!(!shell.unmapped.contains(7));
}

#[test]
fn destroy_mapped_toplevel_removes_from_layout() {
    let mut shell = Shell::new();
    let r = shell.toplevel_destroyed(9, Some((31, 2)));
    assert_eq!(r, DestroyOutcome::RemoveFromLayout { window: 31, output: 2 });
}

#[test]
fn destroy_unknown_toplevel_is_reported_not_fatal() {
    let mut shell = Shell::new();
    let r = shell.toplevel_destroyed(9, None);
    assert_eq!(r, DestroyOutcome::MissingEverywhere);
}

#[test]
fn fullscreen_without_capability_changes_nothing_but_still_configures() {
    let mut shell = Shell::new();
    shell.register_new_toplevel(5, ToplevelState::new(no_attrs()));
    let r = shell.fullscreen_request(5, false, None, None, Some((1920, 1080)));
    assert!(r.configure);
    assert_eq!(r.action, LayoutAction::NoLayoutChange);
    let t = shell.unmapped.get(5).unwrap();
    assert!(!t.pending_fullscreen);
    assert_eq!(t.pending_size, None);
}

#[test]
fn fullscreen_mapped_moves_to_requested_output_first() {
    let mut shell = Shell::new();
    let r = shell.fullscreen_request(5, true, Some((40, 1)), Some(2), None);
    assert!(r.configure);
    assert_eq!(r.action, LayoutAction::MoveToOutputAndFullscreen { window: 40, output: 2 });
    let same = shell.fullscreen_request(5, true, Some((40, 1)), Some(1), None);
    assert_eq!(same.action, LayoutAction::SetFullscreen { window: 40 });
    let none = shell.fullscreen_request(5, true, Some((40, 1)), None, None);
    assert_eq!(none.action, LayoutAction::SetFullscreen { window: 40 });
}

#[test]
fn fullscreen_unmapped_sets_pending_view_size_and_flag() {
    let mut shell = Shell::new();
    shell.register_new_toplevel(5, ToplevelState::new(no_attrs()));
    let r = shell.fullscreen_request(5, true, None, None, Some((1920, 1080)));
    assert!(r.configure);
    assert_eq!(r.action, LayoutAction::NoLayoutChange);
    let t = shell.unmapped.get(5).unwrap();
    assert!(t.pending_fullscreen);
    assert_eq!(t.pending_size, Some((1920, 1080)));
}

#[test]
fn unfullscreen_mapped_clears_via_layout() {
    let shell = Shell::new();
    let r = shell.unfullscreen_request(5, Some(40), &vec![]);
    match r {
        UnfullscreenAction::ClearFullscreen { window } => assert_eq!(window, 40),
        _ => panic!("expected a layout-side clear"),
    }
}

#[test]
fn unfullscreen_unmapped_re_resolves_rules_and_applies_workspace_size() {
    let mut shell = Shell::new();
    shell.register_new_toplevel(5, ToplevelState::new(no_attrs()));
    shell.fullscreen_request(5, true, None, None, Some((1920, 1080)));
    let rules = vec![global_rule(640)];
    let r = shell.unfullscreen_request(5, None, &rules);
    match r {
        UnfullscreenAction::NeedWorkspaceSize { open_on_output, default_width } => {
            assert_eq!(open_on_output.as_deref(), Some("DP-1"));
            assert_eq!(default_width, Some(Some(ColumnWidth::Fixed(640))));
        },
        _ => panic!("expected a workspace-size request"),
    }
    shell.apply_unfullscreen_size(5, 640, 480);
    let t = shell.unmapped.get(5).unwrap();
    assert!(!t.pending_fullscreen);
    assert_eq!(t.pending_size, Some((640, 480)));
}

#[test]
fn decoration_mode_before_initial_configure_defers_the_reply() {
    let mut shell = Shell::new();
    shell.register_new_toplevel(5, ToplevelState::new(no_attrs()));
    {
        let mut t = shell.unmapped.remove(5).unwrap();
        new_decoration(&mut t);
        assert_eq!(t.pending_decoration, Some(DecorationMode::ServerSide));
        // Requested before the initial configure: no extra configure now.
        let send_now = request_mode(&mut t, DecorationMode::ClientSide);
        assert!(!send_now);
        shell.unmapped.insert(5, t);
    }
    // The requested mode appears in the eventual initial configure.
    let plan = shell.send_initial_configure_if_needed(5, &vec![], false).unwrap();
    assert_eq!(plan.decoration_mode, Some(DecorationMode::ClientSide));
    // Idempotent: a second call does not configure again.
    assert!(shell.send_initial_configure_if_needed(5, &vec![], false).is_none());
}

#[test]
fn decoration_mode_after_initial_configure_replies_at_once() {
    let mut shell = Shell::new();
    shell.register_new_toplevel(5, ToplevelState::new(no_attrs()));
    shell.send_initial_configure_if_needed(5, &vec![], false).unwrap();
    let mut t = shell.unmapped.remove(5).unwrap();
    assert!(initial_configure_sent(&t));
    assert!(request_mode(&mut t, DecorationMode::ClientSide));
    assert!(unset_mode(&mut t));
    assert_eq!(t.pending_decoration, Some(DecorationMode::ServerSide));
}

#[test]
fn initial_configure_resolves_rules_and_sets_tiled_flags() {
    let mut shell = Shell::new();
    shell.register_new_toplevel(
        5,
        ToplevelState::new(WindowAttributes { app_id: Some("app".to_string()), title: None }),
    );
    let rules = vec![global_rule(800)];
    let plan = shell.send_initial_configure_if_needed(5, &rules, true).unwrap();
    assert!(plan.tiled);
    assert_eq!(plan.open_on_output.as_deref(), Some("DP-1"));
    assert_eq!(plan.default_width, Some(Some(ColumnWidth::Fixed(800))));
    let t = shell.unmapped.get(5).unwrap();
    assert!(t.tiled_left && t.tiled_right && t.tiled_top && t.tiled_bottom);
    assert!(t.initial_configure_sent);
}

#[test]
fn initial_configure_for_unknown_surface_is_a_no_op() {
    let mut shell = Shell::new();
    assert!(shell.send_initial_configure_if_needed(99, &vec![], true).is_none());
}
