use xdg_shell_core::geometry::Rect;
use xdg_shell_core::popup::{
    unconstrain_layer_shell_popup, CommitAction, PopupState, RootPlacement,
};
use xdg_shell_core::positioner::{AnchorEdge, GravityEdge, Positioner};
use xdg_shell_core::shell::Shell;

fn positioner() -> Positioner {
    Positioner {
        rect_w: 10,
        rect_h: 10,
        anchor_rect: Rect { x: 40, y: 40, w: 10, h: 10 },
        anchor: AnchorEdge::BottomRight,
        gravity: GravityEdge::BottomRight,
        flip_x: false,
        flip_y: false,
        slide_x: false,
        slide_y: false,
        resize_x: false,
        resize_y: false,
        offset_x: 0,
        offset_y: 0,
        reactive: false,
    }
}

fn popup(root: Option<u64>, reactive: bool) -> PopupState {
    let mut p = positioner();
    p.reactive = reactive;
    PopupState {
        positioner: p,
        pending_geometry: Rect { x: 0, y: 0, w: 0, h: 0 },
        root,
        offset_x: 0,
        offset_y: 0,
        initial_configure_sent: false,
    }
}

#[test]
fn new_popup_solves_against_the_window_placement() {
    let mut shell = Shell::new();
    shell.new_popup(
        1,
        popup(Some(100), false),
        Some(RootPlacement::Window { window_geo_w: 200, output_geo_h: 300, window_y: 0 }),
    );
    // Anchored geometry (50,50,10,10) fits the padded target, so it stays.
    let p = shell.popups.get(1).unwrap();
    assert_eq!(p.pending_geometry, Rect { x: 50, y: 50, w: 10, h: 10 });
}

#[test]
fn popup_with_unresolved_root_is_left_alone() {
    let mut shell = Shell::new();
    let before = popup(None, false);
    shell.new_popup(1, before, None);
    let p = shell.popups.get(1).unwrap();
    assert_eq!(p.pending_geometry, Rect { x: 0, y: 0, w: 0, h: 0 });
}

#[test]
fn reposition_starts_from_the_anchored_geometry() {
    let mut shell = Shell::new();
    shell.new_popup(1, popup(None, false), None);
    let mut newpos = positioner();
    newpos.anchor_rect = Rect { x: 10, y: 20, w: 4, h: 6 };
    // No placement: the geometry is the positioner's anchored rectangle,
    // bottom-right of the anchor rect's bottom-right corner (14, 26).
    let repositioned = shell.reposition_request(1, newpos, None);
    assert!(repositioned);
    let p = shell.popups.get(1).unwrap();
    assert_eq!(p.pending_geometry, Rect { x: 14, y: 26, w: 10, h: 10 });
    // Repositioning an unknown popup owes no token.
    assert!(!shell.reposition_request(2, newpos, None));
}

#[test]
fn commit_sends_the_initial_configure_exactly_once() {
    let mut shell = Shell::new();
    shell.new_popup(1, popup(Some(100), false), None);
    let first = shell.popups_handle_commit(1, true);
    assert_eq!(first, CommitAction::SendInitialConfigure { push_scale_transform: true });
    let second = shell.popups_handle_commit(1, true);
    assert_eq!(second, CommitAction::NothingToDo);
    let unknown = shell.popups_handle_commit(9, true);
    assert_eq!(unknown, CommitAction::NothingToDo);
}

#[test]
fn commit_without_an_output_configures_without_surface_state() {
    let mut shell = Shell::new();
    shell.new_popup(1, popup(Some(100), false), None);
    let act = shell.popups_handle_commit(1, false);
    assert_eq!(act, CommitAction::SendInitialConfigure { push_scale_transform: false });
}

#[test]
fn destroyed_popup_reports_its_root_for_the_redraw() {
    let mut shell = Shell::new();
    shell.new_popup(1, popup(Some(100), false), None);
    assert_eq!(shell.popup_destroyed(1), Some(100));
    assert!(!shell.popups.contains(1));
    assert_eq!(shell.popup_destroyed(1), None);
}

#[test]
fn only_reactive_popups_of_the_moved_window_are_updated() {
    let mut shell = Shell::new();
    shell.new_popup(1, popup(Some(100), true), None);
    shell.new_popup(2, popup(Some(100), false), None);
    shell.new_popup(3, popup(Some(200), true), None);
    let to_configure =
        shell.update_reactive_popups(100, 200, 300, 0);
    assert_eq!(to_configure, vec![1]);
    // The reactive popup took the window placement's solution...
    assert_eq!(
        shell.popups.get(1).unwrap().pending_geometry,
        Rect { x: 50, y: 50, w: 10, h: 10 },
    );
    // ...while the others kept their geometry.
    assert_eq!(shell.popups.get(2).unwrap().pending_geometry, Rect { x: 0, y: 0, w: 0, h: 0 });
    assert_eq!(shell.popups.get(3).unwrap().pending_geometry, Rect { x: 0, y: 0, w: 0, h: 0 });
}

#[test]
fn window_target_accounts_for_chain_offset_and_window_position() {
    // Popup chain offset (5,7) and window at y=50 shift the target to
    // (-5,-57,40,300); the padded target spans x in [3,27]. The anchored
    // geometry (50,50,10,10) overflows on the right, and sliding moves it
    // to the padded target's right edge.
    let mut shell = Shell::new();
    let mut p = popup(Some(100), false);
    p.offset_x = 5;
    p.offset_y = 7;
    p.positioner.slide_x = true;
    shell.new_popup(
        1,
        p,
        Some(RootPlacement::Window { window_geo_w: 40, output_geo_h: 300, window_y: 50 }),
    );
    let stored = shell.popups.get(1).unwrap();
    assert_eq!(stored.pending_geometry, Rect { x: 17, y: 50, w: 10, h: 10 });
}

#[test]
fn layer_popup_without_layer_geometry_is_untouched() {
    let mut p = popup(Some(100), false);
    let before = p.pending_geometry;
    unconstrain_layer_shell_popup(&mut p, 1920, 1080, None);
    assert_eq!(p.pending_geometry, before);
    // With a geometry the popup is solved against the output.
    unconstrain_layer_shell_popup(&mut p, 1920, 1080, Some((0, 0)));
    assert_eq!(p.pending_geometry, Rect { x: 50, y: 50, w: 10, h: 10 });
}
