use xdg_shell_core::geometry::Rect;
use xdg_shell_core::positioner::{
    pad_rect, unconstrain_with_padding, AnchorEdge, GravityEdge, Positioner,
};

fn base_positioner() -> Positioner {
    Positioner {
        rect_w: 10,
        rect_h: 10,
        anchor_rect: Rect { x: 0, y: 0, w: 0, h: 0 },
        anchor: AnchorEdge::TopLeft,
        gravity: GravityEdge::BottomRight,
        flip_x: false,
        flip_y: false,
        slide_x: false,
        slide_y: false,
        resize_x: false,
        resize_y: false,
        offset_x: 0,
        offset_y: 0,
        reactive: false,
    }
}

#[test]
fn pad_shrinks_each_axis_wider_than_twice_the_inset() {
    let t = Rect { x: 0, y: 0, w: 100, h: 100 };
    assert_eq!(pad_rect(&t), Rect { x: 8, y: 8, w: 84, h: 84 });
    let small = Rect { x: 3, y: 4, w: 16, h: 16 };
    assert_eq!(pad_rect(&small), small);
    let mixed = Rect { x: 0, y: 0, w: 20, h: 10 };
    assert_eq!(pad_rect(&mixed), Rect { x: 8, y: 0, w: 4, h: 10 });
}

#[test]
fn fitting_popup_keeps_its_anchored_placement() {
    // Anchored at the bottom-right corner of (40,40,10,10), growing
    // bottom-right: the anchored geometry (50,50,10,10) already fits the
    // padded target, so it is returned as is.
    let mut p = base_positioner();
    p.anchor_rect = Rect { x: 40, y: 40, w: 10, h: 10 };
    p.anchor = AnchorEdge::BottomRight;
    let target = Rect { x: 0, y: 0, w: 100, h: 100 };
    let g = unconstrain_with_padding(&p, &target);
    assert_eq!(g, Rect { x: 50, y: 50, w: 10, h: 10 });
}

#[test]
fn slide_and_resize_clamp_into_a_small_target() {
    // A 20x20 popup anchored at the top-left of a 16x10 target (no padding
    // applies): sliding keeps the leading edge, resizing clamps the rest.
    let mut p = base_positioner();
    p.rect_w = 20;
    p.rect_h = 20;
    p.anchor_rect = Rect { x: 0, y: 0, w: 16, h: 10 };
    p.slide_x = true;
    p.slide_y = true;
    p.resize_x = true;
    p.resize_y = true;
    let target = Rect { x: 0, y: 0, w: 16, h: 10 };
    let g = unconstrain_with_padding(&p, &target);
    assert_eq!(g, Rect { x: 0, y: 0, w: 16, h: 10 });
    // The contained-in-target guarantee, checked concretely.
    assert!(target.contains_rect(&g));
}

#[test]
fn flip_is_used_only_when_it_removes_the_constraint() {
    // Anchor point (2,5), gravity left: the popup (10 wide) sticks out on
    // the left. In the padded attempt even the flip cannot save it, so the
    // fallback solves against the full target, where flipping to the right
    // works.
    let mut p = base_positioner();
    p.anchor_rect = Rect { x: 2, y: 5, w: 0, h: 0 };
    p.anchor = AnchorEdge::Center;
    p.gravity = GravityEdge::Left;
    p.flip_x = true;
    let target = Rect { x: 0, y: 0, w: 100, h: 100 };
    let g = unconstrain_with_padding(&p, &target);
    assert_eq!(g, Rect { x: 2, y: 0, w: 10, h: 10 });
}

#[test]
fn small_target_is_solved_directly_without_padding() {
    // Neither axis of the target is wider than twice the inset, so the
    // padded and plain solves are one and the same: the anchored geometry
    // is returned unchanged (no adjustments are permitted).
    let mut p = base_positioner();
    p.anchor_rect = Rect { x: 1, y: 2, w: 0, h: 0 };
    let target = Rect { x: 0, y: 0, w: 16, h: 16 };
    let g = unconstrain_with_padding(&p, &target);
    assert_eq!(g, Rect { x: 1, y: 2, w: 10, h: 10 });
}
