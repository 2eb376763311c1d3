//! Tracked popups: their pending geometry, the targets they are
//! unconstrained against, repositioning, commit bookkeeping, and reactive
//! re-positioning when the owning window moves.
//!
//! A popup's target is expressed relative to its parent's geometry. For a
//! popup rooted at a window the target is kept within the window
//! horizontally (the window can be scrolled to either screen edge) but
//! spans the whole output vertically; for a layer-shell popup it is the
//! whole output. The transitive root and the accumulated offset of the
//! parent chain come from the surface-relationship index outside this
//! crate.

use vstd::prelude::*;

use crate::geometry::{Rect, RectI, MAX_COORD};
use crate::positioner::{
    positioner_bounded, spec_initial_geometry, spec_unconstrain_with_padding,
    unconstrain_with_padding, initial_geometry, Positioner,
};
use crate::shell::Shell;

verus! {

/// Half of [`MAX_COORD`]: the bound on offsets that are summed in target
/// computations.
pub const HALF_COORD: i32 = 500000;

/// The state of one tracked popup surface.
#[derive(Clone, Copy, Debug)]
pub struct PopupState {
    /// The client-supplied positioner in effect.
    pub positioner: Positioner,
    /// The pending geometry, relative to the parent's geometry.
    pub pending_geometry: Rect,
    /// The resolved transitive root surface, if any.
    pub root: Option<u64>,
    /// Accumulated offset of the parent chain above this popup, relative to
    /// the root's geometry.
    pub offset_x: i32,
    pub offset_y: i32,
    /// Whether the initial configure has been sent for this popup.
    pub initial_configure_sent: bool,
}

impl PopupState {
    pub open spec fn bounded(self) -> bool {
        &&& positioner_bounded(self.positioner@)
        &&& -HALF_COORD <= self.offset_x <= HALF_COORD
        &&& -HALF_COORD <= self.offset_y <= HALF_COORD
    }
}

/// Where a popup's resolved root lives, with what the target computation
/// needs from the layout engine and the output registry.
#[derive(Clone, Copy, Debug)]
pub enum RootPlacement {
    /// The root is a window of the layout engine.
    Window { window_geo_w: i32, output_geo_h: i32, window_y: i32 },
    /// The root is a layer-shell surface of some output; `layer_geo` is its
    /// placement in the layer map, if it has one.
    LayerSurface { output_w: i32, output_h: i32, layer_geo: Option<(i32, i32)> },
}

pub open spec fn placement_bounded(p: RootPlacement) -> bool {
    match p {
        RootPlacement::Window { window_geo_w, output_geo_h, window_y } => {
            &&& 0 <= window_geo_w <= MAX_COORD
            &&& 0 <= output_geo_h <= MAX_COORD
            &&& -HALF_COORD <= window_y <= HALF_COORD
        },
        RootPlacement::LayerSurface { output_w, output_h, layer_geo } => {
            &&& 0 <= output_w <= MAX_COORD
            &&& 0 <= output_h <= MAX_COORD
            &&& (layer_geo matches Option::Some((lx, ly)) ==> -HALF_COORD <= lx <= HALF_COORD
                && -HALF_COORD <= ly <= HALF_COORD)
        },
    }
}

/// The target for a window-rooted popup: the window's width, the output's
/// height, shifted by the window's vertical offset on the output and by the
/// popup chain's offset.
pub open spec fn spec_window_target(
    offset_x: int,
    offset_y: int,
    window_geo_w: int,
    output_geo_h: int,
    window_y: int,
) -> RectI {
    RectI { x: 0 - offset_x, y: 0 - window_y - offset_y, w: window_geo_w, h: output_geo_h }
}

/// The target for a layer-shell popup: the whole output, shifted by the
/// layer surface's placement and by the popup chain's offset.
pub open spec fn spec_layer_target(
    offset_x: int,
    offset_y: int,
    layer_x: int,
    layer_y: int,
    output_w: int,
    output_h: int,
) -> RectI {
    RectI { x: 0 - layer_x - offset_x, y: 0 - layer_y - offset_y, w: output_w, h: output_h }
}

/// The unique `Rect` whose view is `r`, for views of actual rectangles.
pub open spec fn spec_rect_of(r: RectI) -> Rect {
    Rect { x: r.x as i32, y: r.y as i32, w: r.w as i32, h: r.h as i32 }
}

/// A popup after solving against its root's placement: only the pending
/// geometry changes; with no placement (an unresolved root) the popup is
/// left as it is.
pub open spec fn spec_unconstrained_popup(p: PopupState, placement: Option<RootPlacement>)
    -> PopupState {
    match placement {
        Option::None => p,
        Option::Some(RootPlacement::Window { window_geo_w, output_geo_h, window_y }) => PopupState {
            pending_geometry: spec_rect_of(
                spec_unconstrain_with_padding(
                    p.positioner@,
                    spec_window_target(
                        p.offset_x as int,
                        p.offset_y as int,
                        window_geo_w as int,
                        output_geo_h as int,
                        window_y as int,
                    ),
                ),
            ),
            ..p
        },
        Option::Some(RootPlacement::LayerSurface { output_w, output_h, layer_geo }) => match layer_geo {
            Option::None => p,
            Option::Some((lx, ly)) => PopupState {
                pending_geometry: spec_rect_of(
                    spec_unconstrain_with_padding(
                        p.positioner@,
                        spec_layer_target(
                            p.offset_x as int,
                            p.offset_y as int,
                            lx as int,
                            ly as int,
                            output_w as int,
                            output_h as int,
                        ),
                    ),
                ),
                ..p
            },
        },
    }
}

/// Solves a window-rooted popup against its window's placement and stores
/// the geometry.
pub fn unconstrain_window_popup(
    popup: &mut PopupState,
    window_geo_w: i32,
    output_geo_h: i32,
    window_y: i32,
)
    requires
        old(popup).bounded(),
        0 <= window_geo_w <= MAX_COORD,
        0 <= output_geo_h <= MAX_COORD,
        -HALF_COORD <= window_y <= HALF_COORD,
    ensures
        *final(popup) == spec_unconstrained_popup(
            *old(popup),
            Option::Some(RootPlacement::Window { window_geo_w, output_geo_h, window_y }),
        ),
        final(popup).bounded(),
{
    let target = Rect {
        x: 0 - popup.offset_x,
        y: 0 - window_y - popup.offset_y,
        w: window_geo_w,
        h: output_geo_h,
    };
    popup.pending_geometry = unconstrain_with_padding(&popup.positioner, &target);
}

/// Solves a layer-shell popup against its output; a layer surface without a
/// geometry in the layer map leaves the popup untouched.
pub fn unconstrain_layer_shell_popup(
    popup: &mut PopupState,
    output_w: i32,
    output_h: i32,
    layer_geo: Option<(i32, i32)>,
)
    requires
        old(popup).bounded(),
        0 <= output_w <= MAX_COORD,
        0 <= output_h <= MAX_COORD,
        layer_geo matches Option::Some((lx, ly)) ==> -HALF_COORD <= lx <= HALF_COORD
            && -HALF_COORD <= ly <= HALF_COORD,
    ensures
        *final(popup) == spec_unconstrained_popup(
            *old(popup),
            Option::Some(RootPlacement::LayerSurface { output_w, output_h, layer_geo }),
        ),
        final(popup).bounded(),
{
    let (lx, ly) = match layer_geo {
        Some(g) => g,
        None => {
            return ;
        },
    };
    let target = Rect {
        x: 0 - lx - popup.offset_x,
        y: 0 - ly - popup.offset_y,
        w: output_w,
        h: output_h,
    };
    popup.pending_geometry = unconstrain_with_padding(&popup.positioner, &target);
}

/// Solves a popup against wherever its root was found; a popup whose root
/// could not be resolved is left for its own protocol handler.
pub fn unconstrain_popup(popup: &mut PopupState, placement: Option<RootPlacement>)
    requires
        old(popup).bounded(),
        placement matches Option::Some(p) ==> placement_bounded(p),
    ensures
        *final(popup) == spec_unconstrained_popup(*old(popup), placement),
        final(popup).bounded(),
{
    match placement {
        None => {},
        Some(RootPlacement::Window { window_geo_w, output_geo_h, window_y }) => {
            unconstrain_window_popup(popup, window_geo_w, output_geo_h, window_y);
        },
        Some(RootPlacement::LayerSurface { output_w, output_h, layer_geo }) => {
            unconstrain_layer_shell_popup(popup, output_w, output_h, layer_geo);
        },
    }
}

/// Whether this popup must be re-positioned when the window it is rooted at
/// moves or resizes.
pub open spec fn spec_reactive_for(p: PopupState, window: u64) -> bool {
    p.root == Option::Some(window) && p.positioner.reactive
}

/// Some entry among the first `bound` of `s` holds key `id` and is a
/// reactive popup rooted at `window`.
pub open spec fn spec_reactive_source(
    s: Seq<(u64, PopupState)>,
    bound: int,
    window: u64,
    id: u64,
) -> bool {
    exists|k: int| 0 <= k < bound && (#[trigger] s[k]).0 == id && spec_reactive_for(s[k].1, window)
}

proof fn lemma_reactive_source_widen(
    s: Seq<(u64, PopupState)>,
    b1: int,
    b2: int,
    window: u64,
    id: u64,
)
    requires
        spec_reactive_source(s, b1, window, id),
        b1 <= b2,
    ensures
        spec_reactive_source(s, b2, window, id),
{
    let k = choose|k: int|
        0 <= k < b1 && (#[trigger] s[k]).0 == id && spec_reactive_for(s[k].1, window);
    assert(0 <= k < b2 && s[k].0 == id && spec_reactive_for(s[k].1, window));
}

/// What a popup commit requires of the caller.
#[derive(Clone, Copy, Debug, PartialEq, Eq, Structural)]
pub enum CommitAction {
    NothingToDo,
    /// Send the popup's initial configure; push the output's scale and
    /// transform to the surface first when an output could be resolved.
    SendInitialConfigure { push_scale_transform: bool },
}

impl Shell {
    /// Tracks a new popup, its geometry solved against its root's
    /// placement. Creation is unique per surface.
    pub fn new_popup(&mut self, surface: u64, popup: PopupState, placement: Option<RootPlacement>)
        requires
            old(self).wf(),
            !old(self).popups.has(surface),
            popup.bounded(),
            placement matches Option::Some(p) ==> placement_bounded(p),
        ensures
            final(self).wf(),
            final(self).unmapped == old(self).unmapped,
            final(self).popup_grab == old(self).popup_grab,
            final(self).popups@ == old(self).popups@.push(
                (surface, spec_unconstrained_popup(popup, placement)),
            ),
            final(self).popups.get_spec(surface) == Option::Some(
                spec_unconstrained_popup(popup, placement),
            ),
            forall|o: u64|
                o != surface ==> (#[trigger] final(self).popups.get_spec(o)) == old(self).popups.get_spec(o),
    {
        let mut p = popup;
        unconstrain_popup(&mut p, placement);
        self.popups.insert(surface, p);
        proof {
            assert forall|i: int| 0 <= i < self.popups@.len() implies (#[trigger] self.popups@[i])
                .1.bounded() by {
                if i < old(self).popups@.len() {
                    assert(self.popups@[i] == old(self).popups@[i]);
                } else {
                    assert(self.popups@[i].1 == spec_unconstrained_popup(popup, placement));
                }
            }
        }
    }

    /// A reposition request: the popup takes the new positioner, its
    /// geometry starts from the positioner's anchored geometry and is then
    /// solved against the root's placement. The caller owes the client a
    /// repositioned event exactly when the popup is known.
    pub fn reposition_request(
        &mut self,
        surface: u64,
        positioner: Positioner,
        placement: Option<RootPlacement>,
    ) -> (repositioned: bool)
        requires
            old(self).wf(),
            positioner_bounded(positioner@),
            placement matches Option::Some(p) ==> placement_bounded(p),
        ensures
            final(self).wf(),
            final(self).unmapped == old(self).unmapped,
            final(self).popup_grab == old(self).popup_grab,
            repositioned == old(self).popups.has(surface),
            forall|o: u64|
                o != surface ==> (#[trigger] final(self).popups.get_spec(o)) == old(self).popups.get_spec(o),
            match old(self).popups.get_spec(surface) {
                Option::Some(p) => final(self).popups.get_spec(surface) == Option::Some(
                    spec_unconstrained_popup(
                        (PopupState {
                            positioner,
                            pending_geometry: spec_rect_of(spec_initial_geometry(positioner@)),
                            ..p
                        }),
                        placement,
                    ),
                ),
                Option::None => final(self).popups@ == old(self).popups@,
            },
    {
        let p0 = match self.popups.get(surface) {
            Some(p) => *p,
            None => {
                return false;
            },
        };
        let mut p = p0;
        p.positioner = positioner;
        p.pending_geometry = initial_geometry(&positioner);
        unconstrain_popup(&mut p, placement);
        self.popups.set_value(surface, p);
        proof {
            let ghost s = old(self).popups@;
            let ghost i = crate::idmap::spec_at(s, surface);
            assert forall|k: int| 0 <= k < self.popups@.len() implies (#[trigger] self.popups@[k])
                .1.bounded() by {
                if k != i {
                    assert(self.popups@[k] == s[k]);
                }
            }
        }
        true
    }

    /// A popup was destroyed: it leaves the tracker, and whichever output
    /// its root resolves to needs a redraw — the returned root is what the
    /// caller resolves.
    pub fn popup_destroyed(&mut self, surface: u64) -> (root: Option<u64>)
        requires
            old(self).wf(),
        ensures
            final(self).wf(),
            final(self).unmapped == old(self).unmapped,
            final(self).popup_grab == old(self).popup_grab,
            !final(self).popups.has(surface),
            forall|o: u64|
                o != surface ==> (#[trigger] final(self).popups.get_spec(o)) == old(self).popups.get_spec(o),
            root == (match old(self).popups.get_spec(surface) {
                Option::Some(p) => p.root,
                Option::None => Option::None,
            }),
    {
        let r = match self.popups.remove(surface) {
            Some(p) => p.root,
            None => None,
        };
        proof {
            let ghost s = old(self).popups@;
            assert forall|k: int| 0 <= k < self.popups@.len() implies (#[trigger] self.popups@[k])
                .1.bounded() by {
                if old(self).popups.has(surface) {
                    let i = crate::idmap::spec_at(s, surface);
                    s.remove_ensures(i);
                    let k2 = if k < i { k } else { k + 1 };
                    assert(self.popups@[k] == s[k2]);
                } else {
                    assert(self.popups@[k] == s[k]);
                }
            }
        }
        r
    }

    /// A commit on a popup surface: the first commit owes the client the
    /// initial configure, exactly once, preceded by the output's scale and
    /// transform when an output is resolvable.
    pub fn popups_handle_commit(&mut self, surface: u64, output_present: bool) -> (r: CommitAction)
        requires
            old(self).wf(),
        ensures
            final(self).wf(),
            final(self).unmapped == old(self).unmapped,
            final(self).popup_grab == old(self).popup_grab,
            forall|o: u64|
                o != surface ==> (#[trigger] final(self).popups.get_spec(o)) == old(self).popups.get_spec(o),
            match old(self).popups.get_spec(surface) {
                Option::None => r == CommitAction::NothingToDo && final(self).popups@ == old(self).popups@,
                Option::Some(p) => if p.initial_configure_sent {
                    r == CommitAction::NothingToDo && final(self).popups@ == old(self).popups@
                } else {
                    &&& r == (CommitAction::SendInitialConfigure {
                        push_scale_transform: output_present,
                    })
                    &&& final(self).popups.get_spec(surface) == Option::Some(
                        (PopupState { initial_configure_sent: true, ..p }),
                    )
                },
            },
    {
        let p0 = match self.popups.get(surface) {
            Some(p) => *p,
            None => {
                return CommitAction::NothingToDo;
            },
        };
        if p0.initial_configure_sent {
            return CommitAction::NothingToDo;
        }
        let mut p = p0;
        p.initial_configure_sent = true;
        self.popups.set_value(surface, p);
        proof {
            let ghost s = old(self).popups@;
            let ghost i = crate::idmap::spec_at(s, surface);
            assert forall|k: int| 0 <= k < self.popups@.len() implies (#[trigger] self.popups@[k])
                .1.bounded() by {
                if k != i {
                    assert(self.popups@[k] == s[k]);
                }
            }
        }
        CommitAction::SendInitialConfigure { push_scale_transform: output_present }
    }

    /// The window moved or resized: every tracked popup rooted at it whose
    /// positioner is reactive is solved again against the window's new
    /// placement. Returns the surfaces whose follow-up configure the caller
    /// must attempt (failure there is logged, not fatal: the popup may be
    /// racing with destruction).
    pub fn update_reactive_popups(
        &mut self,
        window: u64,
        window_geo_w: i32,
        output_geo_h: i32,
        window_y: i32,
    ) -> (to_configure: Vec<u64>)
        requires
            old(self).wf(),
            0 <= window_geo_w <= MAX_COORD,
            0 <= output_geo_h <= MAX_COORD,
            -HALF_COORD <= window_y <= HALF_COORD,
        ensures
            final(self).wf(),
            final(self).unmapped == old(self).unmapped,
            final(self).popup_grab == old(self).popup_grab,
            final(self).popups@.len() == old(self).popups@.len(),
            forall|i: int|
                0 <= i < old(self).popups@.len() ==> (#[trigger] final(self).popups@[i]).0 == old(self).popups@[i].0,
            forall|i: int|
                0 <= i < old(self).popups@.len() ==> (#[trigger] final(self).popups@[i]).1 == (
                if spec_reactive_for(old(self).popups@[i].1, window) {
                    spec_unconstrained_popup(
                        old(self).popups@[i].1,
                        Option::Some(
                            RootPlacement::Window { window_geo_w, output_geo_h, window_y },
                        ),
                    )
                } else {
                    old(self).popups@[i].1
                }),
            forall|j: int|
                0 <= j < to_configure@.len() ==> spec_reactive_source(
                    old(self).popups@,
                    old(self).popups@.len() as int,
                    window,
                    #[trigger] to_configure@[j],
                ),
            forall|i: int|
                0 <= i < old(self).popups@.len() && spec_reactive_for(
                    (#[trigger] old(self).popups@[i]).1,
                    window,
                ) ==> to_configure@.contains(old(self).popups@[i].0),
    {
        let ghost s = old(self).popups@;
        let mut out: Vec<u64> = Vec::new();
        let n = self.popups.len();
        let mut i: usize = 0;
        while i < n
            invariant
                0 <= i <= n,
                n == s.len(),
                self.popups@.len() == s.len(),
                self.popups.wf(),
                self.unmapped == old(self).unmapped,
                self.popup_grab == old(self).popup_grab,
                old(self).wf(),
                0 <= window_geo_w <= MAX_COORD,
                0 <= output_geo_h <= MAX_COORD,
                -HALF_COORD <= window_y <= HALF_COORD,
                forall|k: int| 0 <= k < s.len() ==> (#[trigger] self.popups@[k]).0 == s[k].0,
                forall|k: int| 0 <= k < s.len() ==> (#[trigger] self.popups@[k]).1.bounded(),
                forall|k: int| i <= k < s.len() ==> (#[trigger] self.popups@[k]).1 == s[k].1,
                forall|k: int|
                    0 <= k < i ==> (#[trigger] self.popups@[k]).1 == (if spec_reactive_for(
                        s[k].1,
                        window,
                    ) {
                        spec_unconstrained_popup(
                            s[k].1,
                            Option::Some(
                                RootPlacement::Window { window_geo_w, output_geo_h, window_y },
                            ),
                        )
                    } else {
                        s[k].1
                    }),
                forall|j: int|
                    0 <= j < out@.len() ==> spec_reactive_source(
                        s,
                        i as int,
                        window,
                        #[trigger] out@[j],
                    ),
                forall|k: int|
                    0 <= k < i && spec_reactive_for((#[trigger] s[k]).1, window)
                        ==> out@.contains(s[k].0),
            decreases n - i,
        {
            let (id, pref) = self.popups.entry_at(i);
            let p = *pref;
            let rooted = match p.root {
                Some(r) => r == window,
                None => false,
            };
            if rooted && p.positioner.reactive {
                let mut q = p;
                unconstrain_window_popup(&mut q, window_geo_w, output_geo_h, window_y);
                self.popups.set_at(i, q);
                let ghost out_before = out@;
                out.push(id);
                proof {
                    assert(spec_reactive_for(s[i as int].1, window));
                    assert(out@ == out_before.push(id));
                    assert forall|k: int|
                        0 <= k < i + 1 && spec_reactive_for((#[trigger] s[k]).1, window)
                    implies out@.contains(s[k].0) by {
                        if k < i {
                            assert(out_before.contains(s[k].0));
                            let w = choose|j: int|
                                0 <= j < out_before.len() && out_before[j] == s[k].0;
                            assert(out@[w] == s[k].0);
                        } else {
                            assert(out@[out@.len() - 1] == s[k].0);
                        }
                    }
                    assert forall|j: int| 0 <= j < out@.len() implies spec_reactive_source(
                        s,
                        i as int + 1,
                        window,
                        #[trigger] out@[j],
                    ) by {
                        if j < out_before.len() {
                            assert(out@[j] == out_before[j]);
                            assert(spec_reactive_source(s, i as int, window, out_before[j]));
                            lemma_reactive_source_widen(s, i as int, i as int + 1, window, out@[j]);
                        } else {
                            assert(out@[j] == id);
                            assert(s[i as int].0 == id && spec_reactive_for(s[i as int].1, window));
                            assert(spec_reactive_source(s, i as int + 1, window, id));
                        }
                    }
                }
            }
            i = i + 1;
        }
        out
    }
}

} // verus!
