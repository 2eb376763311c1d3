//! The shell core's state: the unmapped-toplevel set, the tracked popups,
//! and the single process-wide popup-grab slot, with the request handlers
//! that mutate them.
//!
//! The layout engine, the seat and the output registry are outside
//! collaborators: handlers take their answers (a window lookup, a workspace
//! size, a resolved output) as plain arguments and return the actions the
//! caller must perform on them.

use vstd::prelude::*;

use crate::grab::{spec_serial_fresh, DeviceGrabState};
use crate::idmap::IdMap;
use crate::popup::PopupState;
use crate::rules::{
    resolve_window_rules, rules_view, spec_resolve, view_opt_str, ColumnWidth, WindowRule,
};
use crate::toplevel::{DecorationMode, ToplevelState};

verus! {

/// The single process-wide active popup grab: the resolved root surface and
/// the session handle of the grab installed on both devices.
#[derive(Clone, Copy, Debug, PartialEq, Eq, Structural)]
pub struct ActiveGrab {
    pub root: u64,
    pub session: u64,
}

/// The shell core's own state. Toplevels are keyed by their surface
/// identity; a toplevel lives here only while it is unmapped — once the
/// layout engine takes ownership it leaves this set.
pub struct Shell {
    pub unmapped: IdMap<ToplevelState>,
    pub popups: IdMap<PopupState>,
    pub popup_grab: Option<ActiveGrab>,
}

impl Shell {
    pub open spec fn wf(self) -> bool {
        &&& self.unmapped.wf()
        &&& self.popups.wf()
        &&& forall|i: int|
            0 <= i < self.popups@.len() ==> (#[trigger] self.popups@[i]).1.bounded()
    }

    pub fn new() -> (r: Shell)
        ensures
            r.wf(),
            r.unmapped@.len() == 0,
            r.popups@.len() == 0,
            r.popup_grab is None,
    {
        Shell { unmapped: IdMap::new(), popups: IdMap::new(), popup_grab: None }
    }

    /// A new toplevel surface: it enters the unmapped set. At the moment of
    /// creation a toplevel has no buffer, so an entry already present for
    /// the same surface is a defect; the caller must not ask for it.
    pub fn register_new_toplevel(&mut self, surface: u64, toplevel: ToplevelState)
        requires
            old(self).wf(),
            !old(self).unmapped.has(surface),
        ensures
            final(self).wf(),
            final(self).unmapped@ == old(self).unmapped@.push((surface, toplevel)),
            final(self).unmapped.get_spec(surface) == Option::Some(toplevel),
            forall|o: u64|
                o != surface ==> (#[trigger] final(self).unmapped.get_spec(o)) == old(self).unmapped.get_spec(o),
            final(self).popups == old(self).popups,
            final(self).popup_grab == old(self).popup_grab,
    {
        self.unmapped.insert(surface, toplevel);
    }
}

/// What the caller must do after a toplevel was destroyed.
#[derive(Clone, Copy, Debug, PartialEq, Eq, Structural)]
pub enum DestroyOutcome {
    /// The toplevel was still unmapped; it has been dropped and nothing
    /// else needs to happen.
    UnmappedRemoved,
    /// The toplevel was mapped: remove `window` from the layout engine and
    /// queue a redraw of `output`.
    RemoveFromLayout { window: u64, output: u64 },
    /// The toplevel was in neither set: an invariant violation, to be
    /// logged and otherwise ignored.
    MissingEverywhere,
}

/// What the caller must do to the layout engine after a fullscreen request.
#[derive(Clone, Copy, Debug, PartialEq, Eq, Structural)]
pub enum LayoutAction {
    /// Move `window` to `output`, then set it fullscreen.
    MoveToOutputAndFullscreen { window: u64, output: u64 },
    /// Set `window` fullscreen on its current output.
    SetFullscreen { window: u64 },
    /// The layout engine is not involved.
    NoLayoutChange,
}

/// The reply to a fullscreen request. `configure` is the protocol
/// obligation: it is owed whether or not the request was fulfilled.
#[derive(Clone, Copy, Debug, PartialEq, Eq, Structural)]
pub struct FullscreenReply {
    pub action: LayoutAction,
    pub configure: bool,
}

/// What the caller must do after an unfullscreen request.
pub enum UnfullscreenAction {
    /// The toplevel is mapped: clear fullscreen on `window` via the layout
    /// engine.
    ClearFullscreen { window: u64 },
    /// The toplevel is unmapped: pick the workspace (the named output's, or
    /// the active one), compute its new-window size for `default_width`,
    /// and hand it back through [`Shell::apply_unfullscreen_size`].
    NeedWorkspaceSize {
        open_on_output: Option<String>,
        default_width: Option<Option<ColumnWidth>>,
    },
    /// The surface is unknown; nothing to do.
    NoAction,
}

/// The payload of a toplevel's initial configure.
pub struct InitialConfigurePlan {
    /// The resolved output name whose workspace should size the window.
    pub open_on_output: Option<String>,
    /// The resolved default width to hand to that workspace.
    pub default_width: Option<Option<ColumnWidth>>,
    /// Whether the tiled-edge flags were set (the no-client-side-decoration
    /// policy).
    pub tiled: bool,
    /// The decoration mode this configure carries.
    pub decoration_mode: Option<DecorationMode>,
}

impl Shell {
    /// A toplevel surface was destroyed. An unmapped toplevel is simply
    /// dropped; a mapped one must be removed from the layout engine (whose
    /// lookup the caller passes in); one found in neither set is an
    /// invariant violation that is reported, not fatal.
    pub fn toplevel_destroyed(&mut self, surface: u64, layout_entry: Option<(u64, u64)>) -> (r:
        DestroyOutcome)
        requires
            old(self).wf(),
        ensures
            final(self).wf(),
            final(self).popups == old(self).popups,
            final(self).popup_grab == old(self).popup_grab,
            !final(self).unmapped.has(surface),
            forall|o: u64|
                o != surface ==> (#[trigger] final(self).unmapped.get_spec(o)) == old(self).unmapped.get_spec(o),
            old(self).unmapped.has(surface) ==> r == DestroyOutcome::UnmappedRemoved,
            !old(self).unmapped.has(surface) ==> final(self).unmapped@ == old(self).unmapped@
                && r == (match layout_entry {
                Option::Some((w, o)) => DestroyOutcome::RemoveFromLayout { window: w, output: o },
                Option::None => DestroyOutcome::MissingEverywhere,
            }),
    {
        if self.unmapped.remove(surface).is_some() {
            return DestroyOutcome::UnmappedRemoved;
        }
        match layout_entry {
            Some((w, o)) => DestroyOutcome::RemoveFromLayout { window: w, output: o },
            None => DestroyOutcome::MissingEverywhere,
        }
    }

    /// A fullscreen request. It is honored only when the toplevel
    /// advertises the fullscreen capability: a mapped toplevel is moved to
    /// the requested output (when given and different) and set fullscreen
    /// there; an unmapped one gets the active workspace's view size and the
    /// fullscreen flag on its pending state. Whatever happens, the reply
    /// carries the configure the protocol demands.
    pub fn fullscreen_request(
        &mut self,
        surface: u64,
        has_fullscreen_capability: bool,
        layout_entry: Option<(u64, u64)>,
        requested_output: Option<u64>,
        active_view_size: Option<(i32, i32)>,
    ) -> (r: FullscreenReply)
        requires
            old(self).wf(),
        ensures
            final(self).wf(),
            final(self).popups == old(self).popups,
            final(self).popup_grab == old(self).popup_grab,
            r.configure == true,
            !has_fullscreen_capability ==> final(self).unmapped@ == old(self).unmapped@
                && r.action == LayoutAction::NoLayoutChange,
            has_fullscreen_capability ==> (layout_entry matches Option::Some((w, out)) ==> final(self).unmapped@ == old(self).unmapped@ && r.action == (
            if requested_output is Some && requested_output->0 != out {
                LayoutAction::MoveToOutputAndFullscreen { window: w, output: requested_output->0 }
            } else {
                LayoutAction::SetFullscreen { window: w }
            })),
            has_fullscreen_capability && layout_entry is None ==> r.action
                == LayoutAction::NoLayoutChange,
            has_fullscreen_capability && layout_entry is None ==> (match (
                old(self).unmapped.get_spec(surface),
                active_view_size,
            ) {
                (Option::Some(t), Option::Some(vs)) => {
                    &&& final(self).unmapped.get_spec(surface) == Option::Some(
                        (ToplevelState {
                            pending_size: Option::Some(vs),
                            pending_fullscreen: true,
                            ..t
                        }),
                    )
                    &&& forall|o: u64|
                        o != surface ==> (#[trigger] final(self).unmapped.get_spec(o)) == old(self).unmapped.get_spec(o)
                },
                _ => final(self).unmapped@ == old(self).unmapped@,
            }),
    {
        if has_fullscreen_capability {
            match layout_entry {
                Some((w, _out)) => {
                    let action = match requested_output {
                        Some(ro) => {
                            if ro != _out {
                                LayoutAction::MoveToOutputAndFullscreen { window: w, output: ro }
                            } else {
                                LayoutAction::SetFullscreen { window: w }
                            }
                        },
                        None => LayoutAction::SetFullscreen { window: w },
                    };
                    return FullscreenReply { action, configure: true };
                },
                None => {
                    if let Some(vs) = active_view_size {
                        if let Some(mut t) = self.unmapped.remove(surface) {
                            t.pending_size = Some(vs);
                            t.pending_fullscreen = true;
                            self.unmapped.insert(surface, t);
                        }
                    }
                },
            }
        }
        FullscreenReply { action: LayoutAction::NoLayoutChange, configure: true }
    }

    /// An unfullscreen request. A mapped toplevel is cleared via the layout
    /// engine. For an unmapped one the window rules are re-resolved (it may
    /// not have an output assigned yet) and the caller is asked for the
    /// target workspace's new-window size; no configure is forced — the
    /// change rides on the next natural configure.
    pub fn unfullscreen_request(
        &self,
        surface: u64,
        layout_entry: Option<u64>,
        rules: &Vec<WindowRule>,
    ) -> (r: UnfullscreenAction)
        requires
            self.wf(),
        ensures
            match layout_entry {
                Option::Some(w) => r == (UnfullscreenAction::ClearFullscreen { window: w }),
                Option::None => match self.unmapped.get_spec(surface) {
                    Option::Some(t) => {
                        &&& r matches UnfullscreenAction::NeedWorkspaceSize {
                            open_on_output,
                            default_width,
                        }
                        &&& view_opt_str(open_on_output) == spec_resolve(
                            rules_view(rules@),
                            t.attrs@,
                        ).open_on_output
                        &&& default_width == spec_resolve(
                            rules_view(rules@),
                            t.attrs@,
                        ).default_width
                    },
                    Option::None => r is NoAction,
                },
            },
    {
        if let Some(w) = layout_entry {
            return UnfullscreenAction::ClearFullscreen { window: w };
        }
        match self.unmapped.get(surface) {
            Some(t) => {
                let resolved = resolve_window_rules(rules, &t.attrs);
                UnfullscreenAction::NeedWorkspaceSize {
                    open_on_output: resolved.open_on_output,
                    default_width: resolved.default_width,
                }
            },
            None => UnfullscreenAction::NoAction,
        }
    }

    /// Completes an unfullscreen request on an unmapped toplevel: the
    /// workspace's new-window size becomes the pending size and the pending
    /// fullscreen flag is cleared. Unknown surfaces (the toplevel may have
    /// raced with destruction) are ignored.
    pub fn apply_unfullscreen_size(&mut self, surface: u64, size_w: i32, size_h: i32)
        requires
            old(self).wf(),
        ensures
            final(self).wf(),
            final(self).popups == old(self).popups,
            final(self).popup_grab == old(self).popup_grab,
            forall|o: u64|
                o != surface ==> (#[trigger] final(self).unmapped.get_spec(o)) == old(self).unmapped.get_spec(o),
            match old(self).unmapped.get_spec(surface) {
                Option::Some(t) => final(self).unmapped.get_spec(surface) == Option::Some(
                    (ToplevelState {
                        pending_size: Option::Some((size_w, size_h)),
                        pending_fullscreen: false,
                        ..t
                    }),
                ),
                Option::None => final(self).unmapped@ == old(self).unmapped@,
            },
    {
        if let Some(mut t) = self.unmapped.remove(surface) {
            t.pending_size = Some((size_w, size_h));
            t.pending_fullscreen = false;
            self.unmapped.insert(surface, t);
        }
    }

    /// Plans a toplevel's initial configure, idempotently: `None` when the
    /// surface is unknown or its initial configure was already sent.
    /// Otherwise the window rules are resolved against the toplevel's
    /// attributes, the tiled-edge flags are set when the compositor prefers
    /// no client-side decorations (so the client can assume tiled visuals),
    /// the toplevel is marked configured, and the returned plan carries what
    /// the chosen workspace and the configure need: the resolved output
    /// name, the resolved default width, and the pending decoration mode.
    pub fn send_initial_configure_if_needed(
        &mut self,
        surface: u64,
        rules: &Vec<WindowRule>,
        prefer_no_csd: bool,
    ) -> (r: Option<InitialConfigurePlan>)
        requires
            old(self).wf(),
        ensures
            final(self).wf(),
            final(self).popups == old(self).popups,
            final(self).popup_grab == old(self).popup_grab,
            forall|o: u64|
                o != surface ==> (#[trigger] final(self).unmapped.get_spec(o)) == old(self).unmapped.get_spec(o),
            match old(self).unmapped.get_spec(surface) {
                Option::None => r is None && final(self).unmapped@ == old(self).unmapped@,
                Option::Some(t) => {
                    if t.initial_configure_sent {
                        r is None && final(self).unmapped@ == old(self).unmapped@
                    } else {
                        &&& r matches Option::Some(plan)
                        &&& view_opt_str(plan.open_on_output) == spec_resolve(
                            rules_view(rules@),
                            t.attrs@,
                        ).open_on_output
                        &&& plan.default_width == spec_resolve(
                            rules_view(rules@),
                            t.attrs@,
                        ).default_width
                        &&& plan.tiled == prefer_no_csd
                        &&& plan.decoration_mode == t.pending_decoration
                        &&& final(self).unmapped.get_spec(surface) == Option::Some(
                            (ToplevelState {
                                tiled_left: prefer_no_csd || t.tiled_left,
                                tiled_right: prefer_no_csd || t.tiled_right,
                                tiled_top: prefer_no_csd || t.tiled_top,
                                tiled_bottom: prefer_no_csd || t.tiled_bottom,
                                initial_configure_sent: true,
                                ..t
                            }),
                        )
                    }
                },
            },
    {
        match self.unmapped.get(surface) {
            Some(t0) => {
                if t0.initial_configure_sent {
                    return None;
                }
            },
            None => {
                return None;
            },
        }
        match self.unmapped.remove(surface) {
            Some(mut t) => {
                let resolved = resolve_window_rules(rules, &t.attrs);
                if prefer_no_csd {
                    t.tiled_left = true;
                    t.tiled_right = true;
                    t.tiled_top = true;
                    t.tiled_bottom = true;
                }
                let decoration_mode = t.pending_decoration;
                t.initial_configure_sent = true;
                self.unmapped.insert(surface, t);
                Some(
                    InitialConfigurePlan {
                        open_on_output: resolved.open_on_output,
                        default_width: resolved.default_width,
                        tiled: prefer_no_csd,
                        decoration_mode,
                    },
                )
            },
            None => None,
        }
    }

    /// Completes a granted grab request once the popup tracker has handed
    /// out a session: a stale serial (for either device) rejects the
    /// session — the caller must release it entirely — and leaves the grab
    /// slot untouched; a fresh one installs the session as the single
    /// process-wide popup grab, replacing any previous one.
    pub fn finish_grab(
        &mut self,
        root: u64,
        session: u64,
        prev_serial_exists: bool,
        keyboard: &DeviceGrabState,
        pointer: &DeviceGrabState,
    ) -> (installed: bool)
        requires
            old(self).wf(),
        ensures
            final(self).wf(),
            final(self).unmapped == old(self).unmapped,
            final(self).popups == old(self).popups,
            installed == spec_serial_fresh(prev_serial_exists, *keyboard, *pointer),
            installed ==> final(self).popup_grab == Option::Some(ActiveGrab { root, session }),
            !installed ==> final(self).popup_grab == old(self).popup_grab,
    {
        if crate::grab::serial_fresh(prev_serial_exists, keyboard, pointer) {
            self.popup_grab = Some(ActiveGrab { root, session });
            true
        } else {
            false
        }
    }
}

/// The ownership model behind the lifecycle invariant: every toplevel the
/// core knows of is owned either by the unmapped set or by the layout
/// engine, never by both.
pub ghost struct OwnershipModel {
    pub unmapped: Set<u64>,
    pub mapped: Set<u64>,
}

pub open spec fn ownership_disjoint(m: OwnershipModel) -> bool {
    forall|id: u64| !(m.unmapped.contains(id) && m.mapped.contains(id))
}

/// Registration: a freshly created toplevel enters the unmapped set. It has
/// no buffer yet, so the layout engine cannot own it.
pub open spec fn spec_register(m: OwnershipModel, id: u64) -> OwnershipModel {
    OwnershipModel { unmapped: m.unmapped.insert(id), mapped: m.mapped }
}

/// Mapping: the layout engine takes ownership, and the toplevel leaves the
/// unmapped set in the same step.
pub open spec fn spec_map_window(m: OwnershipModel, id: u64) -> OwnershipModel {
    OwnershipModel { unmapped: m.unmapped.remove(id), mapped: m.mapped.insert(id) }
}

/// Destruction: the toplevel leaves whichever set owned it.
pub open spec fn spec_destroy(m: OwnershipModel, id: u64) -> OwnershipModel {
    OwnershipModel { unmapped: m.unmapped.remove(id), mapped: m.mapped.remove(id) }
}

/// A toplevel in the unmapped set is never simultaneously findable via the
/// layout engine, at any point between registration and destruction: every
/// lifecycle transition preserves the disjointness of the two sets.
pub proof fn lemma_ownership_disjoint_preserved(m: OwnershipModel, id: u64)
    requires
        ownership_disjoint(m),
        !m.mapped.contains(id),
    ensures
        ownership_disjoint(spec_register(m, id)),
        ownership_disjoint(spec_map_window(m, id)),
        ownership_disjoint(spec_destroy(m, id)),
{
}

/// Mapping and destruction preserve disjointness for any toplevel, owned or
/// not.
pub proof fn lemma_ownership_transitions_preserve(m: OwnershipModel, id: u64)
    requires
        ownership_disjoint(m),
    ensures
        ownership_disjoint(spec_map_window(m, id)),
        ownership_disjoint(spec_destroy(m, id)),
{
}

} // verus!
