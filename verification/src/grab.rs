//! Popup input-grab arbitration: the ordered focus-consistency decision
//! table and the serial-freshness check.
//!
//! A grab is handed out only when the popup's resolved root agrees with the
//! compositor's current notion of focus, checked in a fixed priority order:
//! session lock, screenshot overlay, layer-shell surfaces of the active
//! output, then the layout engine's focused window. When
//! [`evaluate_grab_request`] proceeds, the caller asks the popup tracker
//! for a grab session (a refusal there denies silently: nothing was
//! installed, nothing is dismissed) and completes through the shell's grab
//! installation, where a request whose serial is stale for a device that is
//! already grabbed is still rejected — unless the existing grab chains
//! through the new session's previous serial.

use vstd::prelude::*;

verus! {

/// The stacking tier of a layer-shell surface.
#[derive(Clone, Copy, Debug, PartialEq, Eq, Structural)]
pub enum LayerTier {
    Background,
    Bottom,
    Top,
    Overlay,
}

/// What the active output's layer map and the layout engine say about the
/// grab request's root surface.
#[derive(Clone, Copy, Debug)]
pub struct OutputFocus {
    /// The tier of the layer surface the root belongs to, if it is one.
    pub root_layer: Option<LayerTier>,
    /// Some overlay-tier surface can currently take keyboard focus.
    pub overlay_focusable: bool,
    /// The active monitor renders above the top tier.
    pub render_above_top: bool,
    /// Some top-tier surface can currently take keyboard focus.
    pub top_focusable: bool,
    /// The surface of the layout engine's currently focused window.
    pub layout_focus: Option<u64>,
}

/// Everything a grab request's focus arbitration depends on.
#[derive(Clone, Copy, Debug)]
pub struct GrabEnv {
    /// The input-method subsystem holds a keyboard grab.
    pub ime_keyboard_grabbed: bool,
    /// The popup's transitive root surface, if it could be resolved.
    pub root: Option<u64>,
    /// The session is locked.
    pub locked: bool,
    /// The lock surface holding focus while locked.
    pub lock_focus: Option<u64>,
    /// A screenshot overlay is open.
    pub screenshot_open: bool,
    /// The active output's focus information, if there is an active output.
    pub output: Option<OutputFocus>,
}

/// The arbitration outcome. `Ignore` and `DenySilent` leave the popup
/// alone; `Dismiss` destroys it; `Proceed` goes on to take the grab.
#[derive(Clone, Copy, Debug, PartialEq, Eq, Structural)]
pub enum GrabDecision {
    /// Pretend the grab worked, without grabbing: an input-method grab is
    /// active and the two do not compose.
    Ignore,
    /// Deny without dismissing the popup.
    DenySilent,
    /// Deny and dismiss the popup rooted at `root`.
    Dismiss { root: u64 },
    /// The root is consistent with the current focus: take the grab.
    Proceed { root: u64 },
}

/// The ordered decision table of grab arbitration.
pub open spec fn spec_grab_decision(e: GrabEnv) -> GrabDecision {
    if e.ime_keyboard_grabbed {
        GrabDecision::Ignore
    } else if e.root is None {
        GrabDecision::DenySilent
    } else {
        let root = e.root->0;
        if e.locked {
            if e.lock_focus == Option::Some(root) {
                GrabDecision::Proceed { root }
            } else {
                GrabDecision::Dismiss { root }
            }
        } else if e.screenshot_open {
            GrabDecision::Dismiss { root }
        } else if e.output is Some {
            let o = e.output->0;
            match o.root_layer {
                Option::Some(tier) => if tier == LayerTier::Overlay || tier == LayerTier::Top {
                    GrabDecision::Proceed { root }
                } else {
                    GrabDecision::Dismiss { root }
                },
                Option::None => if o.overlay_focusable {
                    GrabDecision::Dismiss { root }
                } else if !o.render_above_top && o.top_focusable {
                    GrabDecision::Dismiss { root }
                } else if o.layout_focus == Option::Some(root) {
                    GrabDecision::Proceed { root }
                } else {
                    GrabDecision::Dismiss { root }
                },
            }
        } else {
            GrabDecision::Dismiss { root }
        }
    }
}

/// Arbitrates a popup grab request against the current focus state,
/// implementing [`spec_grab_decision`]'s priority order: input-method grab,
/// unresolvable root, session lock, screenshot overlay, layer-shell tiers,
/// layout focus, and no-output as the final denial.
pub fn evaluate_grab_request(env: &GrabEnv) -> (d: GrabDecision)
    ensures
        d == spec_grab_decision(*env),
{
    if env.ime_keyboard_grabbed {
        return GrabDecision::Ignore;
    }
    let root = match env.root {
        Some(r) => r,
        None => {
            return GrabDecision::DenySilent;
        },
    };
    if env.locked {
        let granted = match env.lock_focus {
            Some(l) => l == root,
            None => false,
        };
        if granted {
            GrabDecision::Proceed { root }
        } else {
            GrabDecision::Dismiss { root }
        }
    } else if env.screenshot_open {
        GrabDecision::Dismiss { root }
    } else if let Some(o) = env.output {
        match o.root_layer {
            Some(tier) => {
                if tier == LayerTier::Overlay || tier == LayerTier::Top {
                    GrabDecision::Proceed { root }
                } else {
                    GrabDecision::Dismiss { root }
                }
            },
            None => {
                if o.overlay_focusable {
                    GrabDecision::Dismiss { root }
                } else if !o.render_above_top && o.top_focusable {
                    GrabDecision::Dismiss { root }
                } else {
                    let focused = match o.layout_focus {
                        Some(f) => f == root,
                        None => false,
                    };
                    if focused {
                        GrabDecision::Proceed { root }
                    } else {
                        GrabDecision::Dismiss { root }
                    }
                }
            },
        }
    } else {
        GrabDecision::Dismiss { root }
    }
}

/// What one input device (keyboard or pointer) says about the request's
/// serial.
#[derive(Clone, Copy, Debug)]
pub struct DeviceGrabState {
    /// The device currently has an input grab.
    pub grabbed: bool,
    /// That grab was taken with the request's serial.
    pub holds_request_serial: bool,
    /// That grab was taken with the new session's previous serial.
    pub holds_previous_serial: bool,
}

/// A device accepts the new grab when it is not grabbed at all, or its grab
/// matches the request's serial, or the new session records no previous
/// serial, or its grab matches that previous serial (grab-to-grab
/// hand-off without a focus change in between).
pub open spec fn spec_device_accepts(prev_serial_exists: bool, d: DeviceGrabState) -> bool {
    !d.grabbed || d.holds_request_serial || !prev_serial_exists || d.holds_previous_serial
}

/// The request's serial is fresh enough for both devices, checked
/// independently per device.
pub open spec fn spec_serial_fresh(
    prev_serial_exists: bool,
    keyboard: DeviceGrabState,
    pointer: DeviceGrabState,
) -> bool {
    spec_device_accepts(prev_serial_exists, keyboard) && spec_device_accepts(
        prev_serial_exists,
        pointer,
    )
}

/// Validates the request's serial against both devices' existing grabs.
pub fn serial_fresh(
    prev_serial_exists: bool,
    keyboard: &DeviceGrabState,
    pointer: &DeviceGrabState,
) -> (r: bool)
    ensures
        r == spec_serial_fresh(prev_serial_exists, *keyboard, *pointer),
{
    let kbd_ok = !keyboard.grabbed || keyboard.holds_request_serial || !prev_serial_exists
        || keyboard.holds_previous_serial;
    let ptr_ok = !pointer.grabbed || pointer.holds_request_serial || !prev_serial_exists
        || pointer.holds_previous_serial;
    kbd_ok && ptr_ok
}

/// A grab request with a stale serial while the keyboard or the pointer is
/// already grabbed by a different, non-chained session is always rejected.
pub proof fn lemma_stale_serial_denied(
    prev_serial_exists: bool,
    keyboard: DeviceGrabState,
    pointer: DeviceGrabState,
)
    requires
        (keyboard.grabbed && !keyboard.holds_request_serial && prev_serial_exists
            && !keyboard.holds_previous_serial) || (pointer.grabbed
            && !pointer.holds_request_serial && prev_serial_exists
            && !pointer.holds_previous_serial),
    ensures
        !spec_serial_fresh(prev_serial_exists, keyboard, pointer),
{
}

} // verus!
