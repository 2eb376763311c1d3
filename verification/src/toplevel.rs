//! Per-toplevel pending state and decoration-mode negotiation.
//!
//! A toplevel's protocol state is double-buffered: request handlers mutate
//! the pending record here, and it reaches the client only with a configure.
//! Decoration negotiation honors the client's requested mode unconditionally
//! (forcing a mode is known to break clients that hide their window when the
//! mode surprises them); the compositor's own default is server-side.

use vstd::prelude::*;

use crate::rules::WindowAttributes;

verus! {

/// Who draws the window decorations.
#[derive(Clone, Copy, Debug, PartialEq, Eq, Structural)]
pub enum DecorationMode {
    ClientSide,
    ServerSide,
}

/// The pending, double-buffered state of a toplevel surface, together with
/// the role attributes used for window-rule resolution.
pub struct ToplevelState {
    /// Role attributes (app id, title) as currently set by the client.
    pub attrs: WindowAttributes,
    /// Pending size, if any has been chosen.
    pub pending_size: Option<(i32, i32)>,
    /// Pending fullscreen state flag.
    pub pending_fullscreen: bool,
    /// Pending decoration mode; unset until negotiation starts.
    pub pending_decoration: Option<DecorationMode>,
    /// Pending tiled-edge flags.
    pub tiled_left: bool,
    pub tiled_right: bool,
    pub tiled_top: bool,
    pub tiled_bottom: bool,
    /// Whether the initial configure has been sent for this toplevel.
    pub initial_configure_sent: bool,
}

impl ToplevelState {
    /// A freshly created toplevel: nothing pending, nothing sent.
    pub fn new(attrs: WindowAttributes) -> (r: ToplevelState)
        ensures
            r == (ToplevelState {
                attrs,
                pending_size: Option::None,
                pending_fullscreen: false,
                pending_decoration: Option::None,
                tiled_left: false,
                tiled_right: false,
                tiled_top: false,
                tiled_bottom: false,
                initial_configure_sent: false,
            }),
    {
        ToplevelState {
            attrs,
            pending_size: None,
            pending_fullscreen: false,
            pending_decoration: None,
            tiled_left: false,
            tiled_right: false,
            tiled_top: false,
            tiled_bottom: false,
            initial_configure_sent: false,
        }
    }
}

/// Whether the initial configure has been sent for this toplevel.
pub fn initial_configure_sent(toplevel: &ToplevelState) -> (r: bool)
    ensures
        r == toplevel.initial_configure_sent,
{
    toplevel.initial_configure_sent
}

/// First decoration-capability negotiation for a toplevel: the pending mode
/// becomes the compositor default, server-side.
pub fn new_decoration(toplevel: &mut ToplevelState)
    ensures
        *final(toplevel) == (ToplevelState {
            pending_decoration: Option::Some(DecorationMode::ServerSide),
            ..*old(toplevel)
        }),
{
    toplevel.pending_decoration = Some(DecorationMode::ServerSide);
}

/// An explicit client request for a decoration mode: the pending mode
/// becomes the requested one, unconditionally. The protocol owes the client
/// a configure in reply; it is due now exactly when the initial configure
/// has already been sent — before that, the new mode rides along with the
/// pending initial configure instead.
pub fn request_mode(toplevel: &mut ToplevelState, mode: DecorationMode) -> (send_configure_now:
    bool)
    ensures
        *final(toplevel) == (ToplevelState {
            pending_decoration: Option::Some(mode),
            ..*old(toplevel)
        }),
        send_configure_now == old(toplevel).initial_configure_sent,
{
    toplevel.pending_decoration = Some(mode);
    toplevel.initial_configure_sent
}

/// The client unsets its mode preference: the pending mode reverts to the
/// compositor default, with the same configure-now-or-defer rule as an
/// explicit request.
pub fn unset_mode(toplevel: &mut ToplevelState) -> (send_configure_now: bool)
    ensures
        *final(toplevel) == (ToplevelState {
            pending_decoration: Option::Some(DecorationMode::ServerSide),
            ..*old(toplevel)
        }),
        send_configure_now == old(toplevel).initial_configure_sent,
{
    toplevel.pending_decoration = Some(DecorationMode::ServerSide);
    toplevel.initial_configure_sent
}

} // verus!
