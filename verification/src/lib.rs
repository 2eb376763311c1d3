//! Surface-management core of a tiling compositor: window-rule resolution,
//! popup geometry constraint solving, toplevel lifecycle bookkeeping,
//! decoration-mode negotiation, fullscreen transitions, and popup input-grab
//! arbitration. Protocol plumbing (the wire objects, the seat, the layout
//! engine) stays outside; this crate holds the decisions and the state they
//! act on, each with a verified contract.

pub mod geometry;
pub mod idmap;
pub mod positioner;
pub mod rules;
pub mod popup;
pub mod shell;
pub mod toplevel;
pub mod grab;
