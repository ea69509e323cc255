//! The engine's window-event vocabulary, as consumed by the session
//! controller and produced by the input translator or the startup sequence.

use vstd::prelude::*;

use crate::geometry::FramebufferSize;
use crate::geometry::MilliPoint;
use crate::geometry::MilliVec;
use crate::geometry::PixelPoint;

verus! {

/// Identifier of a browsing context inside the engine. The engine assigns
/// it asynchronously in reply to `NewView`; exactly one view is ever
/// created, and its identifier is immutable thereafter. The unverified
/// shell pairs this value with the engine's own opaque handle.
#[derive(Clone, Copy, Debug, PartialEq, Eq, Hash, Structural)]
pub struct ViewId {
    pub raw: u64,
}

/// The discrete scroll direction a toolkit scroll callback reports.
/// `Smooth` marks a continuous scroll source with no discrete direction;
/// `Other` stands for any direction kind the toolkit may add beyond these,
/// which the translator treats exactly like `Smooth`.
#[derive(Clone, Copy, Debug, PartialEq, Eq, Structural)]
pub enum ScrollDirection {
    Up,
    Down,
    Left,
    Right,
    Smooth,
    Other,
}

/// The touch phase the engine expects alongside a scroll delta. Only the
/// three phases the translator can produce appear here: `Down` and `Up`
/// for the two supported vertical directions, and `Cancel` as the explicit
/// "unhandled" phase for the left/right directions, whose mapping is a
/// documented gap rather than a guess.
#[derive(Clone, Copy, Debug, PartialEq, Eq, Structural)]
pub enum ScrollPhase {
    Down,
    Up,
    Cancel,
}

/// One event forwarded to the engine. Produced by the input translator or
/// the startup sequence, consumed exactly once by the engine; the session
/// controller forwards a batch (possibly empty) per processing tick.
///
/// `NewView` carries the initial URL; the engine's one-shot reply channel
/// that accompanies it in flight is owned by the unverified shell, which
/// hands the received [`ViewId`] back to the controller.
#[derive(Debug, PartialEq)]
pub enum EngineEvent {
    NewView { url: String },
    SelectView { id: ViewId },
    Resize { size: FramebufferSize },
    PointerMove { point: MilliPoint },
    Scroll { delta: MilliVec, pointer: PixelPoint, phase: ScrollPhase },
    Reload { id: ViewId },
}

/// Whether an event is derived from user input (or a window-state change),
/// as opposed to the two startup events that create and select the view.
pub open spec fn is_input_event(e: EngineEvent) -> bool {
    match e {
        EngineEvent::NewView { .. } => false,
        EngineEvent::SelectView { .. } => false,
        EngineEvent::Resize { .. } => true,
        EngineEvent::PointerMove { .. } => true,
        EngineEvent::Scroll { .. } => true,
        EngineEvent::Reload { .. } => true,
    }
}

/// Whether the event, if it is a `Reload`, targets the view `v` — the
/// only valid target, the one view created at startup.
pub open spec fn reload_targets(e: EngineEvent, v: ViewId) -> bool {
    e matches EngineEvent::Reload { id } ==> id == v
}

} // verus!
