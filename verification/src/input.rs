//! Pure translation of native GUI input callbacks into the engine's
//! window-event vocabulary.
//!
//! Each function is total over its stated input domain and performs no
//! I/O. The only shared state is [`PointerState`], the last pointer
//! position, written by every pointer-move callback and read by scroll
//! translation to supply the location the engine expects alongside a
//! scroll delta. It is touched from the GUI thread only.

use vstd::prelude::*;

use crate::events::EngineEvent;
use crate::events::ScrollDirection;
use crate::events::ScrollPhase;
use crate::events::ViewId;
use crate::geometry::MilliPoint;
use crate::geometry::MilliVec;
use crate::geometry::PixelPoint;
use crate::geometry::milli_to_pixel;
use crate::geometry::pixel_of_milli;

verus! {

/// Magnitude of the fixed factor by which a vertical scroll delta is
/// scaled (and inverted) to match the engine's expected units.
pub const SCROLL_SCALE: i64 = 38;

/// The key value the toolkit reports for the uppercase letter R — the one
/// key binding in scope, mapped to a reload of the single view.
pub const RELOAD_KEYVAL: u32 = 82;

/// The last pointer position, in milli-pixels. Last-writer-wins: each
/// pointer-move callback overwrites it whole.
#[derive(Clone, Copy, Debug, PartialEq, Eq, Structural)]
pub struct PointerState {
    pub x: i64,
    pub y: i64,
}

impl PointerState {
    /// The pointer position before any motion callback has fired: the
    /// origin.
    pub fn new() -> (p: PointerState)
        ensures
            p.x == 0,
            p.y == 0,
    {
        PointerState { x: 0, y: 0 }
    }
}

/// The vertical scroll rule: inverted and scaled by [`SCROLL_SCALE`].
pub open spec fn scaled_dy(dy: int) -> int {
    -(SCROLL_SCALE as int) * dy
}

/// Whether a toolkit scroll delta is small enough that its transform fits
/// the machine integers. Every delta a real toolkit reports is far inside
/// this bound.
pub open spec fn scroll_delta_ok(dy: i64) -> bool {
    i64::MIN <= scaled_dy(dy as int) <= i64::MAX
}

/// Transforms a toolkit scroll delta into engine units: the vertical
/// component is inverted and scaled by [`SCROLL_SCALE`]; the horizontal
/// component passes through unscaled.
pub fn transform_scroll_delta(dx: i64, dy: i64) -> (d: MilliVec)
    requires
        scroll_delta_ok(dy),
    ensures
        d.dx == dx,
        d.dy == scaled_dy(dy as int),
{
    proof {
        assert((dy as int) * (-(SCROLL_SCALE as int)) == scaled_dy(dy as int))
            by (nonlinear_arith);
    }
    MilliVec { dx, dy: dy * (-SCROLL_SCALE) }
}

/// The direction-to-phase rule, applied to the *transformed* vertical
/// delta: a discrete `Down` or `Up` direction names its phase directly;
/// the discrete `Left` and `Right` directions are unsupported and map to
/// the explicit `Cancel` phase — a documented gap, not a guess; a smooth
/// or unrecognised source falls back to the sign of the transformed delta,
/// `Down` when positive and `Up` otherwise.
pub open spec fn spec_scroll_phase(direction: ScrollDirection, scaled: int) -> ScrollPhase {
    match direction {
        ScrollDirection::Down => ScrollPhase::Down,
        ScrollDirection::Up => ScrollPhase::Up,
        ScrollDirection::Left => ScrollPhase::Cancel,
        ScrollDirection::Right => ScrollPhase::Cancel,
        ScrollDirection::Smooth => if scaled > 0 { ScrollPhase::Down } else { ScrollPhase::Up },
        ScrollDirection::Other => if scaled > 0 { ScrollPhase::Down } else { ScrollPhase::Up },
    }
}

/// Chooses the touch phase for a scroll event; `scaled` is the already
/// transformed vertical delta.
pub fn scroll_phase(direction: ScrollDirection, scaled: i64) -> (p: ScrollPhase)
    ensures
        p == spec_scroll_phase(direction, scaled as int),
{
    match direction {
        ScrollDirection::Down => ScrollPhase::Down,
        ScrollDirection::Up => ScrollPhase::Up,
        ScrollDirection::Left => ScrollPhase::Cancel,
        ScrollDirection::Right => ScrollPhase::Cancel,
        ScrollDirection::Smooth => if scaled > 0 { ScrollPhase::Down } else { ScrollPhase::Up },
        ScrollDirection::Other => if scaled > 0 { ScrollPhase::Down } else { ScrollPhase::Up },
    }
}

/// Sign convention of the scroll transform: on the continuous fallback
/// path (a smooth or unrecognised direction) the phase follows the sign of
/// the transformed vertical delta — `Down` exactly when it is positive,
/// `Up` otherwise — while each supported discrete direction names its
/// phase directly and the unsupported left/right directions map to
/// `Cancel`.
pub proof fn lemma_scroll_sign_convention(direction: ScrollDirection, scaled: int)
    ensures
        (direction is Smooth || direction is Other) ==> (spec_scroll_phase(direction, scaled)
            is Down <==> scaled > 0),
        (direction is Smooth || direction is Other) ==> (spec_scroll_phase(direction, scaled)
            is Up <==> scaled <= 0),
        direction is Down ==> spec_scroll_phase(direction, scaled) is Down,
        direction is Up ==> spec_scroll_phase(direction, scaled) is Up,
        (direction is Left || direction is Right) ==> spec_scroll_phase(direction, scaled)
            is Cancel,
{
}

/// Translates a pointer-motion callback: records the new position in the
/// shared pointer state, then hands back the engine's pointer-move event
/// carrying that same position.
pub fn translate_pointer_move(state: &mut PointerState, x: i64, y: i64) -> (e: EngineEvent)
    ensures
        final(state).x == x,
        final(state).y == y,
        e == (EngineEvent::PointerMove { point: MilliPoint { x, y } }),
{
    state.x = x;
    state.y = y;
    EngineEvent::PointerMove { point: MilliPoint { x, y } }
}

/// Translates a scroll callback: transforms the delta, chooses the phase
/// from the direction and the transformed delta, and attaches the last
/// recorded pointer position truncated to whole pixels.
pub fn translate_scroll(
    state: &PointerState,
    direction: ScrollDirection,
    dx: i64,
    dy: i64,
) -> (e: EngineEvent)
    requires
        scroll_delta_ok(dy),
        state.x > i64::MIN,
        state.y > i64::MIN,
    ensures
        e == (EngineEvent::Scroll {
            delta: MilliVec { dx, dy: scaled_dy(dy as int) as i64 },
            pointer: PixelPoint {
                x: milli_to_pixel(state.x as int) as i64,
                y: milli_to_pixel(state.y as int) as i64,
            },
            phase: spec_scroll_phase(direction, scaled_dy(dy as int)),
        }),
{
    let delta = transform_scroll_delta(dx, dy);
    let phase = scroll_phase(direction, delta.dy);
    let pointer = PixelPoint { x: pixel_of_milli(state.x), y: pixel_of_milli(state.y) };
    EngineEvent::Scroll { delta, pointer, phase }
}

/// Translates a key-press callback: the designated reload key produces a
/// reload of the one view; every other key produces no event — silence,
/// not an error.
pub fn translate_key_press(keyval: u32, view: ViewId) -> (e: Option<EngineEvent>)
    ensures
        keyval == RELOAD_KEYVAL ==> e == Some(EngineEvent::Reload { id: view }),
        keyval != RELOAD_KEYVAL ==> e is None,
{
    if keyval == RELOAD_KEYVAL {
        Some(EngineEvent::Reload { id: view })
    } else {
        None
    }
}

} // verus!
