//! The engine session controller: the state machine that owns the one
//! browsing view and forwards ordered event batches to the engine.
//!
//! All engine interaction happens on the GUI thread, reached either
//! directly (an input callback) or indirectly (a wake-triggered flush);
//! each such GUI-thread step is one *tick*. The controller turns a tick's
//! trigger into the batch of engine events to forward — empty for a flush,
//! whose sole purpose is to let the engine drain internally queued work
//! and repaint. The unverified shell performs the actual engine call with
//! the batch handed back, holding its exclusive borrow of the engine for
//! that single call only.
//!
//! The ghost field [`SessionController::history`] records every event
//! handed out for forwarding, in order, across all ticks; batches from
//! different ticks are totally ordered by their arrival here, the single
//! consumer. The well-formedness predicate pins the shape that history can
//! take, and the lemmas below derive the ordering guarantees from it.

use vstd::prelude::*;

use crate::events::EngineEvent;
use crate::events::ScrollDirection;
use crate::events::ViewId;
use crate::events::is_input_event;
use crate::events::reload_targets;
use crate::geometry::FramebufferSize;
use crate::geometry::MilliPoint;
use crate::geometry::MilliVec;
use crate::geometry::PixelPoint;
use crate::geometry::milli_to_pixel;
use crate::input::PointerState;
use crate::input::RELOAD_KEYVAL;
use crate::input::scaled_dy;
use crate::input::scroll_delta_ok;
use crate::input::spec_scroll_phase;
use crate::input::translate_key_press;
use crate::input::translate_pointer_move;
use crate::input::translate_scroll;
use crate::window::WindowSnapshot;

verus! {

/// The lifecycle of the embedded engine session. `AwaitingView` is the
/// midpoint of the startup round trip: the view-creation event has been
/// forwarded and the engine's asynchronous view-identifier reply is being
/// awaited; no other event may be forwarded in between.
#[derive(Clone, Copy, Debug, PartialEq, Eq, Structural)]
pub enum SessionState {
    Uninitialized,
    AwaitingView,
    Running,
    ShuttingDown,
}

/// What caused a GUI-thread tick: a cross-thread wake request, or one of
/// the native input callbacks. A resize carries a fresh snapshot of the
/// native window, because the engine expects the current framebuffer
/// pixel size, not the resize callback's own payload, whose units differ.
#[derive(Clone, Copy, Debug, PartialEq, Eq, Structural)]
pub enum TickTrigger {
    Wake,
    PointerMove { x: i64, y: i64 },
    Scroll { direction: ScrollDirection, dx: i64, dy: i64 },
    Resize { window: WindowSnapshot },
    KeyPress { keyval: u32 },
}

/// The engine session controller. Exactly one exists; it is confined to
/// the GUI thread, and `view` — once the startup round trip completes —
/// is the only valid target for a reload.
pub struct SessionController {
    pub state: SessionState,
    pub view: Option<ViewId>,
    pub pointer: PointerState,
    pub history: Ghost<Seq<EngineEvent>>,
}

impl SessionController {
    /// Well-formedness: what each lifecycle state guarantees about the
    /// view identifier, the forwarding history, and the pointer state.
    pub open spec fn wf(self) -> bool {
        &&& self.pointer.x > i64::MIN
        &&& self.pointer.y > i64::MIN
        &&& match self.state {
            SessionState::Uninitialized => {
                &&& self.view is None
                &&& self.history@.len() == 0
            },
            SessionState::AwaitingView => {
                &&& self.view is None
                &&& self.history@.len() == 1
                &&& self.history@[0] is NewView
            },
            SessionState::Running | SessionState::ShuttingDown => {
                &&& self.view matches Some(v)
                &&& self.history@.len() >= 2
                &&& self.history@[0] is NewView
                &&& self.history@[1] == (EngineEvent::SelectView { id: v })
                &&& forall|i: int|
                    2 <= i < self.history@.len() ==> is_input_event(#[trigger] self.history@[i])
                &&& forall|i: int|
                    0 <= i < self.history@.len() ==> reload_targets(
                        #[trigger] self.history@[i],
                        v,
                    )
            },
        }
    }

    /// A controller before the engine session exists: no view, nothing
    /// forwarded, pointer at the origin.
    pub fn new() -> (c: SessionController)
        ensures
            c.wf(),
            c.state is Uninitialized,
            c.view is None,
            c.pointer == (PointerState { x: 0, y: 0 }),
            c.history@ == Seq::<EngineEvent>::empty(),
    {
        SessionController {
            state: SessionState::Uninitialized,
            view: None,
            pointer: PointerState::new(),
            history: Ghost(Seq::empty()),
        }
    }

    /// Begins the startup round trip: hands out the event that asks the
    /// engine to create the one browsing view at the initial URL. The
    /// caller forwards it, then awaits the engine's view-identifier reply
    /// and hands it to [`SessionController::finish_startup`]. A failure of
    /// either step is a fatal startup error: the session then never
    /// reaches `Running` and the main loop must not start.
    pub fn begin_startup(&mut self, url: String) -> (e: EngineEvent)
        requires
            old(self).wf(),
            old(self).state is Uninitialized,
        ensures
            final(self).wf(),
            final(self).state is AwaitingView,
            final(self).view is None,
            final(self).pointer == old(self).pointer,
            e == (EngineEvent::NewView { url: url }),
            final(self).history@ == old(self).history@.push(e),
    {
        let e = EngineEvent::NewView { url };
        self.state = SessionState::AwaitingView;
        self.history = Ghost(self.history@.push(e));
        e
    }

    /// Completes the startup round trip with the view identifier the
    /// engine replied: records it and hands out the event that selects
    /// the view, to be forwarded immediately — before any input-derived
    /// event can reach the engine.
    pub fn finish_startup(&mut self, id: ViewId) -> (e: EngineEvent)
        requires
            old(self).wf(),
            old(self).state is AwaitingView,
        ensures
            final(self).wf(),
            final(self).state is Running,
            final(self).view == Some(id),
            final(self).pointer == old(self).pointer,
            e == (EngineEvent::SelectView { id }),
            final(self).history@ == old(self).history@.push(e),
    {
        let e = EngineEvent::SelectView { id };
        self.state = SessionState::Running;
        self.view = Some(id);
        self.history = Ghost(self.history@.push(e));
        e
    }

    /// Whether a trigger's payload fits the machine integers the
    /// translation arithmetic runs in. True of everything a real toolkit
    /// delivers.
    pub open spec fn trigger_ok(self, t: TickTrigger) -> bool {
        match t {
            TickTrigger::Wake => true,
            TickTrigger::PointerMove { x, y } => x > i64::MIN && y > i64::MIN,
            TickTrigger::Scroll { direction, dx, dy } => scroll_delta_ok(dy),
            TickTrigger::Resize { window } => window.fb_fits(),
            TickTrigger::KeyPress { .. } => true,
        }
    }

    /// The batch of engine events one tick forwards: empty for a
    /// wake-triggered flush, and zero or one translated events for an
    /// input callback. The scroll case reads the pointer position the
    /// controller holds when the tick runs; the key-press case targets
    /// the view captured at startup.
    pub open spec fn tick_events(self, t: TickTrigger) -> Seq<EngineEvent> {
        match t {
            TickTrigger::Wake => Seq::empty(),
            TickTrigger::PointerMove { x, y } => seq![
                EngineEvent::PointerMove { point: MilliPoint { x, y } },
            ],
            TickTrigger::Scroll { direction, dx, dy } => seq![
                EngineEvent::Scroll {
                    delta: MilliVec { dx, dy: scaled_dy(dy as int) as i64 },
                    pointer: PixelPoint {
                        x: milli_to_pixel(self.pointer.x as int) as i64,
                        y: milli_to_pixel(self.pointer.y as int) as i64,
                    },
                    phase: spec_scroll_phase(direction, scaled_dy(dy as int)),
                },
            ],
            TickTrigger::Resize { window } => seq![
                EngineEvent::Resize {
                    size: FramebufferSize {
                        width: window.spec_fb_width() as u32,
                        height: window.spec_fb_height() as u32,
                    },
                },
            ],
            TickTrigger::KeyPress { keyval } => match self.view {
                Some(v) => if keyval == RELOAD_KEYVAL {
                    seq![EngineEvent::Reload { id: v }]
                } else {
                    Seq::empty()
                },
                None => Seq::empty(),
            },
        }
    }

    /// The pointer state after a tick: overwritten whole by a pointer
    /// move, untouched by every other trigger.
    pub open spec fn pointer_after(self, t: TickTrigger) -> PointerState {
        match t {
            TickTrigger::PointerMove { x, y } => PointerState { x, y },
            _ => self.pointer,
        }
    }

    /// The whole controller after a tick: the pointer updated, the tick's
    /// batch appended to the forwarding history, everything else as it
    /// was.
    pub open spec fn after_tick(self, t: TickTrigger) -> SessionController {
        SessionController {
            state: self.state,
            view: self.view,
            pointer: self.pointer_after(t),
            history: Ghost(self.history@ + self.tick_events(t)),
        }
    }

    /// One GUI-thread processing tick while the session runs: translates
    /// the trigger into its batch of engine events and hands the batch
    /// back for the caller to forward, in order, within its single
    /// exclusive-borrow call into the engine.
    pub fn tick(&mut self, t: TickTrigger) -> (batch: Vec<EngineEvent>)
        requires
            old(self).wf(),
            old(self).state is Running,
            old(self).trigger_ok(t),
        ensures
            final(self).wf(),
            *final(self) == old(self).after_tick(t),
            final(self).state is Running,
            final(self).view == old(self).view,
            final(self).pointer == old(self).pointer_after(t),
            batch@ =~= old(self).tick_events(t),
    {
        let ghost pre = *self;
        let mut batch: Vec<EngineEvent> = Vec::new();
        match t {
            TickTrigger::Wake => {},
            TickTrigger::PointerMove { x, y } => {
                let e = translate_pointer_move(&mut self.pointer, x, y);
                batch.push(e);
            },
            TickTrigger::Scroll { direction, dx, dy } => {
                let e = translate_scroll(&self.pointer, direction, dx, dy);
                batch.push(e);
            },
            TickTrigger::Resize { window } => {
                let size = window.framebuffer_size();
                batch.push(EngineEvent::Resize { size });
            },
            TickTrigger::KeyPress { keyval } => {
                if let Some(id) = self.view {
                    if let Some(e) = translate_key_press(keyval, id) {
                        batch.push(e);
                    }
                }
            },
        }
        self.history = Ghost(pre.history@ + pre.tick_events(t));
        proof {
            lemma_wf_after_tick(pre, t);
            assert(batch@ =~= pre.tick_events(t));
        }
        batch
    }

    /// The native window's close request: the session leaves `Running`,
    /// nothing further is forwarded, and the main loop may terminate; the
    /// engine's worker threads observe the closed wake signal and exit on
    /// their own.
    pub fn request_close(&mut self)
        requires
            old(self).wf(),
            old(self).state is Running,
        ensures
            final(self).wf(),
            final(self).state is ShuttingDown,
            final(self).view == old(self).view,
            final(self).pointer == old(self).pointer,
            final(self).history@ == old(self).history@,
    {
        self.state = SessionState::ShuttingDown;
    }
}

impl SessionController {
    /// The controller after a whole run of ticks, applied in order.
    pub open spec fn after_ticks(self, ts: Seq<TickTrigger>) -> SessionController
        decreases ts.len(),
    {
        if ts.len() == 0 {
            self
        } else {
            self.after_tick(ts[0]).after_ticks(ts.drop_first())
        }
    }

    /// All events a run of ticks forwards, concatenated in tick order.
    pub open spec fn run_events(self, ts: Seq<TickTrigger>) -> Seq<EngineEvent>
        decreases ts.len(),
    {
        if ts.len() == 0 {
            Seq::empty()
        } else {
            self.tick_events(ts[0]) + self.after_tick(ts[0]).run_events(ts.drop_first())
        }
    }
}

/// A tick constructs zero or one events from its trigger — never more —
/// and a wake-triggered flush always forwards the empty batch, whose sole
/// purpose is to let the engine drain internally queued work and repaint.
pub proof fn lemma_tick_batch_zero_or_one(c: SessionController, t: TickTrigger)
    ensures
        c.tick_events(t).len() <= 1,
        t is Wake ==> c.tick_events(t).len() == 0,
{
}

/// Ordering guarantee: a run of ticks appends each tick's batch to the
/// forwarding history whole and in exactly the order the ticks occurred —
/// no reordering, and no interleaving across batches.
pub proof fn lemma_run_preserves_order(c: SessionController, ts: Seq<TickTrigger>)
    ensures
        c.after_ticks(ts).history@ =~= c.history@ + c.run_events(ts),
    decreases ts.len(),
{
    if ts.len() == 0 {
        assert(c.history@ + Seq::<EngineEvent>::empty() =~= c.history@);
    } else {
        lemma_run_preserves_order(c.after_tick(ts[0]), ts.drop_first());
    }
}

/// A run of ticks none of which moves the pointer leaves the pointer
/// state untouched.
pub proof fn lemma_pointer_preserved(c: SessionController, ts: Seq<TickTrigger>)
    requires
        forall|j: int| 0 <= j < ts.len() ==> !((#[trigger] ts[j]) is PointerMove),
    ensures
        c.after_ticks(ts).pointer == c.pointer,
    decreases ts.len(),
{
    if ts.len() > 0 {
        assert(!(ts[0] is PointerMove));
        lemma_pointer_preserved(c.after_tick(ts[0]), ts.drop_first());
    }
}

/// Causal pointer ordering, first half: after any run of ticks whose last
/// pointer move carried `(x, y)`, the controller's pointer state holds
/// exactly `(x, y)` — the move updated it before any later tick could
/// read it.
pub proof fn lemma_last_pointer_move_wins(
    c: SessionController,
    ts: Seq<TickTrigger>,
    k: int,
    x: i64,
    y: i64,
)
    requires
        0 <= k < ts.len(),
        ts[k] == (TickTrigger::PointerMove { x, y }),
        forall|j: int| k < j < ts.len() ==> !((#[trigger] ts[j]) is PointerMove),
    ensures
        c.after_ticks(ts).pointer == (PointerState { x, y }),
    decreases ts.len(),
{
    if k == 0 {
        lemma_pointer_preserved(c.after_tick(ts[0]), ts.drop_first());
    } else {
        lemma_last_pointer_move_wins(c.after_tick(ts[0]), ts.drop_first(), k - 1, x, y);
    }
}

/// Causal pointer ordering, second half: a scroll tick that runs after
/// such a run reads that very position — the scroll event it forwards
/// carries `(x, y)` truncated to whole pixels, never a stale location.
pub proof fn lemma_scroll_reads_latest_pointer(
    c: SessionController,
    ts: Seq<TickTrigger>,
    k: int,
    x: i64,
    y: i64,
    direction: ScrollDirection,
    dx: i64,
    dy: i64,
)
    requires
        0 <= k < ts.len(),
        ts[k] == (TickTrigger::PointerMove { x, y }),
        forall|j: int| k < j < ts.len() ==> !((#[trigger] ts[j]) is PointerMove),
    ensures
        c.after_ticks(ts).tick_events(TickTrigger::Scroll { direction, dx, dy })
            =~= seq![
            EngineEvent::Scroll {
                delta: MilliVec { dx, dy: scaled_dy(dy as int) as i64 },
                pointer: PixelPoint {
                    x: milli_to_pixel(x as int) as i64,
                    y: milli_to_pixel(y as int) as i64,
                },
                phase: spec_scroll_phase(direction, scaled_dy(dy as int)),
            },
        ],
{
    lemma_last_pointer_move_wins(c, ts, k, x, y);
}

/// Startup precedes input: in any well-formed controller, every
/// input-derived event in the forwarding history comes after the
/// view-creation and view-selection pair, the selection names the view
/// the controller captured, and every reload targets that view. No
/// input-derived event can ever reach the engine under a placeholder or
/// invalid view identifier.
pub proof fn lemma_startup_precedes_input(c: SessionController, i: int)
    requires
        c.wf(),
        0 <= i < c.history@.len(),
        is_input_event(c.history@[i]),
    ensures
        i >= 2,
        c.history@[0] is NewView,
        c.history@[1] == (EngineEvent::SelectView { id: c.view->Some_0 }),
        c.view is Some,
        reload_targets(c.history@[i], c.view->Some_0),
{
}

/// A running controller stays well formed across any admissible tick:
/// the appended events are all input-derived and every reload among them
/// targets the startup view.
pub proof fn lemma_wf_after_tick(c: SessionController, t: TickTrigger)
    requires
        c.wf(),
        c.state is Running,
        c.trigger_ok(t),
    ensures
        c.after_tick(t).wf(),
{
    let post = c.after_tick(t);
    let evs = c.tick_events(t);
    assert forall|i: int| 2 <= i < post.history@.len() implies is_input_event(
        #[trigger] post.history@[i],
    ) by {
        if i < c.history@.len() {
            assert(post.history@[i] == c.history@[i]);
        } else {
            assert(post.history@[i] == evs[i - c.history@.len()]);
        }
    }
    let v = c.view->Some_0;
    assert forall|i: int| 0 <= i < post.history@.len() implies reload_targets(
        #[trigger] post.history@[i],
        v,
    ) by {
        if i < c.history@.len() {
            assert(post.history@[i] == c.history@[i]);
        } else {
            assert(post.history@[i] == evs[i - c.history@.len()]);
        }
    }
}

} // verus!
