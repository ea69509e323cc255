// Tests for the event-loop bridge: the coalescing waker, the input
// translator, the windowing capability surface, and the session
// controller. The toolkit reports fractional pixels; the tests convert to
// milli-pixels at the boundary exactly as the unverified shell does.

use event_bridge::controller::{SessionController, SessionState, TickTrigger};
use event_bridge::events::{EngineEvent, ScrollDirection, ScrollPhase, ViewId};
use event_bridge::geometry::{
    FramebufferSize, MilliPoint, MilliVec, PixelPoint, ScreenPosition, pixel_of_milli,
};
use event_bridge::input::{
    PointerState, RELOAD_KEYVAL, SCROLL_SCALE, scroll_phase, transform_scroll_delta,
    translate_key_press, translate_pointer_move, translate_scroll,
};
use event_bridge::waker::WakeSignal;
use event_bridge::window::{
    CursorKind, NavigationReply, WindowSnapshot, allow_navigation, cursor_name, page_title,
    supports_clipboard,
};

fn milli_of_f64(v: f64) -> i64 {
    (v * 1000.0) as i64
}

fn running_controller(raw: u64) -> SessionController {
    let mut c = SessionController::new();
    let created = c.begin_startup(String::from("https://servo.org"));
    assert_eq!(
        created,
        EngineEvent::NewView { url: String::from("https://servo.org") }
    );
    let selected = c.finish_startup(ViewId { raw });
    assert_eq!(selected, EngineEvent::SelectView { id: ViewId { raw } });
    c
}

#[test]
fn waker_coalesces_many_wakes_into_one_tick() {
    let mut s = WakeSignal::new();
    s.wake();
    s.wake();
    s.wake();
    assert!(s.drain());
    assert!(!s.drain());
}

#[test]
fn waker_single_wake_single_tick() {
    let mut s = WakeSignal::new();
    assert!(!s.drain());
    s.wake();
    assert!(s.drain());
    assert!(!s.drain());
}

#[test]
fn waker_swallows_wakes_after_close() {
    let mut s = WakeSignal::new();
    s.close();
    s.wake();
    assert!(!s.pending);
    assert!(s.closed);
}

#[test]
fn pointer_move_updates_state_before_scroll_reads_it() {
    let mut c = running_controller(1);
    let moved = c.tick(TickTrigger::PointerMove {
        x: milli_of_f64(10.5),
        y: milli_of_f64(20.999),
    });
    assert_eq!(
        moved,
        vec![EngineEvent::PointerMove { point: MilliPoint { x: 10500, y: 20999 } }]
    );
    // an unrelated tick in between does not disturb the pointer state
    assert_eq!(c.tick(TickTrigger::Wake), vec![]);
    let scrolled = c.tick(TickTrigger::Scroll {
        direction: ScrollDirection::Down,
        dx: 0,
        dy: milli_of_f64(1.0),
    });
    match &scrolled[0] {
        EngineEvent::Scroll { pointer, .. } => {
            assert_eq!(*pointer, PixelPoint { x: 10, y: 20 });
        }
        other => panic!("expected a scroll event, got {:?}", other),
    }
}

#[test]
fn scroll_delta_is_inverted_and_scaled() {
    // toolkit delta (0, 1.0) on a Down direction: engine delta (0, -38.0)
    let d = transform_scroll_delta(milli_of_f64(0.0), milli_of_f64(1.0));
    assert_eq!(d, MilliVec { dx: 0, dy: -38000 });
    assert_eq!(d.dy as f64 / 1000.0, -38.0);
    assert_eq!(SCROLL_SCALE, 38);
}

#[test]
fn scroll_horizontal_passes_through_unscaled() {
    let d = transform_scroll_delta(milli_of_f64(2.5), milli_of_f64(-0.25));
    assert_eq!(d, MilliVec { dx: 2500, dy: 9500 });
}

#[test]
fn scroll_event_on_down_direction() {
    let state = PointerState::new();
    let e = translate_scroll(&state, ScrollDirection::Down, 0, milli_of_f64(1.0));
    assert_eq!(
        e,
        EngineEvent::Scroll {
            delta: MilliVec { dx: 0, dy: -38000 },
            pointer: PixelPoint { x: 0, y: 0 },
            phase: ScrollPhase::Down,
        }
    );
}

#[test]
fn scroll_phase_follows_discrete_direction() {
    assert_eq!(scroll_phase(ScrollDirection::Down, -38000), ScrollPhase::Down);
    assert_eq!(scroll_phase(ScrollDirection::Up, 38000), ScrollPhase::Up);
}

#[test]
fn scroll_phase_left_right_is_the_documented_cancel_gap() {
    assert_eq!(scroll_phase(ScrollDirection::Left, -38000), ScrollPhase::Cancel);
    assert_eq!(scroll_phase(ScrollDirection::Right, 38000), ScrollPhase::Cancel);
}

#[test]
fn scroll_phase_smooth_falls_back_to_sign_of_transformed_delta() {
    // transformed delta positive: Down; zero or negative: Up
    assert_eq!(scroll_phase(ScrollDirection::Smooth, 38000), ScrollPhase::Down);
    assert_eq!(scroll_phase(ScrollDirection::Smooth, -38000), ScrollPhase::Up);
    assert_eq!(scroll_phase(ScrollDirection::Smooth, 0), ScrollPhase::Up);
    assert_eq!(scroll_phase(ScrollDirection::Other, 1), ScrollPhase::Down);
    assert_eq!(scroll_phase(ScrollDirection::Other, -1), ScrollPhase::Up);
}

#[test]
fn startup_completes_before_any_input_event() {
    let mut c = running_controller(42);
    assert_eq!(c.state, SessionState::Running);
    assert_eq!(c.view, Some(ViewId { raw: 42 }));
    // only now can input-derived events be produced, and a reload can
    // target nothing but the view captured at startup
    let batch = c.tick(TickTrigger::KeyPress { keyval: RELOAD_KEYVAL });
    assert_eq!(batch, vec![EngineEvent::Reload { id: ViewId { raw: 42 } }]);
}

#[test]
fn navigation_is_always_allowed_with_exactly_one_reply() {
    let mut reply = NavigationReply::new();
    assert_eq!(reply.sent, None);
    allow_navigation(
        ViewId { raw: 1 },
        &String::from("https://example.org/anywhere"),
        &mut reply,
    );
    assert_eq!(reply.sent, Some(true));
}

#[test]
fn resized_window_reports_scaled_framebuffer() {
    // logical 1024x768 at scale factor 2: framebuffer 2048x1536
    let w = WindowSnapshot {
        logical_width: 1024,
        logical_height: 768,
        scale_factor: 2,
        position: ScreenPosition { x: 30, y: 40 },
    };
    let fb = w.framebuffer_size();
    assert_eq!(fb, FramebufferSize { width: 2048, height: 1536 });
    let r = w.window_rect();
    assert_eq!((r.origin_x, r.origin_y, r.width, r.height), (0, 0, 2048, 1536));
    let s = w.size();
    assert_eq!((s.width, s.height), (1024, 768));
    assert_eq!(w.hidpi_factor(), 2);
    let (cs, cp) = w.client_window(ViewId { raw: 1 });
    assert_eq!((cs.width, cs.height), (1024, 768));
    assert_eq!(cp, ScreenPosition { x: 30, y: 40 });
}

#[test]
fn resize_tick_carries_current_framebuffer_size() {
    let mut c = running_controller(1);
    let w = WindowSnapshot {
        logical_width: 1024,
        logical_height: 768,
        scale_factor: 2,
        position: ScreenPosition { x: 0, y: 0 },
    };
    let batch = c.tick(TickTrigger::Resize { window: w });
    assert_eq!(
        batch,
        vec![EngineEvent::Resize { size: FramebufferSize { width: 2048, height: 1536 } }]
    );
}

#[test]
fn reload_key_forwards_exactly_one_reload() {
    let mut c = running_controller(7);
    let batch = c.tick(TickTrigger::KeyPress { keyval: 82 });
    assert_eq!(batch, vec![EngineEvent::Reload { id: ViewId { raw: 7 } }]);
}

#[test]
fn other_keys_forward_no_event() {
    let mut c = running_controller(7);
    assert_eq!(c.tick(TickTrigger::KeyPress { keyval: 97 }), vec![]);
    assert_eq!(c.tick(TickTrigger::KeyPress { keyval: 0 }), vec![]);
    assert_eq!(translate_key_press(114, ViewId { raw: 7 }), None);
}

#[test]
fn wake_tick_forwards_an_empty_batch() {
    let mut c = running_controller(1);
    assert_eq!(c.tick(TickTrigger::Wake), vec![]);
    assert_eq!(c.state, SessionState::Running);
}

#[test]
fn close_request_stops_the_session() {
    let mut c = running_controller(1);
    c.request_close();
    assert_eq!(c.state, SessionState::ShuttingDown);
    assert_eq!(c.view, Some(ViewId { raw: 1 }));
}

#[test]
fn pointer_truncation_rounds_toward_zero() {
    assert_eq!(pixel_of_milli(1999), 1);
    assert_eq!(pixel_of_milli(-1999), -1);
    assert_eq!(pixel_of_milli(0), 0);
    assert_eq!(pixel_of_milli(milli_of_f64(10.5)), 10);
    // the same truncation the toolkit's float-to-integer cast applies
    assert_eq!(pixel_of_milli(milli_of_f64(-10.5)), -10.5f64 as i64);
}

#[test]
fn pointer_move_translation_records_and_reports_position() {
    let mut state = PointerState::new();
    let e = translate_pointer_move(&mut state, 3000, -4000);
    assert_eq!(e, EngineEvent::PointerMove { point: MilliPoint { x: 3000, y: -4000 } });
    assert_eq!(state, PointerState { x: 3000, y: -4000 });
}

#[test]
fn cursor_mapping_has_explicit_default_fallback() {
    assert_eq!(cursor_name(CursorKind::Pointer), "pointer");
    assert_eq!(cursor_name(CursorKind::Default), "default");
    assert_eq!(cursor_name(CursorKind::Text), "default");
    assert_eq!(cursor_name(CursorKind::ZoomOut), "default");
}

#[test]
fn page_title_falls_back_to_empty() {
    let id = ViewId { raw: 1 };
    assert_eq!(page_title(id, Some(String::from("Servo"))), "Servo");
    assert_eq!(page_title(id, None), "");
}

#[test]
fn clipboard_is_not_supported() {
    assert!(!supports_clipboard());
}
