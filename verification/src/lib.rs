//! An event-loop bridge between a callback-driven GUI toolkit and an
//! embedded, multi-threaded browser-rendering engine.
//!
//! The bridge reconciles two independently scheduled execution models: the
//! toolkit's single-threaded main loop, which delivers input callbacks, and
//! the engine's worker threads, which must be able to request redraws from
//! anywhere. Everything with behaviour worth stating precisely lives here:
//!
//! * [`waker`] — the coalescing cross-thread wake signal;
//! * [`input`] — pure translation of native input events into the engine's
//!   window-event vocabulary;
//! * [`window`] — the windowing capability surface the engine calls back
//!   into: geometry derivations, cursor and title handling, navigation
//!   replies;
//! * [`controller`] — the session state machine that owns the one browsing
//!   view and forwards ordered event batches to the engine.
//!
//! The toolkit, the GL surface and the engine itself are unverified
//! collaborators. The unverified shell reads native window state into plain
//! snapshots, hands toolkit callbacks to the functions here, and performs
//! the actual engine and toolkit calls with the values handed back.

pub mod controller;
pub mod events;
pub mod geometry;
pub mod input;
pub mod waker;
pub mod window;
