//! The windowing capability surface the engine calls back into.
//!
//! The engine's dispatch assumes total coverage of this surface, so every
//! method is present — including the ones that are deliberate no-ops in
//! this minimal design. Geometry is always a pure derivation from the live
//! native window: the unverified shell reads the toolkit's current window
//! state into a fresh [`WindowSnapshot`] at each call, never caching one,
//! so no value here can go stale after a resize.
//!
//! Three capability methods are pure toolkit I/O and live in the
//! unverified shell instead: making the GL context current before a
//! composite, scheduling a redraw of the native surface (fire-and-forget),
//! and handing out waker clones — the shell clones its handle to the one
//! [`crate::waker::WakeSignal`].

use vstd::prelude::*;

use crate::events::ViewId;
use crate::geometry::FramebufferSize;
use crate::geometry::LogicalSize;
use crate::geometry::ScreenPosition;
use crate::geometry::WindowRect;

verus! {

/// The native window state, read fresh from the toolkit at call time:
/// logical size, the integral HiDPI scale factor, and the window's screen
/// position.
#[derive(Clone, Copy, Debug, PartialEq, Eq, Structural)]
pub struct WindowSnapshot {
    pub logical_width: u32,
    pub logical_height: u32,
    pub scale_factor: u32,
    pub position: ScreenPosition,
}

impl WindowSnapshot {
    /// Framebuffer width in device pixels: logical width times scale.
    pub open spec fn spec_fb_width(self) -> int {
        self.scale_factor * self.logical_width
    }

    /// Framebuffer height in device pixels: logical height times scale.
    pub open spec fn spec_fb_height(self) -> int {
        self.scale_factor * self.logical_height
    }

    /// Whether the framebuffer size fits the engine's pixel integers —
    /// true of every window a real screen can show.
    pub open spec fn fb_fits(self) -> bool {
        self.spec_fb_width() <= u32::MAX && self.spec_fb_height() <= u32::MAX
    }

    /// The surface size in framebuffer (device) pixels: the logical size
    /// scaled by the HiDPI factor.
    pub fn framebuffer_size(&self) -> (s: FramebufferSize)
        requires
            self.fb_fits(),
        ensures
            s.width == self.spec_fb_width(),
            s.height == self.spec_fb_height(),
    {
        FramebufferSize {
            width: self.scale_factor * self.logical_width,
            height: self.scale_factor * self.logical_height,
        }
    }

    /// The rectangle the engine composites into: anchored at the origin,
    /// spanning the whole framebuffer.
    pub fn window_rect(&self) -> (r: WindowRect)
        requires
            self.fb_fits(),
        ensures
            r.origin_x == 0,
            r.origin_y == 0,
            r.width == self.spec_fb_width(),
            r.height == self.spec_fb_height(),
    {
        let s = self.framebuffer_size();
        WindowRect { origin_x: 0, origin_y: 0, width: s.width, height: s.height }
    }

    /// The window size in logical (device-independent) pixels.
    pub fn size(&self) -> (s: LogicalSize)
        ensures
            s.width == self.logical_width,
            s.height == self.logical_height,
    {
        LogicalSize { width: self.logical_width, height: self.logical_height }
    }

    /// The HiDPI scale factor relating logical to device pixels.
    pub fn hidpi_factor(&self) -> (f: u32)
        ensures
            f == self.scale_factor,
    {
        self.scale_factor
    }

    /// Per-view client-window geometry: the logical size and the window's
    /// screen position. The view identifier does not influence the result;
    /// there is only one window.
    pub fn client_window(&self, _id: ViewId) -> (r: (LogicalSize, ScreenPosition))
        ensures
            r.0.width == self.logical_width,
            r.0.height == self.logical_height,
            r.1 == self.position,
    {
        (
            LogicalSize { width: self.logical_width, height: self.logical_height },
            self.position,
        )
    }
}

/// The engine asks whether the embedder offers clipboard integration; this
/// minimal design does not.
pub fn supports_clipboard() -> (b: bool)
    ensures
        !b,
{
    false
}

/// The cursor kinds the engine can request. Only the pointing-hand cursor
/// has a dedicated native mapping; every other kind falls back to the
/// default native cursor — an explicit fallback, never a failure.
#[derive(Clone, Copy, Debug, PartialEq, Eq, Structural)]
pub enum CursorKind {
    Default,
    Pointer,
    Text,
    Wait,
    Progress,
    Crosshair,
    Move,
    NotAllowed,
    Grab,
    Grabbing,
    ZoomIn,
    ZoomOut,
}

/// The native cursor name chosen for an engine cursor kind.
pub open spec fn spec_cursor_name(c: CursorKind) -> Seq<char> {
    if c is Pointer {
        "pointer"@
    } else {
        "default"@
    }
}

/// Maps an engine cursor kind to the native cursor name to request: the
/// pointing hand for `Pointer`, the default cursor for every other kind.
/// Total — unmapped kinds are resolved by the fallback, not an error.
pub fn cursor_name(c: CursorKind) -> (n: &'static str)
    ensures
        n@ == spec_cursor_name(c),
{
    match c {
        CursorKind::Pointer => "pointer",
        _ => "default",
    }
}

/// The window title to apply when the engine reports a page title: the
/// title itself, or the empty string when the page supplies none.
pub fn page_title(_id: ViewId, title: Option<String>) -> (t: String)
    ensures
        title matches Some(s) ==> t@ == s@,
        title is None ==> t@ == Seq::<char>::empty(),
{
    match title {
        Some(s) => s,
        None => String::new(),
    }
}

/// The engine's one-shot navigation-permission channel. The engine blocks
/// a navigation until exactly one reply arrives, so an unanswered request
/// would deadlock it; `sent` records the reply, at most one ever.
#[derive(Clone, Copy, Debug, PartialEq, Eq, Structural)]
pub struct NavigationReply {
    pub sent: Option<bool>,
}

impl NavigationReply {
    /// A fresh request: no reply sent yet.
    pub fn new() -> (r: NavigationReply)
        ensures
            r.sent is None,
    {
        NavigationReply { sent: None }
    }
}

/// Answers a navigation request: always affirmatively, exactly once. The
/// requested URL never influences the answer; nothing is filtered.
pub fn allow_navigation(_id: ViewId, _url: &String, reply: &mut NavigationReply)
    requires
        old(reply).sent is None,
    ensures
        final(reply).sent == Some(true),
{
    reply.sent = Some(true);
}

/// The engine asks the embedder to resize the window: a deliberate no-op
/// in this minimal design — the user, not the page, sizes the window.
pub fn set_inner_size(_id: ViewId, _size: LogicalSize) {
}

/// The engine asks the embedder to move the window: a deliberate no-op —
/// the window manager, not the page, places the window.
pub fn set_position(_id: ViewId, _position: ScreenPosition) {
}

/// The engine reports a fullscreen request: a deliberate no-op — this
/// minimal design has no fullscreen mode.
pub fn set_fullscreen_state(_id: ViewId, _fullscreen: bool) {
}

/// The engine reports status-bar text: a deliberate no-op — there is no
/// status bar.
pub fn status(_id: ViewId, _text: Option<String>) {
}

/// The engine reports that a load began: a deliberate no-op — there is no
/// progress indicator.
pub fn load_start(_id: ViewId) {
}

/// The engine reports that a load finished: a deliberate no-op.
pub fn load_end(_id: ViewId) {
}

/// The engine reports that a load failed. A deliberate no-op: the engine
/// renders its own error page, and the engine-internal error value crosses
/// the boundary uninspected and unrewritten.
pub fn load_error(_id: ViewId, _url: &String) {
}

/// The engine reports that the document head was parsed: a deliberate
/// no-op.
pub fn head_parsed(_id: ViewId) {
}

/// The engine reports a session-history change. A deliberate no-op: there
/// is no history UI; only the position in the history is observed here.
pub fn history_changed(_id: ViewId, _current: usize) {
}

/// The engine reports a new favicon URL: a deliberate no-op — the window
/// shows no favicon.
pub fn set_favicon(_id: ViewId, _url: &String) {
}

/// The engine hands a key event back to the embedder: a deliberate no-op —
/// the embedder's one key binding is handled on the toolkit side before
/// events reach the engine.
pub fn handle_key(_id: Option<ViewId>, _ch: Option<char>, _keyval: u32) {
}

} // verus!
