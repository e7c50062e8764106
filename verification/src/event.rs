//! The events the host window system delivers to the controller, the effects
//! the controller asks its surroundings to perform in response, and the
//! classification of render outcomes.
//!
//! Event payloads that the verified core cannot hold (key codes, pointer
//! coordinates, device details) stay with the caller: an event here records
//! only what the dispatch decision depends on, and a `Forward*` effect tells
//! the caller to hand the payload it kept to the matching handler of the
//! application instance.

use vstd::prelude::*;
use crate::size::Size;

verus! {

/// A window event, reduced to what the dispatch decision reads.
#[derive(Clone, Copy, Debug, PartialEq, Eq)]
pub enum Event {
    /// The host asks the application to shut down.
    CloseRequested,
    /// The window was resized to the given physical size.
    Resized(Size),
    /// A keyboard event arrived.
    KeyboardInput,
    /// A mouse-wheel event arrived.
    MouseWheel,
    /// A mouse-button event arrived.
    MouseInput,
    /// The cursor moved.
    CursorMoved,
    /// The host asks for a frame to be drawn.
    RedrawRequested,
    /// Any other window event; the controller never acts on these.
    Other,
}

/// What a redraw must do to the presentation surface before drawing.
#[derive(Clone, Copy, Debug, PartialEq, Eq)]
pub enum FramePlan {
    /// The window has zero area: draw nothing, acquire nothing.
    Skip,
    /// Draw a frame; if `reconfigure` holds a size, reconfigure the surface
    /// to that size first.
    Draw { reconfigure: Option<Size> },
}

/// What the caller must do after the controller has dispatched an event.
#[derive(Clone, Copy, Debug, PartialEq, Eq)]
pub enum Effect {
    /// Nothing: the event was buffered for later or discarded.
    Ignored,
    /// Terminate the host event loop.
    Exit,
    /// The window was resized to zero area while constructed: report
    /// "minimized" as a diagnostic and do nothing else.
    Minimized,
    /// The window was resized to the given nonzero size; report it if
    /// desired. The new size takes effect at the next frame.
    Resized(Size),
    /// Hand the keyboard payload to the instance's keyboard handler.
    ForwardKeyboard,
    /// Hand the wheel payload to the instance's mouse-wheel handler.
    ForwardMouseWheel,
    /// Hand the button payload to the instance's mouse-click handler.
    ForwardMouseClick,
    /// Hand the cursor position to the instance's cursor-move handler.
    ForwardCursorMove,
    /// Run a frame as the plan says, then feed the outcome to
    /// [`crate::handler::render_follow_up`].
    Render(FramePlan),
}

/// How an attempt to draw a frame ended.
#[derive(Clone, Copy, Debug, PartialEq, Eq)]
pub enum RenderOutcome {
    /// The frame was presented (or legitimately skipped).
    Success,
    /// The presentation surface was lost; the next frame will retry.
    SurfaceLost,
    /// Any other acquisition or presentation error.
    OtherError,
}

/// A diagnostic to report after a failed frame.
#[derive(Clone, Copy, Debug, PartialEq, Eq)]
pub enum RenderDiagnostic {
    /// The surface was lost and the frame was skipped.
    SurfaceLost,
    /// Another render error occurred and the frame was skipped.
    RenderError,
}

/// What to do after a frame: report a diagnostic if one is due, and always
/// schedule the next frame.
#[derive(Clone, Copy, Debug, PartialEq, Eq)]
pub struct RenderFollowUp {
    /// The diagnostic owed for this frame, if any.
    pub diagnostic: Option<RenderDiagnostic>,
    /// Whether the host must be asked for the next redraw. Always true:
    /// render failures are absorbed, never fatal.
    pub request_redraw: bool,
}

} // verus!
