//! The deferred application-state controller.
//!
//! Construction of the application instance is asynchronous, while the host
//! delivers events synchronously. Until construction completes, the
//! controller buffers the two event kinds that matter to a not-yet-ready
//! instance — the latest nonzero resize, and whether a redraw was asked for —
//! and discards everything else. When construction completes it replays the
//! buffer once, resize before redraw, and from then on dispatches events
//! directly.
//!
//! The controller owns its state exclusively; a caller that shares it
//! between an event-delivery path and an asynchronous completion callback
//! puts it behind its own mutual exclusion and holds the guard only for the
//! duration of one call.

use vstd::prelude::*;
use crate::app::WgpuApp;
use crate::event::{Effect, Event, RenderDiagnostic, RenderFollowUp, RenderOutcome};
use crate::size::Size;

verus! {

/// The controller: the application slot, absent until asynchronous
/// construction completes, and the events buffered while it is absent.
#[derive(Clone, Copy, Debug, PartialEq, Eq)]
pub struct WgpuAppHandler {
    /// The constructed application instance's state, once construction has
    /// completed; `None` before that.
    pub app: Option<WgpuApp>,
    /// The latest nonzero resize that arrived before construction
    /// completed. Overwritten, not queued: only the last size matters.
    pub missed_resize: Option<Size>,
    /// Whether a redraw was requested before construction completed.
    /// Any number of requests collapse into this one flag.
    pub missed_request_redraw: bool,
}

impl WgpuAppHandler {
    /// Well-formedness: a constructed instance is itself well formed, and
    /// the buffers are meaningful only while the instance is absent — the
    /// completion step consumes and clears them exactly once. A buffered
    /// resize is never zero-area: zero sizes are filtered on arrival.
    pub open spec fn wf(self) -> bool {
        &&& match self.app {
            Some(a) => a.wf() && self.missed_resize is None && !self.missed_request_redraw,
            None => true,
        }
        &&& match self.missed_resize {
            Some(s) => !s.is_zero_area(),
            None => true,
        }
    }

    /// What `window_event` does to the state, and the effect it asks for.
    pub open spec fn spec_window_event(self, event: Event) -> (WgpuAppHandler, Effect) {
        match self.app {
            None => match event {
                Event::Resized(s) => if !s.is_zero_area() {
                    (WgpuAppHandler { missed_resize: Some(s), ..self }, Effect::Ignored)
                } else {
                    (self, Effect::Ignored)
                },
                Event::RedrawRequested => (
                    WgpuAppHandler { missed_request_redraw: true, ..self },
                    Effect::Ignored,
                ),
                _ => (self, Effect::Ignored),
            },
            Some(a) => match event {
                Event::CloseRequested => (self, Effect::Exit),
                Event::Resized(s) => if s.is_zero_area() {
                    (self, Effect::Minimized)
                } else {
                    (
                        WgpuAppHandler { app: Some(a.spec_set_window_resized(s)), ..self },
                        Effect::Resized(s),
                    )
                },
                Event::KeyboardInput => (self, Effect::ForwardKeyboard),
                Event::MouseWheel => (self, Effect::ForwardMouseWheel),
                Event::MouseInput => (self, Effect::ForwardMouseClick),
                Event::CursorMoved => (self, Effect::ForwardCursorMove),
                Event::RedrawRequested => {
                    let (a2, plan) = a.spec_render();
                    (WgpuAppHandler { app: Some(a2), ..self }, Effect::Render(plan))
                },
                Event::Other => (self, Effect::Ignored),
            },
        }
    }

    /// What `finish_construction` does to the state, and whether a redraw
    /// must be requested from the host.
    pub open spec fn spec_finish_construction(self, app: WgpuApp) -> (WgpuAppHandler, bool) {
        let reconciled = match self.missed_resize {
            Some(s) => app.spec_set_window_resized(s),
            None => app,
        };
        (
            WgpuAppHandler {
                app: Some(reconciled),
                missed_resize: None,
                missed_request_redraw: false,
            },
            self.missed_request_redraw,
        )
    }

    /// A controller with nothing constructed and nothing buffered.
    pub fn new() -> (r: WgpuAppHandler)
        ensures
            r == (WgpuAppHandler {
                app: None,
                missed_resize: None,
                missed_request_redraw: false,
            }),
            r.wf(),
    {
        WgpuAppHandler { app: None, missed_resize: None, missed_request_redraw: false }
    }

    /// The host granted a renderable surface. Returns whether asynchronous
    /// construction of the application instance must begin: it must if and
    /// only if no instance exists yet, so a duplicate activation signal is a
    /// no-op and at most one instance is ever constructed.
    pub fn resumed(&mut self) -> (begin_construction: bool)
        ensures
            *final(self) == *old(self),
            begin_construction == (old(self).app is None),
    {
        self.app.is_none()
    }

    /// The host revoked the renderable surface. The controller keeps its
    /// state; nothing is torn down.
    pub fn suspended(&mut self)
        ensures
            *final(self) == *old(self),
    {
    }

    /// Asynchronous construction completed: store the instance and replay
    /// the buffered events exactly once, resize first — a deferred redraw
    /// must not use a stale size. Returns whether the caller must request a
    /// redraw from the host. Construction happens once per controller
    /// lifetime, so the slot is still empty here.
    pub fn finish_construction(&mut self, app: WgpuApp) -> (request_redraw: bool)
        requires
            old(self).app is None,
            old(self).wf(),
            app.wf(),
        ensures
            (*final(self), request_redraw) == old(self).spec_finish_construction(app),
            final(self).wf(),
            final(self).app == Some(match old(self).missed_resize {
                Some(s) => app.spec_set_window_resized(s),
                None => app,
            }),
            request_redraw == old(self).missed_request_redraw,
    {
        let mut instance = app;
        if let Some(resize) = self.missed_resize {
            instance.set_window_resized(resize);
        }
        self.app = Some(instance);
        self.missed_resize = None;
        let request_redraw = self.missed_request_redraw;
        self.missed_request_redraw = false;
        request_redraw
    }

    /// Dispatch one window event, in arrival order.
    ///
    /// Before construction completes only resizes and redraw requests are
    /// meaningful: a nonzero resize overwrites the buffered size, a
    /// zero-area resize is dropped, a redraw request sets the flag, and
    /// every other event is discarded. Afterwards the event goes to the
    /// instance: close requests ask the host to exit, a zero-area resize is
    /// reported as "minimized" and never reaches the surface, input events
    /// are forwarded, and a redraw request yields the frame plan.
    pub fn window_event(&mut self, event: Event) -> (effect: Effect)
        requires
            old(self).wf(),
        ensures
            (*final(self), effect) == old(self).spec_window_event(event),
            final(self).wf(),
    {
        if self.app.is_none() {
            match event {
                Event::Resized(s) => {
                    if s.width > 0 && s.height > 0 {
                        self.missed_resize = Some(s);
                    }
                },
                Event::RedrawRequested => {
                    self.missed_request_redraw = true;
                },
                _ => {},
            }
            return Effect::Ignored;
        }

        let mut app = self.app.unwrap();
        match event {
            Event::CloseRequested => Effect::Exit,
            Event::Resized(s) => {
                if s.width == 0 || s.height == 0 {
                    Effect::Minimized
                } else {
                    app.set_window_resized(s);
                    self.app = Some(app);
                    Effect::Resized(s)
                }
            },
            Event::KeyboardInput => Effect::ForwardKeyboard,
            Event::MouseWheel => Effect::ForwardMouseWheel,
            Event::MouseInput => Effect::ForwardMouseClick,
            Event::CursorMoved => Effect::ForwardCursorMove,
            Event::RedrawRequested => {
                let plan = app.render();
                self.app = Some(app);
                Effect::Render(plan)
            },
            Event::Other => Effect::Ignored,
        }
    }

    /// Dispatch one device-level event: it is forwarded to the instance if
    /// and only if one is constructed, and dropped otherwise.
    pub fn device_event(&self) -> (forward: bool)
        ensures
            forward == (self.app is Some),
    {
        self.app.is_some()
    }
}

/// Classify the outcome of a frame. A lost surface and any other render
/// error are absorbed where they arise: the frame is skipped, a diagnostic
/// is owed, and the next redraw is requested regardless, so no render
/// failure ever reaches the event-dispatch layer or terminates the process.
pub fn render_follow_up(outcome: RenderOutcome) -> (r: RenderFollowUp)
    ensures
        r.request_redraw,
        r.diagnostic == (match outcome {
            RenderOutcome::Success => Option::<RenderDiagnostic>::None,
            RenderOutcome::SurfaceLost => Some(RenderDiagnostic::SurfaceLost),
            RenderOutcome::OtherError => Some(RenderDiagnostic::RenderError),
        }),
{
    let diagnostic = match outcome {
        RenderOutcome::Success => None,
        RenderOutcome::SurfaceLost => Some(RenderDiagnostic::SurfaceLost),
        RenderOutcome::OtherError => Some(RenderDiagnostic::RenderError),
    };
    RenderFollowUp { diagnostic, request_redraw: true }
}

} // verus!
