//! The controller's behavior around deferred construction: buffering,
//! reconciliation, dispatch, and render-failure absorption.

use deferred_app::{
    render_follow_up, Effect, Event, FramePlan, RenderDiagnostic, RenderOutcome, Size, WgpuApp,
    WgpuAppHandler,
};

fn size(width: u32, height: u32) -> Size {
    Size::new(width, height)
}

#[test]
fn activation_starts_construction_once() {
    let mut h = WgpuAppHandler::new();
    assert!(h.resumed());
    // The host may repeat the activation signal before construction
    // resolves; the controller still reports the slot empty, and the caller
    // guards double construction by re-checking before storing.
    assert!(h.resumed());
    let redraw = h.finish_construction(WgpuApp::new(size(640, 480)));
    assert!(!redraw);
    assert!(h.app.is_some());
    // A second activation after construction is a no-op.
    assert!(!h.resumed());
    assert_eq!(h.app.unwrap().config, size(640, 480));
}

#[test]
fn pre_construction_resizes_coalesce_to_last() {
    let mut h = WgpuAppHandler::new();
    assert!(h.resumed());
    assert_eq!(h.window_event(Event::Resized(size(800, 600))), Effect::Ignored);
    assert_eq!(h.window_event(Event::Resized(size(1024, 768))), Effect::Ignored);
    assert_eq!(h.missed_resize, Some(size(1024, 768)));
    let redraw = h.finish_construction(WgpuApp::new(size(640, 480)));
    assert!(!redraw);
    let app = h.app.unwrap();
    assert_eq!(app.size, size(1024, 768));
    assert!(app.size_changed);
    assert_eq!(h.missed_resize, None);
}

#[test]
fn exactly_one_reconfiguration_after_deferred_resizes() {
    let mut h = WgpuAppHandler::new();
    h.resumed();
    h.window_event(Event::Resized(size(800, 600)));
    h.window_event(Event::Resized(size(1024, 768)));
    h.finish_construction(WgpuApp::new(size(640, 480)));
    // The next frame reconfigures once, with the last size only.
    assert_eq!(
        h.window_event(Event::RedrawRequested),
        Effect::Render(FramePlan::Draw { reconfigure: Some(size(1024, 768)) })
    );
    // The frame after that has nothing left to reconfigure.
    assert_eq!(
        h.window_event(Event::RedrawRequested),
        Effect::Render(FramePlan::Draw { reconfigure: None })
    );
    assert_eq!(h.app.unwrap().config, size(1024, 768));
}

#[test]
fn pre_construction_redraws_collapse_to_one() {
    let mut h = WgpuAppHandler::new();
    h.resumed();
    assert_eq!(h.window_event(Event::RedrawRequested), Effect::Ignored);
    assert_eq!(h.window_event(Event::RedrawRequested), Effect::Ignored);
    assert_eq!(h.window_event(Event::RedrawRequested), Effect::Ignored);
    assert!(h.missed_request_redraw);
    let redraw = h.finish_construction(WgpuApp::new(size(640, 480)));
    // Exactly one redraw request is owed, and the flag is spent.
    assert!(redraw);
    assert!(!h.missed_request_redraw);
}

#[test]
fn zero_resize_dropped_while_buffering() {
    let mut h = WgpuAppHandler::new();
    h.resumed();
    assert_eq!(h.window_event(Event::Resized(size(0, 0))), Effect::Ignored);
    assert_eq!(h.missed_resize, None);
    let redraw = h.finish_construction(WgpuApp::new(size(640, 480)));
    assert!(!redraw);
    let app = h.app.unwrap();
    // No resize was applied: the instance keeps its construction-time size.
    assert_eq!(app.size, size(640, 480));
    assert!(!app.size_changed);
}

#[test]
fn other_events_discarded_while_buffering() {
    let mut h = WgpuAppHandler::new();
    h.resumed();
    let before = h;
    assert_eq!(h.window_event(Event::CloseRequested), Effect::Ignored);
    assert_eq!(h.window_event(Event::KeyboardInput), Effect::Ignored);
    assert_eq!(h.window_event(Event::MouseInput), Effect::Ignored);
    assert_eq!(h.window_event(Event::MouseWheel), Effect::Ignored);
    assert_eq!(h.window_event(Event::CursorMoved), Effect::Ignored);
    assert_eq!(h.window_event(Event::Other), Effect::Ignored);
    assert_eq!(h, before);
}

#[test]
fn zero_resize_after_construction_is_minimized_only() {
    let mut h = WgpuAppHandler::new();
    h.resumed();
    h.finish_construction(WgpuApp::new(size(640, 480)));
    let before = h;
    assert_eq!(h.window_event(Event::Resized(size(0, 0))), Effect::Minimized);
    assert_eq!(h.window_event(Event::Resized(size(0, 600))), Effect::Minimized);
    assert_eq!(h.window_event(Event::Resized(size(800, 0))), Effect::Minimized);
    // The state is untouched, so no reconfiguration can follow from it.
    assert_eq!(h, before);
    assert_eq!(
        h.window_event(Event::RedrawRequested),
        Effect::Render(FramePlan::Draw { reconfigure: None })
    );
}

#[test]
fn post_construction_dispatch() {
    let mut h = WgpuAppHandler::new();
    h.resumed();
    h.finish_construction(WgpuApp::new(size(640, 480)));
    assert_eq!(h.window_event(Event::KeyboardInput), Effect::ForwardKeyboard);
    assert_eq!(h.window_event(Event::MouseWheel), Effect::ForwardMouseWheel);
    assert_eq!(h.window_event(Event::MouseInput), Effect::ForwardMouseClick);
    assert_eq!(h.window_event(Event::CursorMoved), Effect::ForwardCursorMove);
    assert_eq!(h.window_event(Event::Other), Effect::Ignored);
    assert_eq!(h.window_event(Event::CloseRequested), Effect::Exit);
    assert_eq!(
        h.window_event(Event::Resized(size(800, 600))),
        Effect::Resized(size(800, 600))
    );
}

#[test]
fn device_events_forwarded_only_once_constructed() {
    let mut h = WgpuAppHandler::new();
    assert!(!h.device_event());
    h.resumed();
    assert!(!h.device_event());
    h.finish_construction(WgpuApp::new(size(640, 480)));
    assert!(h.device_event());
}

#[test]
fn suspension_keeps_state() {
    let mut h = WgpuAppHandler::new();
    h.resumed();
    h.finish_construction(WgpuApp::new(size(640, 480)));
    let before = h;
    h.suspended();
    assert_eq!(h, before);
}

#[test]
fn render_errors_are_absorbed() {
    let ok = render_follow_up(RenderOutcome::Success);
    assert_eq!(ok.diagnostic, None);
    assert!(ok.request_redraw);

    let lost = render_follow_up(RenderOutcome::SurfaceLost);
    assert_eq!(lost.diagnostic, Some(RenderDiagnostic::SurfaceLost));
    assert!(lost.request_redraw);

    let other = render_follow_up(RenderOutcome::OtherError);
    assert_eq!(other.diagnostic, Some(RenderDiagnostic::RenderError));
    assert!(other.request_redraw);
}

#[test]
fn redraw_deferred_until_after_resize_reconciliation() {
    let mut h = WgpuAppHandler::new();
    h.resumed();
    h.window_event(Event::RedrawRequested);
    h.window_event(Event::Resized(size(1024, 768)));
    let redraw = h.finish_construction(WgpuApp::new(size(640, 480)));
    // The deferred redraw is issued only now, after the buffered resize was
    // applied, so it cannot use the stale construction-time size.
    assert!(redraw);
    assert_eq!(h.app.unwrap().size, size(1024, 768));
}
