//! The per-instance resize-coalescing state and size clamping.

use deferred_app::{FramePlan, Size, WgpuApp};

fn size(width: u32, height: u32) -> Size {
    Size::new(width, height)
}

#[test]
fn construction_clamps_zero_dimensions() {
    assert_eq!(WgpuApp::new(size(0, 0)).config, size(1, 1));
    assert_eq!(WgpuApp::new(size(0, 600)).config, size(1, 600));
    assert_eq!(WgpuApp::new(size(800, 0)).config, size(800, 1));
    assert_eq!(WgpuApp::new(size(800, 600)).config, size(800, 600));
}

#[test]
fn clamped_keeps_large_sizes() {
    let s = size(u32::MAX, u32::MAX).clamped();
    assert_eq!(s, size(u32::MAX, u32::MAX));
}

#[test]
fn resize_marks_dirty_without_touching_surface() {
    let mut app = WgpuApp::new(size(640, 480));
    app.set_window_resized(size(800, 600));
    assert_eq!(app.size, size(800, 600));
    assert!(app.size_changed);
    // The configured size changes only at the next frame.
    assert_eq!(app.config, size(640, 480));
    assert_eq!(app.get_size(), size(640, 480));
}

#[test]
fn resize_to_current_size_is_a_no_op() {
    let mut app = WgpuApp::new(size(640, 480));
    app.set_window_resized(size(640, 480));
    assert!(!app.size_changed);
    assert_eq!(app.render(), FramePlan::Draw { reconfigure: None });
}

#[test]
fn frame_reconfigures_once_with_latest_size() {
    let mut app = WgpuApp::new(size(640, 480));
    app.set_window_resized(size(800, 600));
    app.set_window_resized(size(1024, 768));
    assert_eq!(
        app.render(),
        FramePlan::Draw { reconfigure: Some(size(1024, 768)) }
    );
    assert_eq!(app.config, size(1024, 768));
    assert_eq!(app.render(), FramePlan::Draw { reconfigure: None });
}

#[test]
fn zero_area_target_skips_the_frame() {
    let mut app = WgpuApp::new(size(640, 480));
    app.set_window_resized(size(0, 0));
    assert_eq!(app.render(), FramePlan::Skip);
    // The surface keeps its last legal configuration.
    assert_eq!(app.config, size(640, 480));
    // A later legal resize recovers.
    app.set_window_resized(size(300, 200));
    assert_eq!(
        app.render(),
        FramePlan::Draw { reconfigure: Some(size(300, 200)) }
    );
}
