//! The per-application presentation state: the latest reported window size
//! and the size the surface is actually configured with.
//!
//! A resize never reconfigures the surface inline. It only records the new
//! target size and marks it dirty; the reconfiguration happens at the start
//! of the next frame, once, with the most recent size. This coalesces bursts
//! of resize events that arrive faster than the render cadence.
//!
//! The GPU objects themselves (surface, device, queue) live with the caller;
//! this type holds the decision state that drives them.

use vstd::prelude::*;
use crate::size::Size;
use crate::event::FramePlan;

verus! {

/// The resize-coalescing state of one application instance.
#[derive(Clone, Copy, Debug, PartialEq, Eq)]
pub struct WgpuApp {
    /// The most recent window size reported by the host.
    pub size: Size,
    /// Whether `size` has changed since the surface was last configured.
    pub size_changed: bool,
    /// The size the presentation surface is currently configured with.
    pub config: Size,
}

impl WgpuApp {
    /// Well-formedness: the configured surface never has zero area.
    pub open spec fn wf(self) -> bool {
        !self.config.is_zero_area()
    }

    /// What `set_window_resized` does to the state.
    pub open spec fn spec_set_window_resized(self, new_size: Size) -> WgpuApp {
        if new_size == self.size {
            self
        } else {
            WgpuApp { size: new_size, size_changed: true, ..self }
        }
    }

    /// What `render` does to the state, and the plan it hands back.
    pub open spec fn spec_render(self) -> (WgpuApp, FramePlan) {
        if self.size.is_zero_area() {
            (self, FramePlan::Skip)
        } else if self.size_changed {
            (
                WgpuApp { size_changed: false, config: self.size, ..self },
                FramePlan::Draw { reconfigure: Some(self.size) },
            )
        } else {
            (self, FramePlan::Draw { reconfigure: None })
        }
    }

    /// Start the state for a freshly constructed instance whose surface was
    /// just configured with `initial` clamped to a minimum of 1 per
    /// dimension (a zero-area configuration is illegal).
    pub fn new(initial: Size) -> (r: WgpuApp)
        ensures
            r == (WgpuApp {
                size: initial.spec_clamped(),
                size_changed: false,
                config: initial.spec_clamped(),
            }),
            r.wf(),
    {
        let clamped = initial.clamped();
        WgpuApp { size: clamped, size_changed: false, config: clamped }
    }

    /// Record that the window size changed. The surface is not touched; the
    /// next frame will reconfigure it. Reporting the size already held is a
    /// no-op and does not mark the state dirty.
    pub fn set_window_resized(&mut self, new_size: Size)
        ensures
            *final(self) == old(self).spec_set_window_resized(new_size),
            final(self).size == new_size,
            final(self).config == old(self).config,
            old(self).wf() ==> final(self).wf(),
    {
        if new_size == self.size {
            return;
        }
        self.size = new_size;
        self.size_changed = true;
    }

    /// The size of the configured presentation surface.
    pub fn get_size(&self) -> (r: Size)
        ensures
            r == self.config,
    {
        self.config
    }

    /// Decide what the next frame must do. A zero-area target size skips the
    /// frame entirely; otherwise the frame is drawn, preceded by exactly one
    /// surface reconfiguration if and only if the size is dirty.
    pub fn render(&mut self) -> (plan: FramePlan)
        ensures
            (*final(self), plan) == old(self).spec_render(),
            old(self).wf() ==> final(self).wf(),
            !final(self).size_changed || final(self).size.is_zero_area(),
    {
        if self.size.width == 0 || self.size.height == 0 {
            return FramePlan::Skip;
        }
        let reconfigure = self.resize_surface_if_needed();
        FramePlan::Draw { reconfigure }
    }

    /// If the target size is dirty, adopt it as the configured size and hand
    /// it back so the caller reconfigures the surface with it; otherwise do
    /// nothing. Callers guard against a zero-area target first, so the
    /// configuration stays legal.
    fn resize_surface_if_needed(&mut self) -> (r: Option<Size>)
        requires
            old(self).size_changed ==> !old(self).size.is_zero_area(),
        ensures
            r == (if old(self).size_changed { Some(old(self).size) } else { Option::<Size>::None }),
            *final(self) == (WgpuApp {
                size_changed: false,
                config: if old(self).size_changed { old(self).size } else { old(self).config },
                ..*old(self)
            }),
            old(self).wf() ==> final(self).wf(),
    {
        if self.size_changed {
            self.config = self.size;
            self.size_changed = false;
            Some(self.config)
        } else {
            None
        }
    }
}

} // verus!
