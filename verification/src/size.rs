//! Window and surface sizes in physical pixels.

use vstd::prelude::*;

verus! {

/// A width/height pair in physical pixels.
#[derive(Clone, Copy, Debug, PartialEq, Eq, Structural)]
pub struct Size {
    pub width: u32,
    pub height: u32,
}

impl Size {
    /// A size is a legal presentation-surface configuration only if both
    /// dimensions are nonzero.
    pub open spec fn is_zero_area(self) -> bool {
        self.width == 0 || self.height == 0
    }

    /// The size with both dimensions raised to a minimum of 1, the smallest
    /// legal surface configuration.
    pub open spec fn spec_clamped(self) -> Size {
        Size {
            width: if self.width == 0 { 1u32 } else { self.width },
            height: if self.height == 0 { 1u32 } else { self.height },
        }
    }

    /// Clamp both dimensions to a minimum of 1, so the result can configure a
    /// presentation surface.
    pub fn clamped(self) -> (r: Size)
        ensures
            r == self.spec_clamped(),
            !r.is_zero_area(),
    {
        Size {
            width: if self.width == 0 { 1 } else { self.width },
            height: if self.height == 0 { 1 } else { self.height },
        }
    }

    /// Build a size from its two dimensions.
    pub fn new(width: u32, height: u32) -> (r: Size)
        ensures
            r == (Size { width, height }),
    {
        Size { width, height }
    }
}

} // verus!
