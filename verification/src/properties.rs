//! Display geometry: fixed panel sizes and the four logical rotations.

use vstd::prelude::*;

verus! {

/// The four supported display orientations. Changing the rotation
/// reconfigures the controller's remap register and swaps the logical
/// width and height for the quarter turns.
#[derive(Clone, Copy, Debug, PartialEq, Eq, Structural)]
pub enum DisplayRotation {
    Rotate0,
    Rotate90,
    Rotate180,
    Rotate270,
}

/// The fixed panel geometries this controller drives, chosen at
/// construction and immutable afterwards.
#[derive(Clone, Copy, Debug, PartialEq, Eq, Structural)]
pub enum DisplaySize {
    Display128x128,
    Display128x96,
}

impl DisplaySize {
    /// Physical panel width in pixels, independent of rotation.
    pub open spec fn spec_width(self) -> u8 {
        match self {
            DisplaySize::Display128x128 => 128,
            DisplaySize::Display128x96 => 128,
        }
    }

    /// Physical panel height in pixels, independent of rotation.
    pub open spec fn spec_height(self) -> u8 {
        match self {
            DisplaySize::Display128x128 => 128,
            DisplaySize::Display128x96 => 96,
        }
    }

    /// (width, height) of the unrotated panel.
    pub fn dimensions(self) -> (r: (u8, u8))
        ensures
            r.0 == self.spec_width(),
            r.1 == self.spec_height(),
    {
        match self {
            DisplaySize::Display128x128 => (128, 128),
            DisplaySize::Display128x96 => (128, 96),
        }
    }
}

/// Whether a rotation exchanges the logical x and y axes.
pub open spec fn swaps_axes(r: DisplayRotation) -> bool {
    r is Rotate90 || r is Rotate270
}

} // verus!
