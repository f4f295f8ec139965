//! The rectangles that map a surface's buffer to its place on screen.

use vstd::prelude::*;
use crate::util::size::{Geometry, Size};

verus! {

/// The source and destination rectangles of a surface's viewport, both with
/// their origin at zero.
#[derive(Clone, Copy, Debug, PartialEq, Eq)]
pub struct Viewport {
    /// Width and height of the part of the buffer that is shown, in physical
    /// pixels.
    pub source: (u64, u64),
    /// Width and height that this part takes on the surface, in logical units.
    pub destination: (u32, u32),
}

impl Viewport {
    /// The viewport shows a buffer of the geometry's physical size at the
    /// geometry's logical size.
    pub open spec fn fits(self, geometry: Geometry) -> bool {
        &&& (self.source.0 as int, self.source.1 as int) == geometry.physical()
        &&& self.destination == geometry.logical
    }

    /// The viewport for a geometry.
    pub open spec fn of(geometry: Geometry) -> Viewport {
        Viewport {
            source: (geometry.physical().0 as u64, geometry.physical().1 as u64),
            destination: geometry.logical,
        }
    }

    /// The viewport for a surface of the given geometry: the source is its
    /// physical size, the destination its logical size.
    pub fn for_size(size: &Size) -> (viewport: Viewport)
        ensures
            viewport == Viewport::of(size@),
            viewport.fits(size@),
    {
        Viewport { source: size.physical_size(), destination: size.logical_size() }
    }
}

} // verus!
