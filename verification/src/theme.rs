//! Layout arithmetic of the terminal views.
use vstd::prelude::*;

verus! {

/// A rectangle of terminal cells.
#[derive(Clone, Copy, Debug, PartialEq, Eq, Structural)]
pub struct Area {
    pub x: u16,
    pub y: u16,
    pub width: u16,
    pub height: u16,
}

impl Area {
    /// The rectangle lies on the addressable grid.
    pub open spec fn fits(self) -> bool {
        self.x + self.width <= u16::MAX && self.y + self.height <= u16::MAX
    }

    /// `inner` lies within this rectangle.
    pub open spec fn holds(self, inner: Area) -> bool {
        &&& self.x <= inner.x
        &&& inner.x + inner.width <= self.x + self.width
        &&& self.y <= inner.y
        &&& inner.y + inner.height <= self.y + self.height
    }
}

/// The `width` by `height` rectangle centred in `area`, shrunk to fit it.
pub open spec fn spec_centered(area: Area, width: u16, height: u16) -> Area {
    let w = if width < area.width {
        width
    } else {
        area.width
    };
    let h = if height < area.height {
        height
    } else {
        area.height
    };
    Area {
        x: (area.x + (area.width - w) / 2) as u16,
        y: (area.y + (area.height - h) / 2) as u16,
        width: w,
        height: h,
    }
}

/// Centres a `width` by `height` rectangle in `area`.
pub fn centered(area: Area, width: u16, height: u16) -> (r: Area)
    requires
        area.fits(),
    ensures
        r == spec_centered(area, width, height),
{
    let w = if width < area.width {
        width
    } else {
        area.width
    };
    let h = if height < area.height {
        height
    } else {
        area.height
    };
    Area { x: area.x + (area.width - w) / 2, y: area.y + (area.height - h) / 2, width: w, height: h }
}

/// Law: a centred rectangle never leaves the area it is centred in, and
/// keeps the requested size wherever the area is large enough.
pub proof fn law_centered_stays_inside(area: Area, width: u16, height: u16)
    requires
        area.fits(),
    ensures
        area.holds(spec_centered(area, width, height)),
        width <= area.width ==> spec_centered(area, width, height).width == width,
        height <= area.height ==> spec_centered(area, width, height).height == height,
{
}

} // verus!
