use crate::common::math::{div_trunc, trunc_div};
use crate::common::pt::{fits_i32, Pt};
use crate::game::gamestate::GRID;
use vstd::prelude::*;

verus! {

/// The part of the world that a display shows: the world position of the
/// display's top-left corner and how many world pixels go into one display
/// pixel.
pub struct Viewport {
    disp_dim: Pt,
    origin: Pt,
    zoom: i32,
}

impl Viewport {
    /// Width and height of the display, in display pixels.
    pub closed spec fn dim(&self) -> Pt {
        self.disp_dim
    }

    /// The world position shown in the display's top-left corner.
    pub closed spec fn origin(&self) -> Pt {
        self.origin
    }

    /// How many world pixels go into one display pixel.
    pub closed spec fn zoom(&self) -> int {
        self.zoom as int
    }

    /// The view of a display of size `disp_dim` that shows world position
    /// `center` in its middle, at zoom 1.
    pub fn with_center(disp_dim: (i32, i32), center: Pt) -> (v: Self)
        requires
            disp_dim.0 >= 0,
            disp_dim.1 >= 0,
            fits_i32(center.0 - trunc_div(disp_dim.0 as int, 2)),
            fits_i32(center.1 - trunc_div(disp_dim.1 as int, 2)),
        ensures
            v.dim() == Pt(disp_dim.0, disp_dim.1),
            v.origin().0 == center.0 - trunc_div(disp_dim.0 as int, 2),
            v.origin().1 == center.1 - trunc_div(disp_dim.1 as int, 2),
            v.zoom() == 1,
    {
        let (w, h) = disp_dim;
        let origin = center - Pt(div_trunc(w, 2), div_trunc(h, 2));
        Self::with_origin(disp_dim, origin)
    }

    /// The view of a display of size `disp_dim` that shows world position
    /// `origin` in its top-left corner, at zoom 1.
    pub fn with_origin(disp_dim: (i32, i32), origin: Pt) -> (v: Self)
        ensures
            v.dim() == Pt(disp_dim.0, disp_dim.1),
            v.origin() == origin,
            v.zoom() == 1,
    {
        Self::with_zoom(disp_dim, origin, 1)
    }

    /// The view of a display of size `disp_dim` that shows world position
    /// `origin` in its top-left corner, with `zoom` world pixels to one
    /// display pixel.
    pub fn with_zoom(disp_dim: (i32, i32), origin: Pt, zoom: i32) -> (v: Self)
        ensures
            v.dim() == Pt(disp_dim.0, disp_dim.1),
            v.origin() == origin,
            v.zoom() == zoom,
    {
        Self { disp_dim: Pt(disp_dim.0, disp_dim.1), origin, zoom }
    }

    /// Where on the display the world position `rel` is shown.
    pub fn to_screen(&self, rel: Pt) -> (p: Pt)
        requires
            self.zoom() >= 1,
            fits_i32(rel.0 - self.origin().0),
            fits_i32(rel.1 - self.origin().1),
        ensures
            p.0 == trunc_div(rel.0 - self.origin().0, self.zoom()),
            p.1 == trunc_div(rel.1 - self.origin().1, self.zoom()),
    {
        (rel - self.origin) / self.zoom
    }

    /// How large something of world size `dim` is on the display.
    pub fn scale_dim(&self, dim: (i32, i32)) -> (d: (i32, i32))
        requires
            self.zoom() >= 1,
        ensures
            d.0 == trunc_div(dim.0 as int, self.zoom()),
            d.1 == trunc_div(dim.1 as int, self.zoom()),
    {
        (div_trunc(dim.0, self.zoom), div_trunc(dim.1, self.zoom))
    }

    /// The range of grid cells that the display shows, with one cell to
    /// spare on every side: the first cell, and the cell after the last.
    pub fn visible_blocks(&self) -> (r: ((i32, i32), (i32, i32)))
        requires
            fits_i32(self.dim().0 * self.zoom()),
            fits_i32(self.dim().1 * self.zoom()),
            fits_i32(self.origin().0 + self.dim().0 * self.zoom()),
            fits_i32(self.origin().1 + self.dim().1 * self.zoom()),
        ensures
            r.0.0 == trunc_div(self.origin().0 as int, 64) - 1,
            r.0.1 == trunc_div(self.origin().1 as int, 64) - 1,
            r.1.0 == trunc_div(self.origin().0 + self.dim().0 * self.zoom(), 64) + 1,
            r.1.1 == trunc_div(self.origin().1 + self.dim().1 * self.zoom(), 64) + 1,
    {
        let dim = self.disp_dim * self.zoom;
        let ptmin = self.origin;
        let ptmax = ptmin + dim;
        proof {
            lemma_cell_range(ptmin.0 as int);
            lemma_cell_range(ptmin.1 as int);
            lemma_cell_range(ptmax.0 as int);
            lemma_cell_range(ptmax.1 as int);
        }
        let grmin: Pt = ptmin / GRID - (1i32, 1i32);
        let grmax: Pt = ptmax / GRID + (1i32, 1i32);
        (grmin.as_tuple(), grmax.as_tuple())
    }
}

/// The grid cell of a pixel coordinate is far from the ends of the range of
/// 32-bit numbers.
pub proof fn lemma_cell_range(v: int)
    requires
        fits_i32(v),
    ensures
        -0x200_0000 <= trunc_div(v, 64) <= 0x200_0000,
{
}

} // verus!
