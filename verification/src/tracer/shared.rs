use crate::common::math::max;
use crate::common::vector2::{Int2, Usize2};
use crate::tracer::color::BGRA;
use crate::tracer::surface::{max_level, Surface};
use crate::tracer::tilekey::{in_palette, TileKey};
use std::sync::Arc;
use vstd::prelude::*;

verus! {

/// The highest levels of the surfaces that `k` names: of its nine cells, row
/// after row, and then of its overlay if it has one.
pub open spec fn top_levels(pal: Seq<Surface>, k: TileKey) -> Seq<u8> {
    let cells = seq![
        pal[k.cell(0, 0) as int].spec_hm_max(),
        pal[k.cell(1, 0) as int].spec_hm_max(),
        pal[k.cell(2, 0) as int].spec_hm_max(),
        pal[k.cell(0, 1) as int].spec_hm_max(),
        pal[k.cell(1, 1) as int].spec_hm_max(),
        pal[k.cell(2, 1) as int].spec_hm_max(),
        pal[k.cell(0, 2) as int].spec_hm_max(),
        pal[k.cell(1, 2) as int].spec_hm_max(),
        pal[k.cell(2, 2) as int].spec_hm_max(),
    ];
    if k.goody != 0 {
        cells.push(pal[k.goody as int].spec_hm_max())
    } else {
        cells
    }
}

/// Whether the overlay of `chunk` covers pixel `pix`: there is an overlay
/// and its diffuse map is not fully transparent there.
pub open spec fn overlay_shows(pal: Seq<Surface>, chunk: TileKey, pix: Int2) -> bool {
    chunk.goody != 0 && pal[chunk.goody as int].diffuse_map().pixel(pix.0 as int, pix.1 as int).3
        != 0
}

/// The surface that is on top at pixel `pix` of the centre block: the
/// overlay where it shows, else the centre block.
pub open spec fn top_block(pal: Seq<Surface>, chunk: TileKey, pix: Int2) -> u8 {
    if overlay_shows(pal, chunk, pix) {
        chunk.goody
    } else {
        chunk.cell(1, 1)
    }
}

/// Whether `pix` is a pixel of both maps of the centre block of `chunk`
/// and, if it has an overlay, of both maps of the overlay.
pub open spec fn pixel_in_tile(pal: Seq<Surface>, chunk: TileKey, pix: Int2) -> bool {
    let c = pal[chunk.cell(1, 1) as int];
    let g = pal[chunk.goody as int];
    &&& c.covers(pix)
    &&& c.diffuse_map().contains(pix.0 as int, pix.1 as int)
    &&& chunk.goody != 0 ==> g.covers(pix) && g.diffuse_map().contains(
        pix.0 as int,
        pix.1 as int,
    )
}

/// The read-only data that every worker needs to render a tile: the
/// palette of surfaces.
pub struct SharedData {
    palette: Arc<Vec<Surface>>,
}

impl SharedData {
    /// The surfaces, by block identifier.
    pub closed spec fn palette(&self) -> Seq<Surface> {
        self.palette@
    }

    pub fn new(palette: Arc<Vec<Surface>>) -> (s: Self)
        ensures
            s.palette() == palette@,
    {
        Self { palette }
    }

    /// The surface of block `id`.
    pub fn surface(&self, id: u8) -> (s: &Surface)
        requires
            id < self.palette().len(),
        ensures
            *s == self.palette()[id as int],
    {
        &self.palette[id as usize]
    }

    /// The highest level of all surfaces in this tile. A ray that has risen
    /// above it can hit nothing any more.
    pub fn max_height(&self, k: TileKey) -> (level: u8)
        requires
            in_palette(self.palette(), k),
        ensures
            level == max_level(top_levels(self.palette(), k)),
    {
        let b = &k.blocks;
        let ghost pal = self.palette();
        proof {
            let n = pal.len();
            assert(k.cell(0, 0) < n && k.cell(1, 0) < n && k.cell(2, 0) < n);
            assert(k.cell(0, 1) < n && k.cell(1, 1) < n && k.cell(2, 1) < n);
            assert(k.cell(0, 2) < n && k.cell(1, 2) < n && k.cell(2, 2) < n);
        }
        let order: [u8; 9] = [
            b[0][0],
            b[0][1],
            b[0][2],
            b[1][0],
            b[1][1],
            b[1][2],
            b[2][0],
            b[2][1],
            b[2][2],
        ];
        let ghost cells = top_levels(pal, (TileKey { blocks: k.blocks, goody: 0 }));
        let mut mx: u8 = 0;
        let mut i: usize = 0;
        while i < 9
            invariant
                i <= 9,
                pal == self.palette(),
                cells.len() == 9,
                forall|j: int|
                    0 <= j < 9 ==> (#[trigger] order@[j]) < pal.len() && cells[j]
                        == pal[order@[j] as int].spec_hm_max(),
                mx == max_level(cells.take(i as int)),
            decreases 9 - i,
        {
            proof {
                assert(cells.take(i + 1).drop_last() =~= cells.take(i as int));
                assert(order@[i as int] < pal.len());
            }
            mx = max(mx, self.palette[order[i] as usize].hm_max());
            i += 1;
        }
        proof {
            assert(cells.take(9) =~= cells);
        }
        if k.goody != 0 {
            proof {
                let all = top_levels(pal, k);
                assert(all.drop_last() =~= cells);
            }
            mx = max(mx, self.palette[k.goody as usize].hm_max());
        } else {
            proof {
                assert(top_levels(pal, k) =~= cells);
            }
        }
        mx
    }

    /// The diffuse colours at pixel `pix` of the centre block: that of the
    /// block itself and, if the tile has an overlay, that of the overlay,
    /// which is to be blended over it.
    pub fn diffuse_layers(&self, chunk: TileKey, pix: Int2) -> (layers: (BGRA, Option<BGRA>))
        requires
            in_palette(self.palette(), chunk),
            pixel_in_tile(self.palette(), chunk, pix),
        ensures
            layers.0 == self.palette()[chunk.cell(1, 1) as int].diffuse_map().pixel(
                pix.0 as int,
                pix.1 as int,
            ),
            layers.1 == if chunk.goody != 0 {
                Some(
                    self.palette()[chunk.goody as int].diffuse_map().pixel(
                        pix.0 as int,
                        pix.1 as int,
                    ),
                )
            } else {
                None
            },
    {
        proof {
            assert(chunk.cell(1, 1) < self.palette().len());
        }
        let dm = self.palette[chunk.center() as usize].diffuse_at(pix);
        if chunk.goody != 0 {
            let fg = self.palette[chunk.goody as usize].diffuse_at(pix);
            (dm, Some(fg))
        } else {
            (dm, None)
        }
    }

    /// The block whose surface is on top at pixel `pix` of the centre
    /// block: the overlay where it shows, else the centre block. Height and
    /// normal at `pix` are those of this surface.
    pub fn top_surface(&self, chunk: TileKey, pix: Int2) -> (id: u8)
        requires
            in_palette(self.palette(), chunk),
            pixel_in_tile(self.palette(), chunk, pix),
        ensures
            id == top_block(self.palette(), chunk, pix),
            id < self.palette().len(),
            self.palette()[id as int].covers(pix),
    {
        proof {
            assert(chunk.cell(1, 1) < self.palette().len());
        }
        if chunk.goody != 0 {
            let dm = self.palette[chunk.goody as usize].diffuse_at(pix);
            if dm.a() != 0 {
                return chunk.goody;
            }
        }
        chunk.center()
    }

    /// The height level at pixel `pix` of the centre block.
    pub fn height_at(&self, chunk: TileKey, pix: Int2) -> (level: u8)
        requires
            in_palette(self.palette(), chunk),
            pixel_in_tile(self.palette(), chunk, pix),
        ensures
            level == self.palette()[top_block(
                self.palette(),
                chunk,
                pix,
            ) as int].height_map().pixel(pix.0 as int, pix.1 as int),
    {
        let id = self.top_surface(chunk, pix);
        self.palette[id as usize].height_at(pix)
    }

    /// The height level in tile `tile` of the neighbourhood, at the pixel of
    /// the tile's block nearest to `pix`. In the centre tile of a key with an
    /// overlay it is the higher of the block's level there and the overlay's
    /// level at its pixel nearest to `overlay_pix`.
    #[inline]
    pub fn height_at_pos(
        &self,
        chunk: TileKey,
        tile: Usize2,
        pix: Int2,
        overlay_pix: Int2,
    ) -> (level: u8)
        requires
            in_palette(self.palette(), chunk),
            tile.0 < 3,
            tile.1 < 3,
            has_pixels(self.palette()[chunk.cell(tile.0 as int, tile.1 as int) as int]),
            chunk.goody != 0 && tile.0 == 1 && tile.1 == 1 ==> has_pixels(
                self.palette()[chunk.goody as int],
            ),
        ensures
            level == height_in_tile(self.palette(), chunk, tile, pix, overlay_pix),
    {
        proof {
            assert(chunk.cell(tile.0 as int, tile.1 as int) < self.palette().len());
        }
        let blk = chunk.blocks[tile.1][tile.0];
        if chunk.goody != 0 && tile.0 == 1 && tile.1 == 1 {
            let bg = self.palette[blk as usize].height_at_uv(pix);
            let fg = self.palette[chunk.goody as usize].height_at_uv(overlay_pix);
            return max(fg, bg);
        }
        self.palette[blk as usize].height_at_uv(pix)
    }
}

/// Whether surface `s` has at least one pixel.
pub open spec fn has_pixels(s: Surface) -> bool {
    s.height_map().spec_width() > 0 && s.height_map().spec_height() > 0
}

/// The level of surface `s` at its pixel nearest to `pix`.
pub open spec fn nearest_level(s: Surface, pix: Int2) -> u8 {
    s.height_map().pixel(
        crate::tracer::surface::clamped(pix.0 as int, s.height_map().spec_width() as int),
        crate::tracer::surface::clamped(pix.1 as int, s.height_map().spec_height() as int),
    )
}

/// The height level in tile `tile` of `chunk`: that of the tile's block at
/// its pixel nearest to `pix`; in the centre tile of a key with an overlay,
/// the higher of that and the overlay's level at its pixel nearest to
/// `overlay_pix`.
pub open spec fn height_in_tile(
    pal: Seq<Surface>,
    chunk: TileKey,
    tile: Usize2,
    pix: Int2,
    overlay_pix: Int2,
) -> u8 {
    let bg = nearest_level(pal[chunk.cell(tile.0 as int, tile.1 as int) as int], pix);
    if chunk.goody != 0 && tile.0 == 1 && tile.1 == 1 {
        let fg = nearest_level(pal[chunk.goody as int], overlay_pix);
        if fg > bg {
            fg
        } else {
            bg
        }
    } else {
        bg
    }
}

} // verus!
