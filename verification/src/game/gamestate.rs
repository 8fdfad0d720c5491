use crate::common::math::{clamp, div_trunc, rem_trunc, trunc_div, trunc_rem};
use crate::common::pt::{fits_i32, Pt};
use crate::game::hamster::{Hamster, WORLD_LIMIT};
use crate::game::key::{Key, KeyDebouncer};
use crate::game::map::GameMap;
use crate::game::texture::Texture;
use std::rc::Rc;
use vstd::prelude::*;

verus! {

/// The width and height of a tile, in pixels.
pub const GRID: usize = 64;

/// How far the middle of the view may lag behind the hamster, in pixels.
pub const VIEW_SLACK: i32 = 128;

/// `v` limited to the range from `lo` to `hi`.
pub open spec fn clamped_to(v: int, lo: int, hi: int) -> int {
    if v < lo {
        lo
    } else if v > hi {
        hi
    } else {
        v
    }
}

/// Where the middle of the view goes from `view` to follow hamster `h`:
/// sideways it runs ahead by one and a half times the hamster's speed, and
/// in both directions it stays within `VIEW_SLACK` of the hamster's middle.
pub open spec fn followed(view: Pt, h: Hamster) -> Pt {
    let cy = trunc_div(2 * h.spec_pos().1 + h.height(), 2);
    Pt(
        clamped_to(
            view.0 + trunc_div(3 * h.h_speed(), 2),
            h.center_x() - 128,
            h.center_x() + 128,
        ) as i32,
        clamped_to(view.1 as int, cy - 128, cy + 128) as i32,
    )
}

/// A game in play: the map, the hamster in it, the time in ticks, the keys
/// that are down, and the world position in the middle of the view.
pub struct GameState {
    map: GameMap,
    hamster: Hamster,
    time: i32,
    key_debouncer: KeyDebouncer,
    view_center: Pt,
}

impl GameState {
    pub closed spec fn map(&self) -> GameMap {
        self.map
    }

    pub closed spec fn hamster(&self) -> Hamster {
        self.hamster
    }

    /// The time, in ticks since the game began.
    pub closed spec fn time(&self) -> int {
        self.time as int
    }

    pub closed spec fn keys(&self) -> KeyDebouncer {
        self.key_debouncer
    }

    /// The world position in the middle of the view.
    pub closed spec fn view_center(&self) -> Pt {
        self.view_center
    }

    /// The grid cell that holds the middle of the hamster.
    pub open spec fn hamster_cell(&self) -> Pt {
        Pt(
            trunc_div(self.hamster().center_x(), 64) as i32,
            trunc_div(
                trunc_div(2 * self.hamster().spec_pos().1 + self.hamster().height(), 2),
                64,
            ) as i32,
        )
    }

    /// What holds of every game: its map and its hamster are well formed.
    pub open spec fn wf(&self) -> bool {
        &&& self.map().wf()
        &&& self.hamster().wf()
    }

    /// A new game on `map`, with the hamster in grid cell (2, 2), drawn with
    /// `textures`. The tiles of the map's blocks start baking.
    pub fn new(map: GameMap, textures: [Texture; 2]) -> (g: Self)
        requires
            map.wf(),
            textures[0].image().spec_width() <= WORLD_LIMIT,
            textures[0].image().spec_height() <= WORLD_LIMIT,
        ensures
            g.wf(),
            g.time() == 0,
            g.view_center() == Pt(0i32, 0i32),
            g.hamster().spec_pos() == Pt(128i32, 128i32),
            g.hamster().frames() == textures,
            g.map().blocks() == map.blocks(),
            g.map().goodies() == map.goodies(),
            g.map().kinds() == map.kinds(),
            map.renderer().cache().submap_of(g.map().renderer().cache()),
            forall|x: int, y: int|
                0 <= y < map.blocks().blocks@.len() && 0 <= x < map.blocks().row_len(y)
                    ==> g.map().renderer().jobs().contains(
                    #[trigger] crate::tracer::tilekey::center_key(map.blocks().block(x, y)),
                ),
    {
        let mut map = map;
        map.warmup_cache();
        Self {
            map,
            hamster: Hamster::new(Pt(2, 2) * GRID, textures),
            time: 0,
            key_debouncer: KeyDebouncer::new(),
            view_center: Pt(0, 0),
        }
    }

    pub fn set_view_center(&mut self, center: Pt)
        ensures
            final(self).view_center() == center,
            final(self).map() == old(self).map(),
            final(self).hamster() == old(self).hamster(),
            final(self).time() == old(self).time(),
            final(self).keys() == old(self).keys(),
    {
        self.view_center = center;
    }

    /// The range of grid cells that a display of size `disp_dim` shows when
    /// `center` is in its middle, with one cell to spare on every side: the
    /// first cell, and the cell after the last.
    pub fn visible_blocks(center: Pt, disp_dim: (i32, i32)) -> (r: ((i32, i32), (i32, i32)))
        requires
            disp_dim.0 >= 0,
            disp_dim.1 >= 0,
            fits_i32(center.0 - trunc_div(disp_dim.0 as int, 2)),
            fits_i32(center.1 - trunc_div(disp_dim.1 as int, 2)),
            fits_i32(center.0 + trunc_div(disp_dim.0 as int, 2)),
            fits_i32(center.1 + trunc_div(disp_dim.1 as int, 2)),
        ensures
            r.0.0 == trunc_div(center.0 - trunc_div(disp_dim.0 as int, 2), 64) - 1,
            r.0.1 == trunc_div(center.1 - trunc_div(disp_dim.1 as int, 2), 64) - 1,
            r.1.0 == trunc_div(center.0 + trunc_div(disp_dim.0 as int, 2), 64) + 1,
            r.1.1 == trunc_div(center.1 + trunc_div(disp_dim.1 as int, 2), 64) + 1,
    {
        let disp_dim = Pt(disp_dim.0, disp_dim.1);
        let half = disp_dim / 2i32;
        let ptmin = center - half;
        let ptmax = center + half;
        proof {
            crate::game::viewport::lemma_cell_range(ptmin.0 as int);
            crate::game::viewport::lemma_cell_range(ptmin.1 as int);
            crate::game::viewport::lemma_cell_range(ptmax.0 as int);
            crate::game::viewport::lemma_cell_range(ptmax.1 as int);
        }
        let grmin: Pt = ptmin / GRID - (1i32, 1i32);
        let grmax: Pt = ptmax / GRID + (1i32, 1i32);
        (grmin.as_tuple(), grmax.as_tuple())
    }

    /// The world position in the top-left corner of a display of size
    /// `disp_dim` that shows `center` in its middle.
    pub fn view_origin(center: Pt, disp_dim: (i32, i32)) -> (o: Pt)
        requires
            disp_dim.0 >= 0,
            disp_dim.1 >= 0,
            fits_i32(center.0 - trunc_div(disp_dim.0 as int, 2)),
            fits_i32(center.1 - trunc_div(disp_dim.1 as int, 2)),
        ensures
            o.0 == center.0 - trunc_div(disp_dim.0 as int, 2),
            o.1 == center.1 - trunc_div(disp_dim.1 as int, 2),
    {
        let disp_dim = Pt(disp_dim.0, disp_dim.1);
        center - disp_dim / 2i32
    }

    /// Whether `after` is what one tick makes of `before`: time moves on by
    /// one, the keys that were only pressed are forgotten, the hamster lives
    /// one tick in the map with the keys that were down or pressed, it
    /// picks up the goody in the cell of its middle, and the view follows
    /// it.
    pub open spec fn ticked(before: GameState, after: GameState) -> bool {
        &&& after.wf()
        &&& after.time() == if before.time() < i32::MAX {
            before.time() + 1
        } else {
            before.time()
        }
        &&& after.map().blocks() == before.map().blocks()
        &&& after.map().renderer() == before.map().renderer()
        &&& after.map().kinds() == before.map().kinds()
        &&& forall|i: int|
            0 <= i < 8 ==> after.keys().held(i) == before.keys().held(i)
                && !after.keys().pressed(i)
        &&& Hamster::ticked(
            before.hamster(),
            after.hamster(),
            before.map(),
            after.time(),
            before.keys().held(1) || before.keys().pressed(1),
            before.keys().held(2) || before.keys().pressed(2),
            before.keys().held(5) || before.keys().pressed(5),
        )
        &&& after.map().goodies() == if before.map().goody(after.hamster_cell()) != 0 {
            before.map().goodies().remove(after.hamster_cell())
        } else {
            before.map().goodies()
        }
        &&& after.view_center() == followed(before.view_center(), after.hamster())
    }

    /// Whether `after` is `before` with key `k` recorded as pressed.
    pub open spec fn key_pressed(before: GameState, after: GameState, k: Key) -> bool {
        &&& after.map() == before.map()
        &&& after.hamster() == before.hamster()
        &&& after.time() == before.time()
        &&& after.view_center() == before.view_center()
        &&& forall|i: int|
            0 <= i < 8 ==> after.keys().held(i) == (i == k.code() || before.keys().held(i))
                && after.keys().pressed(i) == (i == k.code() || before.keys().pressed(i))
    }

    /// Whether `after` is `before` with key `k` recorded as released.
    pub open spec fn key_released(before: GameState, after: GameState, k: Key) -> bool {
        &&& after.map() == before.map()
        &&& after.hamster() == before.hamster()
        &&& after.time() == before.time()
        &&& after.view_center() == before.view_center()
        &&& forall|i: int|
            0 <= i < 8 ==> after.keys().held(i) == (i != k.code() && before.keys().held(i))
                && after.keys().pressed(i) == before.keys().pressed(i)
    }

    /// Whether the tick that comes next is one at which the statistics are
    /// shown: every sixteenth.
    pub fn stats_due(&self) -> (due: bool)
        ensures
            due == (self.time() < i32::MAX && trunc_rem(self.time() + 1, 16) == 0),
    {
        self.time < i32::MAX && rem_trunc(self.time + 1, 16) == 0
    }

    /// One tick of the game: time moves on by one, the hamster lives one
    /// tick with the keys that are down or were pressed since the last
    /// tick, it picks up the goody it has reached, and the view follows it.
    pub fn tick(&mut self)
        requires
            old(self).wf(),
        ensures
            Self::ticked(*old(self), *final(self)),
    {
        if self.time < i32::MAX {
            self.time += 1;
        }
        let keys = self.key_debouncer.key_states();
        self.key_debouncer.clear();
        self.hamster.tick(&self.map, self.time, &keys);
        self.handle_triggers();
        self.update_view_center();
    }

    /// Lets the view follow the hamster: ahead of it in the direction in
    /// which it walks, and never further from it than `VIEW_SLACK`.
    pub fn update_view_center(&mut self)
        requires
            old(self).wf(),
        ensures
            final(self).map() == old(self).map(),
            final(self).hamster() == old(self).hamster(),
            final(self).time() == old(self).time(),
            final(self).keys() == old(self).keys(),
            final(self).view_center() == followed(old(self).view_center(), old(self).hamster()),
    {
        let lead = div_trunc(self.hamster.speed().0 * 3, 2);
        let ahead: i64 = self.view_center.0 as i64 + lead as i64;
        let ham = self.hamster.center();
        proof {
            lemma_center_bound(self.hamster.spec_pos().0 as int, self.hamster.width());
            lemma_center_bound(self.hamster.spec_pos().1 as int, self.hamster.height());
        }
        let lo: i64 = ham.0 as i64 - VIEW_SLACK as i64;
        let hi: i64 = ham.0 as i64 + VIEW_SLACK as i64;
        let x: i64 = if ahead < lo {
            lo
        } else if ahead > hi {
            hi
        } else {
            ahead
        };
        self.view_center.0 = x as i32;
        self.view_center.1 = clamp(self.view_center.1, ham.1 - VIEW_SLACK, ham.1 + VIEW_SLACK);
    }

    /// Lets the hamster pick up the goody in the grid cell of its centre,
    /// if there is one.
    pub fn handle_triggers(&mut self)
        requires
            old(self).wf(),
        ensures
            final(self).wf(),
            final(self).hamster() == old(self).hamster(),
            final(self).time() == old(self).time(),
            final(self).keys() == old(self).keys(),
            final(self).view_center() == old(self).view_center(),
            final(self).map().blocks() == old(self).map().blocks(),
            final(self).map().renderer() == old(self).map().renderer(),
            final(self).map().kinds() == old(self).map().kinds(),
            final(self).map().goodies() == if old(self).map().goody(old(self).hamster_cell())
                != 0 {
                old(self).map().goodies().remove(old(self).hamster_cell())
            } else {
                old(self).map().goodies()
            },
    {
        let grid = self.hamster.center() / GRID;
        if self.map.goodie_at(grid) != 0 {
            self.map.set_goodie(grid, 0)
        }
    }

    pub fn mouse_down(&mut self, _pos: Pt, _left: bool, _right: bool)
        ensures
            *final(self) == *old(self),
    {
    }

    pub fn mouse_motion(&mut self, _pos: Pt, _left: bool, _right: bool)
        ensures
            *final(self) == *old(self),
    {
    }

    pub fn mouse_wheel(&mut self, _x: i32, _y: i32)
        ensures
            *final(self) == *old(self),
    {
    }

    /// Records that key `k` was pressed.
    pub fn key_down(&mut self, k: Key)
        ensures
            Self::key_pressed(*old(self), *final(self), k),
    {
        self.key_debouncer.key_down(k);
    }

    /// Records that key `k` was released.
    pub fn key_up(&mut self, k: Key)
        ensures
            Self::key_released(*old(self), *final(self), k),
    {
        self.key_debouncer.key_up(k);
    }

    /// The texture of the tile at grid cell `p`, as good as it can be had
    /// without waiting.
    pub fn texture_at(&mut self, p: Pt) -> (tex: Rc<Texture>)
        requires
            old(self).wf(),
            i32::MIN < p.0 < i32::MAX,
            i32::MIN < p.1 < i32::MAX,
        ensures
            final(self).wf(),
            final(self).hamster() == old(self).hamster(),
            final(self).time() == old(self).time(),
            final(self).view_center() == old(self).view_center(),
            final(self).map().blocks() == old(self).map().blocks(),
            final(self).map().goodies() == old(self).map().goodies(),
            tex == final(self).map().renderer().best(
                crate::tracer::tilekey::canonical(
                    old(self).map().renderer().palette(),
                    old(self).map().key_at(p),
                ),
            ),
    {
        self.map.texture_at(p)
    }

    /// The hamster, for drawing it.
    pub fn the_hamster(&self) -> (h: &Hamster)
        ensures
            *h == self.hamster(),
    {
        &self.hamster
    }

    /// The map, for its counters.
    pub fn the_map(&self) -> (m: &GameMap)
        ensures
            *m == self.map(),
    {
        &self.map
    }

    /// The time, in ticks since the game began.
    pub fn now(&self) -> (t: i32)
        ensures
            t == self.time(),
    {
        self.time
    }

    /// The world position in the middle of the view.
    pub fn center(&self) -> (c: Pt)
        ensures
            c == self.view_center(),
    {
        self.view_center
    }
}

/// The middle of a body inside the world lies inside the world.
pub proof fn lemma_center_bound(pos: int, size: int)
    requires
        -0x2000_0000 <= pos <= 0x2000_0000,
        0 <= size <= 0x2000_0000,
    ensures
        -0x2000_0000 <= trunc_div(2 * pos + size, 2) <= 0x4000_0000,
{
}

} // verus!
