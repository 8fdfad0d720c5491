use crate::common::math::{div_trunc, max, min, trunc_div};
use crate::common::pt::{fits_i32, Pt};
use crate::common::rect::Rect;
use crate::editor::toolbar::Toolbar;
use crate::game::gamestate::{GameState, GRID};
use crate::game::key::Key;
use crate::game::map::GameMap;
use crate::game::palette::{ed_entry, ed_palette, BlockTyp};
use crate::game::texture::Texture;
use crate::tracer::color::BGRA;
use std::rc::Rc;
use vstd::prelude::*;

verus! {

/// The colour behind the map.
pub fn bg() -> (c: BGRA)
    ensures
        c == BGRA(255, 255, 255, 255),
{
    BGRA(255, 255, 255, 255)
}

/// The colour of the lines between grid cells.
pub fn grid_color() -> (c: BGRA)
    ensures
        c == BGRA(196, 128, 128, 32),
{
    BGRA(196, 128, 128, 32)
}

/// The colour that fills the selection.
pub fn selection_bg() -> (c: BGRA)
    ensures
        c == BGRA(255, 128, 128, 64),
{
    BGRA(255, 128, 128, 64)
}

/// The colour of the selection's frame.
pub fn selection_fg() -> (c: BGRA)
    ensures
        c == BGRA(255, 128, 128, 224),
{
    BGRA(255, 128, 128, 224)
}

/// What the editor asks its caller to do after a key press.
#[derive(Copy, Clone, Debug, PartialEq, Eq, Structural)]
pub enum Request {
    /// Nothing is left to do.
    Nothing,
    /// Save the level, make a game from a copy of the map and hand it to
    /// `play`.
    Play,
}

/// The rectangle of grid cells from `a` to `b`, both included, whichever
/// way round they are given; empty if both are (0, 0), which no click can
/// reach.
pub open spec fn selection_of(a: Pt, b: Pt) -> Rect {
    if a == Pt(0i32, 0i32) && b == Pt(0i32, 0i32) {
        Rect { min: Pt(0i32, 0i32), max: Pt(0i32, 0i32) }
    } else {
        Rect {
            min: Pt(
                if a.0 < b.0 {
                    a.0
                } else {
                    b.0
                },
                if a.1 < b.1 {
                    a.1
                } else {
                    b.1
                },
            ),
            max: Pt(
                (if a.0 > b.0 {
                    a.0
                } else {
                    b.0
                } + 1) as i32,
                (if a.1 > b.1 {
                    a.1
                } else {
                    b.1
                } + 1) as i32,
            ),
        }
    }
}

/// The grid cell under screen position `pos` in a view with its top-left
/// corner at world position `origin` and `zoom` world pixels to one screen
/// pixel, if the cell can be edited: the first row and the first column
/// cannot.
pub open spec fn grid_under(origin: Pt, zoom: int, pos: Pt) -> Option<Pt> {
    let x = trunc_div(origin.0 + pos.0 * zoom, 64);
    let y = trunc_div(origin.1 + pos.1 * zoom, 64);
    if x < 1 || y < 1 || !fits_i32(origin.0 + pos.0 * zoom) || !fits_i32(origin.1 + pos.1 * zoom) {
        None
    } else {
        Some(Pt(x as i32, y as i32))
    }
}

/// The level editor: two toolbars, the map with the view on it and the
/// selection, and the game while it is being played.
pub struct Editor {
    brush_bar: Toolbar,
    palette_bar: Toolbar,
    map: GameMap,
    view_origin: Pt,
    view_zoom: i32,
    selection_start: Pt,
    selection_end: Pt,
    game: Option<GameState>,
}

impl Editor {
    pub closed spec fn brush_bar(&self) -> Toolbar {
        self.brush_bar
    }

    pub closed spec fn palette_bar(&self) -> Toolbar {
        self.palette_bar
    }

    pub closed spec fn map(&self) -> GameMap {
        self.map
    }

    /// The world position in the top-left corner of the view.
    pub closed spec fn view_origin(&self) -> Pt {
        self.view_origin
    }

    /// How many world pixels go into one screen pixel.
    pub closed spec fn view_zoom(&self) -> int {
        self.view_zoom as int
    }

    /// The two corner cells of the selection.
    pub closed spec fn selection_ends(&self) -> (Pt, Pt) {
        (self.selection_start, self.selection_end)
    }

    /// The game, while it is being played.
    pub closed spec fn game(&self) -> Option<GameState> {
        self.game
    }

    /// Whether the editor is in editing mode: no game is being played.
    pub open spec fn paused(&self) -> bool {
        self.game() is None
    }

    /// What holds of every editor: its parts are well formed; the brush bar
    /// offers the two brushes and the palette bar the 29 blocks; the map
    /// knows every block of the palette; the zoom is between 1
    /// and 4; and the selection lies among the cells that can be edited,
    /// unless it is empty.
    pub open spec fn wf(&self) -> bool {
        &&& self.brush_bar().wf()
        &&& self.palette_bar().wf()
        &&& self.map().wf()
        &&& self.brush_bar().len() == 2
        &&& self.palette_bar().len() == 29
        &&& self.map().kinds().len() >= 29
        &&& 1 <= self.view_zoom() <= 4
        &&& 0 <= self.selection_ends().0.0 < i32::MAX
        &&& 0 <= self.selection_ends().0.1 < i32::MAX
        &&& 0 <= self.selection_ends().1.0 < i32::MAX
        &&& 0 <= self.selection_ends().1.1 < i32::MAX
        &&& match self.game() {
            Some(g) => g.wf(),
            None => true,
        }
    }

    /// An editor on `map` in editing mode, with the view at the world's
    /// origin, zoom 1 and nothing selected.
    pub fn from_parts(brush_bar: Toolbar, palette_bar: Toolbar, map: GameMap) -> (e: Self)
        requires
            brush_bar.wf(),
            palette_bar.wf(),
            map.wf(),
            brush_bar.len() == 2,
            palette_bar.len() == 29,
            map.kinds().len() >= 29,
        ensures
            e.wf(),
            e.paused(),
            e.brush_bar() == brush_bar,
            e.palette_bar() == palette_bar,
            e.map() == map,
            e.view_origin() == Pt(0i32, 0i32),
            e.view_zoom() == 1,
            e.selection_ends() == (Pt(0i32, 0i32), Pt(0i32, 0i32)),
    {
        Self {
            view_origin: Pt(0, 0),
            view_zoom: 1,
            selection_start: Pt(0, 0),
            selection_end: Pt(0, 0),
            brush_bar,
            palette_bar,
            map,
            game: None,
        }
    }

    /// One tick: of the game if one is being played, else of nothing.
    pub fn tick(&mut self)
        requires
            old(self).wf(),
        ensures
            final(self).wf(),
            final(self).paused() == old(self).paused(),
            final(self).map() == old(self).map(),
            final(self).view_origin() == old(self).view_origin(),
            final(self).view_zoom() == old(self).view_zoom(),
            final(self).selection_ends() == old(self).selection_ends(),
            final(self).brush_bar() == old(self).brush_bar(),
            final(self).palette_bar() == old(self).palette_bar(),
            match old(self).game() {
                Some(g) => match final(self).game() {
                    Some(h) => GameState::ticked(g, h),
                    None => false,
                },
                None => *final(self) == *old(self),
            },
    {
        match &mut self.game {
            Some(g) => {
                g.tick();
            },
            None => {},
        }
    }

    /// Whether the pencil, drawing on grid cell `cell` with block `blk`,
    /// makes `after` of `before` by way of `mid`: `mid` is `before` with the
    /// block put into the cell if the left button is held, else `before`;
    /// `after` is `mid` with the cell's goody taken away or, if it has none,
    /// the cell emptied, if the right button is held, else `mid`. Without a
    /// cell nothing is drawn.
    pub open spec fn penciled(
        before: GameMap,
        mid: GameMap,
        after: GameMap,
        cell: Option<Pt>,
        blk: u8,
        left: bool,
        right: bool,
    ) -> bool {
        match cell {
            None => mid == before && after == before,
            Some(g) => {
                &&& if left {
                    GameMap::with_block(before, mid, g, blk)
                } else {
                    mid == before
                }
                &&& if right {
                    if mid.goody(g) != 0 {
                        GameMap::with_goodie(mid, after, g, 0)
                    } else {
                        GameMap::with_block(mid, after, g, 0)
                    }
                } else {
                    after == mid
                }
            },
        }
    }

    /// Whether `after` is `before` with `blk` put into every cell of `rect`.
    pub open spec fn filled(before: GameMap, after: GameMap, rect: Rect, blk: u8) -> bool {
        &&& after.renderer() == before.renderer()
        &&& after.kinds() == before.kinds()
        &&& before.kinds()[blk as int] != BlockTyp::Goody ==> after.goodies() == before.goodies()
            && forall|x: int, y: int|
            #![trigger after.blocks().raw(x, y)]
            after.blocks().raw(x, y) == if rect.min.0 <= x < rect.max.0 && rect.min.1 <= y
                < rect.max.1 {
                blk
            } else {
                before.blocks().raw(x, y)
            }
        &&& before.kinds()[blk as int] == BlockTyp::Goody ==> after.blocks() == before.blocks()
            && forall|p: Pt|
            #![trigger after.goody(p)]
            after.goody(p) == if rect.contains(p) {
                blk
            } else {
                before.goody(p)
            }
    }

    /// The block that is picked in the palette bar.
    pub open spec fn picked_block(&self) -> u8 {
        ed_entry(self.palette_bar().spec_selected() as int).0
    }

    /// The grid cell under screen position `pos`, if it can be edited.
    pub open spec fn cell_under(&self, pos: Pt) -> Option<Pt> {
        grid_under(self.view_origin(), self.view_zoom(), pos)
    }

    /// Whether nothing but the map and the selection differs between this
    /// editor and `other`.
    pub open spec fn same_tools(&self, other: Editor) -> bool {
        &&& self.game() == other.game()
        &&& self.view_origin() == other.view_origin()
        &&& self.view_zoom() == other.view_zoom()
        &&& self.brush_bar() == other.brush_bar()
        &&& self.palette_bar() == other.palette_bar()
    }

    /// Whether `after` is what the pencil makes of `before` at screen
    /// position `pos` with the given buttons held.
    pub open spec fn pencil_drawn(
        before: Editor,
        after: Editor,
        pos: Pt,
        left: bool,
        right: bool,
    ) -> bool {
        &&& after.same_tools(before)
        &&& after.selection_ends() == before.selection_ends()
        &&& exists|mid: GameMap| #[trigger]
            Self::penciled(
                before.map(),
                mid,
                after.map(),
                before.cell_under(pos),
                before.picked_block(),
                left,
                right,
            )
    }

    /// Whether `after` is what the rectangle brush makes of `before` when
    /// the mouse moves to screen position `pos`: with the left button held
    /// the selection reaches to the cell under the mouse, if it can be
    /// edited.
    pub open spec fn rect_dragged(before: Editor, after: Editor, pos: Pt, left: bool) -> bool {
        &&& after.same_tools(before)
        &&& after.map() == before.map()
        &&& after.selection_ends() == match before.cell_under(pos) {
            Some(g) => if left {
                (before.selection_ends().0, g)
            } else {
                before.selection_ends()
            },
            None => before.selection_ends(),
        }
    }

    /// Whether `after` is what the rectangle brush makes of `before` when a
    /// button goes down or up at screen position `pos`. The left button
    /// going up ends the selection at the cell under the mouse, if it can
    /// be edited, fills it with the picked block and selects nothing. The
    /// left button going down starts a selection at the cell under the
    /// mouse; the right button going down deletes as the pencil does.
    pub open spec fn rect_clicked(
        before: Editor,
        after: Editor,
        pos: Pt,
        left: bool,
        right: bool,
        down: bool,
    ) -> bool {
        &&& after.same_tools(before)
        &&& if !down && left {
            &&& after.selection_ends() == (Pt(0i32, 0i32), Pt(0i32, 0i32))
            &&& Self::filled(
                before.map(),
                after.map(),
                selection_of(
                    before.selection_ends().0,
                    match before.cell_under(pos) {
                        Some(g) => g,
                        None => before.selection_ends().1,
                    },
                ),
                before.picked_block(),
            )
        } else {
            &&& after.selection_ends() == match before.cell_under(pos) {
                Some(g) => if down && left {
                    (g, g)
                } else {
                    before.selection_ends()
                },
                None => before.selection_ends(),
            }
            &&& if down && right {
                exists|mid: GameMap| #[trigger]
                    Self::penciled(
                        before.map(),
                        mid,
                        after.map(),
                        before.cell_under(pos),
                        before.picked_block(),
                        left,
                        right,
                    )
            } else {
                after.map() == before.map()
            }
        }
    }

    /// A mouse button went down or up at screen position `pos`. On a
    /// toolbar, going down picks the button there. Elsewhere the picked
    /// brush draws: the pencil one block, the rectangle brush a selection
    /// that is filled when the button goes up.
    pub fn mouse_button(&mut self, pos: Pt, left: bool, right: bool, down: bool)
        requires
            old(self).wf(),
            fits_i32(pos.0 - old(self).brush_bar().screen_pos().0),
            fits_i32(pos.1 - old(self).brush_bar().screen_pos().1),
            fits_i32(pos.0 - old(self).palette_bar().screen_pos().0),
            fits_i32(pos.1 - old(self).palette_bar().screen_pos().1),
        ensures
            final(self).wf(),
            final(self).game() == old(self).game(),
            final(self).view_origin() == old(self).view_origin(),
            final(self).view_zoom() == old(self).view_zoom(),
            if old(self).brush_bar().covers(pos) {
                &&& final(self).map() == old(self).map()
                &&& final(self).selection_ends() == old(self).selection_ends()
                &&& final(self).palette_bar() == old(self).palette_bar()
                &&& final(self).brush_bar().screen_pos() == old(self).brush_bar().screen_pos()
                &&& final(self).brush_bar().spec_columns() == old(self).brush_bar().spec_columns()
                &&& final(self).brush_bar().faces() == old(self).brush_bar().faces()
                &&& final(self).brush_bar().marker() == old(self).brush_bar().marker()
                &&& final(self).brush_bar().spec_selected() == if down {
                    old(self).brush_bar().clicked(pos)
                } else {
                    old(self).brush_bar().spec_selected()
                }
            } else if old(self).palette_bar().covers(pos) {
                &&& final(self).map() == old(self).map()
                &&& final(self).selection_ends() == old(self).selection_ends()
                &&& final(self).brush_bar() == old(self).brush_bar()
                &&& final(self).palette_bar().screen_pos() == old(self).palette_bar().screen_pos()
                &&& final(self).palette_bar().spec_columns()
                    == old(self).palette_bar().spec_columns()
                &&& final(self).palette_bar().faces() == old(self).palette_bar().faces()
                &&& final(self).palette_bar().marker() == old(self).palette_bar().marker()
                &&& final(self).palette_bar().spec_selected() == if down {
                    old(self).palette_bar().clicked(pos)
                } else {
                    old(self).palette_bar().spec_selected()
                }
            } else if old(self).brush_bar().spec_selected() == 0 {
                if down {
                    Self::pencil_drawn(*old(self), *final(self), pos, left, right)
                } else {
                    *final(self) == *old(self)
                }
            } else {
                Self::rect_clicked(*old(self), *final(self), pos, left, right, down)
            },
    {
        if self.brush_bar.is_inside(pos) {
            if down {
                self.brush_bar.button_click(pos);
            }
            return ;
        }
        if self.palette_bar.is_inside(pos) {
            if down {
                self.palette_bar.button_click(pos);
            }
            return ;
        }
        if self.brush_bar.selected() == 0 {
            self.mouse_button_pencil(pos, left, right, down)
        } else {
            self.mouse_button_pencil_rect(pos, left, right, down)
        }
    }

    /// The mouse moved to screen position `pos` with the given buttons held.
    /// Over a toolbar nothing happens; elsewhere the picked brush draws.
    pub fn mouse_motion(&mut self, pos: Pt, left: bool, right: bool)
        requires
            old(self).wf(),
        ensures
            final(self).wf(),
            if old(self).brush_bar().covers(pos) || old(self).palette_bar().covers(pos) {
                *final(self) == *old(self)
            } else if old(self).brush_bar().spec_selected() == 0 {
                Self::pencil_drawn(*old(self), *final(self), pos, left, right)
            } else {
                Self::rect_dragged(*old(self), *final(self), pos, left)
            },
    {
        if self.brush_bar.is_inside(pos) {
            return ;
        }
        if self.palette_bar.is_inside(pos) {
            return ;
        }
        if self.brush_bar.selected() == 0 {
            self.mouse_motion_pencil(pos, left, right)
        } else {
            self.mouse_motion_pencil_rect(pos, left, right)
        }
    }

    /// A button event on the map in pencil mode: going down draws.
    pub fn mouse_button_pencil(&mut self, pos: Pt, left: bool, right: bool, down: bool)
        requires
            old(self).wf(),
        ensures
            final(self).wf(),
            if down {
                Self::pencil_drawn(*old(self), *final(self), pos, left, right)
            } else {
                *final(self) == *old(self)
            },
    {
        if down {
            self.mouse_motion_pencil(pos, left, right)
        }
    }

    /// The pencil over the map: the left button puts the picked block into
    /// the cell under the mouse; the right button takes the cell's goody
    /// away or, if it has none, empties the cell.
    pub fn mouse_motion_pencil(&mut self, pos: Pt, left: bool, right: bool)
        requires
            old(self).wf(),
        ensures
            final(self).wf(),
            Self::pencil_drawn(*old(self), *final(self), pos, left, right),
    {
        let ghost blk = self.picked_block();
        match self.pix_to_grid(pos) {
            Some(cell) => {
                if left {
                    let blk = self.selected_block();
                    self.set(cell, blk);
                }
                let ghost mid = self.map;
                if right {
                    if self.map.goodie_at(cell) != 0 {
                        self.map.set_goodie(cell, 0);
                    } else {
                        self.set(cell, 0);
                    }
                }
                proof {
                    assert(Self::penciled(
                        old(self).map(),
                        mid,
                        self.map(),
                        Some(cell),
                        blk,
                        left,
                        right,
                    ));
                }
            },
            None => {
                proof {
                    assert(Self::penciled(
                        old(self).map(),
                        old(self).map(),
                        self.map(),
                        None,
                        blk,
                        left,
                        right,
                    ));
                }
            },
        }
    }

    /// The grid cell under screen position `pos`, if it can be edited.
    pub fn pix_to_grid(&self, pos: Pt) -> (g: Option<Pt>)
        requires
            1 <= self.view_zoom() <= 4,
        ensures
            g == self.cell_under(pos),
            g matches Some(p) ==> p.0 >= 1 && p.1 >= 1 && p.0 < 0x200_0001 && p.1 < 0x200_0001,
    {
        proof {
            lemma_zoomed_bound(pos.0 as int, self.view_zoom as int);
            lemma_zoomed_bound(pos.1 as int, self.view_zoom as int);
        }
        let x: i64 = self.view_origin.0 as i64 + pos.0 as i64 * self.view_zoom as i64;
        let y: i64 = self.view_origin.1 as i64 + pos.1 as i64 * self.view_zoom as i64;
        if x < -0x8000_0000 || x > 0x7fff_ffff || y < -0x8000_0000 || y > 0x7fff_ffff {
            return None;
        }
        let grid = Pt(x as i32, y as i32) / GRID;
        if grid.0 < 1 || grid.1 < 1 {
            None
        } else {
            Some(grid)
        }
    }

    /// A button event on the map in rectangle mode: the left button going
    /// down starts a selection, going up fills it with the picked block;
    /// the right button going down deletes as the pencil does.
    pub fn mouse_button_pencil_rect(&mut self, pos: Pt, left: bool, right: bool, down: bool)
        requires
            old(self).wf(),
        ensures
            final(self).wf(),
            Self::rect_clicked(*old(self), *final(self), pos, left, right, down),
    {
        if down && left {
            self.mouse_down_pencil_rect(pos)
        }
        if !down && left {
            self.mouse_up_pencil_rect(pos)
        }
        if down && right {
            let ghost before = *self;
            self.mouse_button_pencil(pos, left, right, down);
            proof {
                let mid = choose|mid: GameMap| #[trigger]
                    Self::penciled(
                        before.map(),
                        mid,
                        self.map(),
                        before.cell_under(pos),
                        before.picked_block(),
                        left,
                        right,
                    );
                assert(Self::penciled(
                    old(self).map(),
                    mid,
                    self.map(),
                    old(self).cell_under(pos),
                    old(self).picked_block(),
                    left,
                    right,
                ));
            }
        }
    }

    /// Starts a selection at the cell under `pos`, if it can be edited.
    pub fn mouse_down_pencil_rect(&mut self, pos: Pt)
        requires
            old(self).wf(),
        ensures
            final(self).wf(),
            final(self).same_tools(*old(self)),
            final(self).map() == old(self).map(),
            final(self).selection_ends() == match old(self).cell_under(pos) {
                Some(g) => (g, g),
                None => old(self).selection_ends(),
            },
    {
        match self.pix_to_grid(pos) {
            Some(grid) => {
                self.selection_start = grid;
                self.selection_end = grid;
            },
            None => {},
        }
    }

    /// Ends the selection at the cell under `pos`, if it can be edited,
    /// fills it with the picked block, and selects nothing.
    pub fn mouse_up_pencil_rect(&mut self, pos: Pt)
        requires
            old(self).wf(),
        ensures
            final(self).wf(),
            final(self).same_tools(*old(self)),
            final(self).selection_ends() == (Pt(0i32, 0i32), Pt(0i32, 0i32)),
            Self::filled(
                old(self).map(),
                final(self).map(),
                selection_of(
                    old(self).selection_ends().0,
                    match old(self).cell_under(pos) {
                        Some(g) => g,
                        None => old(self).selection_ends().1,
                    },
                ),
                old(self).picked_block(),
            ),
    {
        match self.pix_to_grid(pos) {
            Some(grid) => {
                self.selection_end = grid;
            },
            None => {},
        }
        let sel = self.selection();
        let blk = self.selected_block();
        self.fill_rect(sel, blk);
        self.clear_selection();
    }

    /// Puts `blk` into every cell of `rect`.
    pub fn fill_rect(&mut self, rect: Rect, blk: u8)
        requires
            old(self).wf(),
            blk < 29,
            rect.min.0 >= 0,
            rect.min.1 >= 0,
        ensures
            final(self).wf(),
            final(self).same_tools(*old(self)),
            final(self).selection_ends() == old(self).selection_ends(),
            Self::filled(old(self).map(), final(self).map(), rect, blk),
    {
        let Pt(xmin, ymin) = rect.min;
        let Pt(xmax, ymax) = rect.max;
        let ghost kind = self.map.kinds()[blk as int];
        let mut iy: i32 = ymin;
        while iy < ymax
            invariant
                ymin <= iy,
                iy <= ymax || iy == ymin,
                xmin >= 0,
                ymin >= 0,
                xmin == rect.min.0 && ymin == rect.min.1 && xmax == rect.max.0 && ymax
                    == rect.max.1,
                blk < 29,
                self.wf(),
                self.same_tools(*old(self)),
                self.selection_ends() == old(self).selection_ends(),
                self.map().renderer() == old(self).map().renderer(),
                self.map().kinds() == old(self).map().kinds(),
                kind == old(self).map().kinds()[blk as int],
                kind != BlockTyp::Goody ==> self.map().goodies() == old(self).map().goodies()
                    && forall|x: int, y: int|
                    #![trigger self.map().blocks().raw(x, y)]
                    self.map().blocks().raw(x, y) == if xmin <= x < xmax && ymin <= y < iy {
                        blk
                    } else {
                        old(self).map().blocks().raw(x, y)
                    },
                kind == BlockTyp::Goody ==> self.map().blocks() == old(self).map().blocks()
                    && forall|p: Pt|
                    #![trigger self.map().goody(p)]
                    self.map().goody(p) == if xmin <= p.0 < xmax && ymin <= p.1 < iy {
                        blk
                    } else {
                        old(self).map().goody(p)
                    },
            decreases ymax - iy,
        {
            let mut ix: i32 = xmin;
            while ix < xmax
                invariant
                    ymin <= iy < ymax,
                    xmin <= ix,
                    ix <= xmax || ix == xmin,
                    xmin >= 0,
                    ymin >= 0,
                    xmin == rect.min.0 && ymin == rect.min.1 && xmax == rect.max.0 && ymax
                        == rect.max.1,
                    blk < 29,
                    self.wf(),
                    self.same_tools(*old(self)),
                    self.selection_ends() == old(self).selection_ends(),
                    self.map().renderer() == old(self).map().renderer(),
                    self.map().kinds() == old(self).map().kinds(),
                    kind == old(self).map().kinds()[blk as int],
                    kind != BlockTyp::Goody ==> self.map().goodies() == old(self).map().goodies()
                        && forall|x: int, y: int|
                        #![trigger self.map().blocks().raw(x, y)]
                        self.map().blocks().raw(x, y) == if (xmin <= x < xmax && ymin <= y < iy)
                            || (xmin <= x < ix && y == iy) {
                            blk
                        } else {
                            old(self).map().blocks().raw(x, y)
                        },
                    kind == BlockTyp::Goody ==> self.map().blocks() == old(self).map().blocks()
                        && forall|p: Pt|
                        #![trigger self.map().goody(p)]
                        self.map().goody(p) == if (xmin <= p.0 < xmax && ymin <= p.1 < iy) || (
                        xmin <= p.0 < ix && p.1 == iy) {
                            blk
                        } else {
                            old(self).map().goody(p)
                        },
                decreases xmax - ix,
            {
                let ghost prev = self.map;
                self.set(Pt(ix, iy), blk);
                proof {
                    if kind == BlockTyp::Goody {
                        assert forall|p: Pt| #[trigger]
                            self.map().goody(p) == if (xmin <= p.0 < xmax && ymin <= p.1 < iy) || (
                            xmin <= p.0 < ix + 1 && p.1 == iy) {
                                blk
                            } else {
                                old(self).map().goody(p)
                            } by {
                            assert(prev.goody(p) == if (xmin <= p.0 < xmax && ymin <= p.1 < iy)
                                || (xmin <= p.0 < ix && p.1 == iy) {
                                blk
                            } else {
                                old(self).map().goody(p)
                            });
                        }
                    } else {
                        assert forall|x: int, y: int| #[trigger]
                            self.map().blocks().raw(x, y) == if (xmin <= x < xmax && ymin <= y
                                < iy) || (xmin <= x < ix + 1 && y == iy) {
                                blk
                            } else {
                                old(self).map().blocks().raw(x, y)
                            } by {
                            assert(prev.blocks().raw(x, y) == if (xmin <= x < xmax && ymin <= y
                                < iy) || (xmin <= x < ix && y == iy) {
                                blk
                            } else {
                                old(self).map().blocks().raw(x, y)
                            });
                        }
                    }
                }
                ix += 1;
            }
            iy += 1;
        }
    }

    /// Puts `blk` at grid cell `pos` of the map.
    pub fn set(&mut self, pos: Pt, blk: u8)
        requires
            old(self).wf(),
            blk < 29,
            pos.0 >= 0,
            pos.1 >= 0,
        ensures
            final(self).wf(),
            final(self).same_tools(*old(self)),
            final(self).selection_ends() == old(self).selection_ends(),
            GameMap::with_block(old(self).map(), final(self).map(), pos, blk),
    {
        self.map.set(pos, blk);
    }

    /// Selects nothing.
    pub fn clear_selection(&mut self)
        ensures
            final(self).selection_ends() == (Pt(0i32, 0i32), Pt(0i32, 0i32)),
            final(self).game() == old(self).game(),
            final(self).map() == old(self).map(),
            final(self).view_origin() == old(self).view_origin(),
            final(self).view_zoom() == old(self).view_zoom(),
            final(self).brush_bar() == old(self).brush_bar(),
            final(self).palette_bar() == old(self).palette_bar(),
    {
        self.selection_start = Pt(0, 0);
        self.selection_end = Pt(0, 0);
    }

    /// The rectangle brush over the map: with the left button held the
    /// selection reaches to the cell under the mouse, if it can be edited.
    pub fn mouse_motion_pencil_rect(&mut self, pos: Pt, left: bool, _right: bool)
        requires
            old(self).wf(),
        ensures
            final(self).wf(),
            Self::rect_dragged(*old(self), *final(self), pos, left),
    {
        if left {
            match self.pix_to_grid(pos) {
                Some(grid) => {
                    self.selection_end = grid;
                },
                None => {},
            }
        }
    }

    /// The selected rectangle of grid cells.
    pub fn selection(&self) -> (r: Rect)
        requires
            self.wf(),
        ensures
            r == selection_of(self.selection_ends().0, self.selection_ends().1),
            r.min.0 >= 0,
            r.min.1 >= 0,
    {
        if self.selection_start.0 == 0 && self.selection_start.1 == 0 && self.selection_end.0 == 0
            && self.selection_end.1 == 0 {
            return Rect::new(Pt(0, 0), (0, 0));
        }
        let xmin = min(self.selection_start.0, self.selection_end.0);
        let ymin = min(self.selection_start.1, self.selection_end.1);
        let xmax = max(self.selection_start.0, self.selection_end.0);
        let ymax = max(self.selection_start.1, self.selection_end.1);
        Rect { min: Pt(xmin, ymin), max: Pt(xmax, ymax) + Pt(1, 1) }
    }

    /// The block that is picked in the palette bar.
    pub fn selected_block(&self) -> (b: u8)
        requires
            self.palette_bar().spec_selected() < 29,
        ensures
            b == self.picked_block(),
            b < 29,
    {
        let defs = ed_palette();
        let i = self.palette_bar.selected();
        proof {
            assert(defs[i as int].uid == ed_entry(i as int).0);
        }
        defs[i].uid
    }

    /// The mouse wheel turned by `x` and `y`: in editing mode the view moves
    /// the other way, by as many grid cells.
    pub fn mouse_wheel(&mut self, x: i32, y: i32)
        requires
            old(self).wf(),
        ensures
            final(self).wf(),
            final(self).game() == old(self).game(),
            final(self).map() == old(self).map(),
            final(self).view_zoom() == old(self).view_zoom(),
            final(self).selection_ends() == old(self).selection_ends(),
            final(self).brush_bar() == old(self).brush_bar(),
            final(self).palette_bar() == old(self).palette_bar(),
            final(self).view_origin() == if old(self).paused() {
                panned(old(self).view_origin(), -x, -y)
            } else {
                old(self).view_origin()
            },
    {
        if !self.is_paused() {
            return ;
        }
        self.pan_by(-(x as i64), -(y as i64));
    }

    /// Key `k` went down. While editing, the arrow keys move the view by one
    /// grid cell, the zoom keys zoom, and the pause key asks for a game to
    /// be started. While playing, the pause key ends the game and every
    /// other key goes to the game.
    pub fn key_down(&mut self, k: Key) -> (req: Request)
        requires
            old(self).wf(),
        ensures
            final(self).wf(),
            final(self).map() == old(self).map(),
            final(self).selection_ends() == old(self).selection_ends(),
            final(self).brush_bar() == old(self).brush_bar(),
            final(self).palette_bar() == old(self).palette_bar(),
            req == if old(self).paused() && k == Key::Pause {
                Request::Play
            } else {
                Request::Nothing
            },
            !old(self).paused() && k == Key::Pause ==> final(self).paused(),
            !(!old(self).paused() && k == Key::Pause) ==> final(self).paused()
                == old(self).paused(),
            old(self).paused() ==> final(self).game() == old(self).game(),
            k != Key::Pause ==> match old(self).game() {
                Some(g) => match final(self).game() {
                    Some(h) => GameState::key_pressed(g, h, k),
                    None => false,
                },
                None => true,
            },
            final(self).view_zoom() == if !old(self).paused() {
                old(self).view_zoom()
            } else if k == Key::ZoomIn {
                zoomed_in(old(self).view_zoom())
            } else if k == Key::ZoomOut {
                zoomed_out(old(self).view_zoom())
            } else {
                old(self).view_zoom()
            },
            final(self).view_origin() == if !old(self).paused() {
                old(self).view_origin()
            } else {
                match k {
                    Key::Left => panned(old(self).view_origin(), -1, 0),
                    Key::Right => panned(old(self).view_origin(), 1, 0),
                    Key::Up => panned(old(self).view_origin(), 0, -1),
                    Key::Down => panned(old(self).view_origin(), 0, 1),
                    _ => old(self).view_origin(),
                }
            },
    {
        if self.is_paused() {
            self.key_down_editing(k)
        } else {
            self.key_down_playing(k);
            Request::Nothing
        }
    }

    fn key_down_editing(&mut self, k: Key) -> (req: Request)
        requires
            old(self).wf(),
            old(self).paused(),
        ensures
            final(self).wf(),
            final(self).game() == old(self).game(),
            final(self).map() == old(self).map(),
            final(self).selection_ends() == old(self).selection_ends(),
            final(self).brush_bar() == old(self).brush_bar(),
            final(self).palette_bar() == old(self).palette_bar(),
            req == if k == Key::Pause {
                Request::Play
            } else {
                Request::Nothing
            },
            final(self).view_zoom() == if k == Key::ZoomIn {
                zoomed_in(old(self).view_zoom())
            } else if k == Key::ZoomOut {
                zoomed_out(old(self).view_zoom())
            } else {
                old(self).view_zoom()
            },
            final(self).view_origin() == match k {
                Key::Left => panned(old(self).view_origin(), -1, 0),
                Key::Right => panned(old(self).view_origin(), 1, 0),
                Key::Up => panned(old(self).view_origin(), 0, -1),
                Key::Down => panned(old(self).view_origin(), 0, 1),
                _ => old(self).view_origin(),
            },
    {
        match k {
            Key::Left => {
                self.pan_view(Pt(-1, 0));
                Request::Nothing
            },
            Key::Right => {
                self.pan_view(Pt(1, 0));
                Request::Nothing
            },
            Key::Up => {
                self.pan_view(Pt(0, -1));
                Request::Nothing
            },
            Key::Down => {
                self.pan_view(Pt(0, 1));
                Request::Nothing
            },
            Key::Pause => Request::Play,
            Key::ZoomIn => {
                self.zoom_in();
                Request::Nothing
            },
            Key::ZoomOut => {
                self.zoom_out();
                Request::Nothing
            },
            _ => Request::Nothing,
        }
    }

    fn key_down_playing(&mut self, k: Key)
        requires
            old(self).wf(),
            !old(self).paused(),
        ensures
            final(self).wf(),
            final(self).map() == old(self).map(),
            final(self).view_origin() == old(self).view_origin(),
            final(self).view_zoom() == old(self).view_zoom(),
            final(self).selection_ends() == old(self).selection_ends(),
            final(self).brush_bar() == old(self).brush_bar(),
            final(self).palette_bar() == old(self).palette_bar(),
            final(self).paused() == (k == Key::Pause),
            k != Key::Pause ==> match (old(self).game(), final(self).game()) {
                (Some(g), Some(h)) => GameState::key_pressed(g, h, k),
                _ => false,
            },
    {
        if k == Key::Pause {
            self.game = None;
        } else {
            match &mut self.game {
                Some(g) => {
                    g.key_down(k);
                },
                None => {},
            }
        }
    }

    /// Key `k` went up: while playing, it goes to the game.
    pub fn key_up(&mut self, k: Key)
        requires
            old(self).wf(),
        ensures
            final(self).wf(),
            final(self).paused() == old(self).paused(),
            final(self).map() == old(self).map(),
            final(self).view_origin() == old(self).view_origin(),
            final(self).view_zoom() == old(self).view_zoom(),
            final(self).selection_ends() == old(self).selection_ends(),
            final(self).brush_bar() == old(self).brush_bar(),
            final(self).palette_bar() == old(self).palette_bar(),
            match old(self).game() {
                Some(g) => match final(self).game() {
                    Some(h) => GameState::key_released(g, h, k),
                    None => false,
                },
                None => *final(self) == *old(self),
            },
    {
        match &mut self.game {
            Some(g) => {
                g.key_up(k);
            },
            None => {},
        }
    }

    fn zoom_in(&mut self)
        requires
            1 <= old(self).view_zoom() <= 4,
        ensures
            final(self).view_zoom() == zoomed_in(old(self).view_zoom()),
            1 <= final(self).view_zoom() <= 4,
            final(self).game() == old(self).game(),
            final(self).map() == old(self).map(),
            final(self).view_origin() == old(self).view_origin(),
            final(self).selection_ends() == old(self).selection_ends(),
            final(self).brush_bar() == old(self).brush_bar(),
            final(self).palette_bar() == old(self).palette_bar(),
    {
        self.view_zoom = max(1, self.view_zoom / 2);
    }

    fn zoom_out(&mut self)
        requires
            1 <= old(self).view_zoom() <= 4,
        ensures
            final(self).view_zoom() == zoomed_out(old(self).view_zoom()),
            1 <= final(self).view_zoom() <= 4,
            final(self).game() == old(self).game(),
            final(self).map() == old(self).map(),
            final(self).view_origin() == old(self).view_origin(),
            final(self).selection_ends() == old(self).selection_ends(),
            final(self).brush_bar() == old(self).brush_bar(),
            final(self).palette_bar() == old(self).palette_bar(),
    {
        self.view_zoom = min(4, self.view_zoom * 2);
    }

    /// Starts playing `game`, which the caller made from a copy of the map
    /// after it had saved the level.
    pub fn play(&mut self, game: GameState)
        requires
            old(self).wf(),
            game.wf(),
        ensures
            final(self).wf(),
            final(self).game() == Some(game),
            final(self).map() == old(self).map(),
            final(self).view_origin() == old(self).view_origin(),
            final(self).view_zoom() == old(self).view_zoom(),
            final(self).selection_ends() == old(self).selection_ends(),
            final(self).brush_bar() == old(self).brush_bar(),
            final(self).palette_bar() == old(self).palette_bar(),
    {
        self.game = Some(game);
    }

    /// Whether the editor is in editing mode; if not, a game is being
    /// played.
    pub fn is_paused(&self) -> (p: bool)
        ensures
            p == self.paused(),
    {
        match self.game {
            None => true,
            Some(_) => false,
        }
    }

    /// In editing mode, moves the view by `delta` grid cells.
    fn pan_view(&mut self, delta: Pt)
        ensures
            final(self).view_origin() == panned(
                old(self).view_origin(),
                delta.0 as int,
                delta.1 as int,
            ),
            final(self).game() == old(self).game(),
            final(self).map() == old(self).map(),
            final(self).view_zoom() == old(self).view_zoom(),
            final(self).selection_ends() == old(self).selection_ends(),
            final(self).brush_bar() == old(self).brush_bar(),
            final(self).palette_bar() == old(self).palette_bar(),
    {
        self.pan_by(delta.0 as i64, delta.1 as i64);
    }

    fn pan_by(&mut self, dx: i64, dy: i64)
        requires
            -0x8000_0000 <= dx <= 0x8000_0000,
            -0x8000_0000 <= dy <= 0x8000_0000,
        ensures
            final(self).view_origin() == panned(old(self).view_origin(), dx as int, dy as int),
            final(self).game() == old(self).game(),
            final(self).map() == old(self).map(),
            final(self).view_zoom() == old(self).view_zoom(),
            final(self).selection_ends() == old(self).selection_ends(),
            final(self).brush_bar() == old(self).brush_bar(),
            final(self).palette_bar() == old(self).palette_bar(),
    {
        let x: i64 = self.view_origin.0 as i64 + dx * (GRID as i64);
        let y: i64 = self.view_origin.1 as i64 + dy * (GRID as i64);
        if x >= -0x8000_0000 && x <= 0x7fff_ffff && y >= -0x8000_0000 && y <= 0x7fff_ffff {
            self.view_origin = Pt(x as i32, y as i32);
        }
    }

    /// The texture of the tile at grid cell `p` of the map that is being
    /// edited, as good as it can be had without waiting.
    pub fn texture_at(&mut self, p: Pt) -> (tex: Rc<Texture>)
        requires
            old(self).wf(),
            i32::MIN < p.0 < i32::MAX,
            i32::MIN < p.1 < i32::MAX,
        ensures
            final(self).wf(),
            final(self).game() == old(self).game(),
            final(self).view_origin() == old(self).view_origin(),
            final(self).view_zoom() == old(self).view_zoom(),
            final(self).selection_ends() == old(self).selection_ends(),
            final(self).brush_bar() == old(self).brush_bar(),
            final(self).palette_bar() == old(self).palette_bar(),
            final(self).map().blocks() == old(self).map().blocks(),
            final(self).map().goodies() == old(self).map().goodies(),
            tex == final(self).map().renderer().best(
                crate::tracer::tilekey::canonical(
                    old(self).map().renderer().palette(),
                    old(self).map().key_at(p),
                ),
            ),
    {
        self.map.texture_at(p)
    }

    /// The texture of the tile at grid cell `p` of the game that is being
    /// played, if one is.
    pub fn game_texture_at(&mut self, p: Pt) -> (tex: Option<Rc<Texture>>)
        requires
            old(self).wf(),
            i32::MIN < p.0 < i32::MAX,
            i32::MIN < p.1 < i32::MAX,
        ensures
            final(self).wf(),
            final(self).paused() == old(self).paused(),
            match (old(self).game(), final(self).game(), tex) {
                (Some(g), Some(h), Some(t)) => h.wf() && h.hamster() == g.hamster() && h.time()
                    == g.time() && h.view_center() == g.view_center() && h.map().blocks()
                    == g.map().blocks() && h.map().goodies() == g.map().goodies() && t
                    == h.map().renderer().best(
                    crate::tracer::tilekey::canonical(
                        g.map().renderer().palette(),
                        g.map().key_at(p),
                    ),
                ),
                (None, None, None) => true,
                _ => false,
            },
            final(self).map() == old(self).map(),
            final(self).view_origin() == old(self).view_origin(),
            final(self).view_zoom() == old(self).view_zoom(),
            final(self).selection_ends() == old(self).selection_ends(),
            final(self).brush_bar() == old(self).brush_bar(),
            final(self).palette_bar() == old(self).palette_bar(),
    {
        match &mut self.game {
            Some(g) => Some(g.texture_at(p)),
            None => None,
        }
    }

    /// The game that is being played, if one is.
    pub fn the_game(&self) -> (g: Option<&GameState>)
        ensures
            match (g, self.game()) {
                (Some(a), Some(b)) => *a == b,
                (None, None) => true,
                _ => false,
            },
    {
        match &self.game {
            Some(g) => Some(g),
            None => None,
        }
    }

    /// The map, for drawing and saving it.
    pub fn the_map(&self) -> (m: &GameMap)
        ensures
            *m == self.map(),
    {
        &self.map
    }

    /// The brush bar, for drawing it.
    pub fn the_brush_bar(&self) -> (t: &Toolbar)
        ensures
            *t == self.brush_bar(),
    {
        &self.brush_bar
    }

    /// The palette bar, for drawing it.
    pub fn the_palette_bar(&self) -> (t: &Toolbar)
        ensures
            *t == self.palette_bar(),
    {
        &self.palette_bar
    }

    /// The world position in the top-left corner of the view.
    pub fn origin(&self) -> (o: Pt)
        ensures
            o == self.view_origin(),
    {
        self.view_origin
    }

    /// How many world pixels go into one screen pixel.
    pub fn zoom(&self) -> (z: i32)
        ensures
            z == self.view_zoom(),
    {
        self.view_zoom
    }
}

/// The view origin `origin` moved by `dx` and `dy` grid cells; unchanged
/// where that would leave the range of 32-bit coordinates.
pub open spec fn panned(origin: Pt, dx: int, dy: int) -> Pt {
    if fits_i32(origin.0 + dx * 64) && fits_i32(origin.1 + dy * 64) {
        Pt((origin.0 + dx * 64) as i32, (origin.1 + dy * 64) as i32)
    } else {
        origin
    }
}

/// A screen coordinate times a zoom of at most 4 stays far inside 64 bits.
pub proof fn lemma_zoomed_bound(v: int, zoom: int)
    requires
        fits_i32(v),
        1 <= zoom <= 4,
    ensures
        -0x2_0000_0000 <= v * zoom <= 0x2_0000_0000,
{
    assert(-0x2_0000_0000 <= v * zoom <= 0x2_0000_0000) by (nonlinear_arith)
        requires
            -0x8000_0000 <= v <= 0x7fff_ffff,
            1 <= zoom <= 4,
    ;
}

/// The zoom after zooming in: half of it, but not less than 1.
pub open spec fn zoomed_in(zoom: int) -> int {
    if zoom / 2 < 1 {
        1
    } else {
        zoom / 2
    }
}

/// The zoom after zooming out: twice as much, but not more than 4.
pub open spec fn zoomed_out(zoom: int) -> int {
    if zoom * 2 > 4 {
        4
    } else {
        zoom * 2
    }
}

} // verus!
