use crate::common::math::{div_trunc, rem_trunc, trunc_div, trunc_rem};
use crate::common::pt::{fits_i32, Pt};
use crate::common::rect::Rect;
use crate::game::gamestate::GRID;
use crate::game::texture::Texture;
use vstd::prelude::*;

verus! {

/// A grid of buttons from which the user picks one in edit mode.
pub struct Toolbar {
    screen_pos: Pt,
    columns: i32,
    buttons: Vec<Texture>,
    tex_selected: Texture,
    selected: usize,
}

impl Toolbar {
    /// Where on the screen the toolbar's top-left corner is.
    pub closed spec fn screen_pos(&self) -> Pt {
        self.screen_pos
    }

    /// How many buttons go into one row.
    pub closed spec fn spec_columns(&self) -> int {
        self.columns as int
    }

    /// The buttons' textures, in order.
    pub closed spec fn faces(&self) -> Seq<Texture> {
        self.buttons@
    }

    /// The texture that marks the picked button.
    pub closed spec fn marker(&self) -> Texture {
        self.tex_selected
    }

    /// How many buttons there are.
    pub open spec fn len(&self) -> nat {
        self.faces().len()
    }

    /// The number of the button that is picked.
    pub closed spec fn spec_selected(&self) -> nat {
        self.selected as nat
    }

    /// What holds of every toolbar: it has at least one column and not too
    /// many buttons, its place on the screen leaves room to measure from it,
    /// and the button that is picked exists, unless there is none at all.
    pub open spec fn wf(&self) -> bool {
        &&& 1 <= self.spec_columns() <= 0x1000
        &&& self.len() <= 0x10_0000
        &&& -0x4000_0000 <= self.screen_pos().0 <= 0x4000_0000
        &&& -0x4000_0000 <= self.screen_pos().1 <= 0x4000_0000
        &&& (self.spec_selected() < self.len() || self.spec_selected() == 0)
    }

    /// The number of the button under screen position `pos`, if the position
    /// is not left of or above the toolbar; it may be beyond the last button.
    pub open spec fn button_at(&self, pos: Pt) -> Option<int> {
        let x = trunc_div(pos.0 - self.screen_pos().0, 64);
        let y = trunc_div(pos.1 - self.screen_pos().1, 64);
        if x < 0 || y < 0 {
            None
        } else {
            Some(x + y * self.spec_columns())
        }
    }

    /// Whether screen position `pos` is on the toolbar.
    pub open spec fn covers(&self, pos: Pt) -> bool {
        self.screen_pos().0 <= pos.0 < self.screen_pos().0 + self.spec_dimensions().0
            && self.screen_pos().1 <= pos.1 < self.screen_pos().1 + self.spec_dimensions().1
    }

    /// The number of the button that is picked after a click at screen
    /// position `pos`: the button under it, if there is one, else as before.
    pub open spec fn clicked(&self, pos: Pt) -> nat {
        match self.button_at(pos) {
            Some(b) => if b < self.len() {
                b as nat
            } else {
                self.spec_selected()
            },
            None => self.spec_selected(),
        }
    }

    /// Width and height in pixels.
    pub open spec fn spec_dimensions(&self) -> (int, int) {
        (
            self.spec_columns() * 64,
            (trunc_div(self.len() - 1, self.spec_columns()) + 1) * 64,
        )
    }

    /// A toolbar at `screen_pos` with four columns of the buttons
    /// `palette`, the first of which is picked; `tex_selected` marks the
    /// picked button.
    pub fn new(screen_pos: Pt, palette: Vec<Texture>, tex_selected: Texture) -> (t: Self)
        requires
            palette@.len() <= 0x10_0000,
            -0x4000_0000 <= screen_pos.0 <= 0x4000_0000,
            -0x4000_0000 <= screen_pos.1 <= 0x4000_0000,
        ensures
            t.wf(),
            t.screen_pos() == screen_pos,
            t.spec_columns() == 4,
            t.faces() == palette@,
            t.marker() == tex_selected,
            t.spec_selected() == 0,
    {
        Self { screen_pos, columns: 4, buttons: palette, tex_selected, selected: 0 }
    }

    /// How many buttons go into one row.
    pub fn columns(&self) -> (c: i32)
        ensures
            c == self.spec_columns(),
    {
        self.columns
    }

    /// Width and height of the toolbar in pixels: as many rows as the
    /// buttons need.
    pub fn dimensions(&self) -> (d: (i32, i32))
        requires
            self.wf(),
        ensures
            d.0 == self.spec_dimensions().0,
            d.1 == self.spec_dimensions().1,
    {
        let w = self.columns * (GRID as i32);
        let rows = div_trunc(self.buttons.len() as i32 - 1, self.columns);
        proof {
            lemma_rows_bound(self.buttons@.len() as int - 1, self.columns as int);
        }
        let h = (rows + 1) * (GRID as i32);
        (w, h)
    }

    /// Picks the button under screen position `pos`, if there is one.
    pub fn button_click(&mut self, pos: Pt)
        requires
            old(self).wf(),
            fits_i32(pos.0 - old(self).screen_pos().0),
            fits_i32(pos.1 - old(self).screen_pos().1),
        ensures
            final(self).wf(),
            final(self).screen_pos() == old(self).screen_pos(),
            final(self).spec_columns() == old(self).spec_columns(),
            final(self).faces() == old(self).faces(),
            final(self).marker() == old(self).marker(),
            final(self).spec_selected() == old(self).clicked(pos),
    {
        let pos = (pos - self.screen_pos) / (GRID as i32);
        if pos.is_neg() {
            return ;
        }
        proof {
            lemma_cell_bound(pos.0 as int, pos.1 as int, self.columns as int);
        }
        let button: u64 = pos.x() as u64 + pos.y() as u64 * self.columns as u64;
        if button < self.buttons.len() as u64 {
            self.selected = button as usize;
        }
    }

    /// Whether screen position `pos` is on the toolbar.
    pub fn is_inside(&self, pos: Pt) -> (b: bool)
        requires
            self.wf(),
        ensures
            b == self.covers(pos),
    {
        let d = self.dimensions();
        proof {
            lemma_rows_bound(self.buttons@.len() as int - 1, self.columns as int);
        }
        if d.1 < 0 {
            return false;
        }
        Rect::new(self.screen_pos, d).is_inside(pos)
    }

    /// The number of the button that is picked.
    pub fn selected(&self) -> (s: usize)
        ensures
            s == self.spec_selected(),
    {
        self.selected
    }

    /// Where button `i` is, in pixels from the toolbar's top-left corner.
    pub fn button_pos(&self, i: usize) -> (p: Pt)
        requires
            self.wf(),
            i <= 0x10_0000,
        ensures
            p.0 == trunc_rem(i as int, self.spec_columns()) * 64,
            p.1 == trunc_div(i as int, self.spec_columns()) * 64,
    {
        let i = i as i32;
        proof {
            lemma_rows_bound(i as int, self.columns as int);
        }
        Pt(rem_trunc(i, self.columns), div_trunc(i, self.columns)) * (GRID as i32)
    }

    /// The buttons' textures, in order.
    pub fn buttons(&self) -> (b: &Vec<Texture>)
        ensures
            b@ == self.faces(),
    {
        &self.buttons
    }

    /// The texture that marks the picked button.
    pub fn tex_selected(&self) -> (t: &Texture)
        ensures
            *t == self.marker(),
    {
        &self.tex_selected
    }

    /// Where on the screen the toolbar's top-left corner is.
    pub fn position(&self) -> (p: Pt)
        ensures
            p == self.screen_pos(),
    {
        self.screen_pos
    }
}

/// Dividing a count of at most 2^20 by a number of columns gives a row
/// and a column that are no larger.
pub proof fn lemma_rows_bound(n: int, columns: int)
    requires
        -1 <= n <= 0x10_0000,
        1 <= columns,
    ensures
        -1 <= trunc_div(n, columns) <= 0x10_0000,
        n >= 0 ==> 0 <= trunc_div(n, columns),
        n >= 0 ==> 0 <= trunc_rem(n, columns) < columns,
        n >= 0 ==> trunc_rem(n, columns) <= n,
{
    if n >= 0 {
        assert(0 <= n / columns <= n) by (nonlinear_arith)
            requires
                n >= 0,
                columns >= 1,
        ;
        assert(0 <= n - columns * (n / columns) < columns) by (nonlinear_arith)
            requires
                n >= 0,
                columns >= 1,
        ;
        assert(columns * (n / columns) >= 0) by (nonlinear_arith)
            requires
                n / columns >= 0,
                columns >= 1,
        ;
    } else {
        assert(1int / columns <= 1) by (nonlinear_arith)
            requires
                columns >= 1,
        ;
        assert(0 <= 1int / columns) by (nonlinear_arith)
            requires
                columns >= 1,
        ;
    }
}

/// The number of the button in column `x` of row `y` fits into 64 bits.
pub proof fn lemma_cell_bound(x: int, y: int, columns: int)
    requires
        0 <= x <= 0x7fff_ffff,
        0 <= y <= 0x7fff_ffff,
        1 <= columns <= 0x1000,
    ensures
        0 <= y * columns <= 0x7fff_ffff * 0x1000,
{
    assert(0 <= y * columns <= 0x7fff_ffff * 0x1000) by (nonlinear_arith)
        requires
            0 <= y <= 0x7fff_ffff,
            1 <= columns <= 0x1000,
    ;
}

} // verus!
