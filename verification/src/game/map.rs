use crate::common::fnv_store::{map_get, map_insert, map_new, map_pairs, map_remove};
use crate::common::pt::Pt;
use crate::game::palette::BlockTyp;
use crate::game::texture::Texture;
use crate::tracer::renderer::Renderer;
use crate::tracer::tilekey::{center_key, in_palette, TileKey};
use fnv::FnvHashMap;
use std::rc::Rc;
use vstd::prelude::*;

verus! {

/// An unbounded grid of blocks, stored row by row: what was never set is
/// the empty block 0.
#[derive(Clone)]
pub struct ByteMap {
    pub blocks: Vec<Vec<u8>>,
}

impl ByteMap {
    /// The block stored at column `x`, row `y`; 0 where none was stored.
    pub open spec fn raw(&self, x: int, y: int) -> u8 {
        if 0 <= y < self.blocks@.len() && 0 <= x < self.blocks@[y]@.len() {
            self.blocks@[y]@[x]
        } else {
            0
        }
    }

    /// How many blocks are stored in row `y`.
    pub open spec fn row_len(&self, y: int) -> int {
        if 0 <= y < self.blocks@.len() {
            self.blocks@[y]@.len() as int
        } else {
            0
        }
    }

    /// The block seen at column `x`, row `y`: the first two columns and rows,
    /// and all negative positions, are walled off with block 1.
    pub open spec fn block(&self, x: int, y: int) -> u8 {
        if x <= 1 || y <= 1 {
            1
        } else {
            self.raw(x, y)
        }
    }

    /// A new map that holds nothing.
    pub fn new() -> (m: Self)
        ensures
            m.blocks@.len() == 0,
    {
        Self { blocks: Vec::new() }
    }

    /// The block seen at position `grid`.
    #[inline]
    pub fn at(&self, grid: Pt) -> (b: u8)
        ensures
            b == self.block(grid.0 as int, grid.1 as int),
    {
        let (x, y) = (grid.0, grid.1);
        if x <= 1 || y <= 1 {
            return 1;
        }
        let x = x as usize;
        let y = y as usize;
        if y >= self.blocks.len() {
            return 0;
        }
        if x >= self.blocks[y].len() {
            return 0;
        }
        self.blocks[y][x]
    }

    /// Stores block `b` at position `grid`, which must not be negative.
    /// Every other position keeps what it held.
    pub fn set(&mut self, grid: Pt, b: u8)
        requires
            grid.0 >= 0,
            grid.1 >= 0,
        ensures
            forall|x: int, y: int|
                #![trigger final(self).raw(x, y)]
                final(self).raw(x, y) == if x == grid.0 && y == grid.1 {
                    b
                } else {
                    old(self).raw(x, y)
                },
            final(self).blocks@.len() == if old(self).blocks@.len() > grid.1 {
                old(self).blocks@.len() as int
            } else {
                grid.1 + 1
            },
            forall|j: int|
                #![trigger final(self).row_len(j)]
                final(self).row_len(j) == if j == grid.1 && old(self).row_len(j) <= grid.0 {
                    grid.0 + 1
                } else {
                    old(self).row_len(j)
                },
    {
        let (x, y) = (grid.0, grid.1);
        let x = x as usize;
        let y = y as usize;
        while y >= self.blocks.len()
            invariant
                forall|i: int, j: int|
                    #![trigger self.raw(i, j)]
                    #![trigger old(self).raw(i, j)]
                    self.raw(i, j) == old(self).raw(i, j),
                forall|j: int|
                    #![trigger self.row_len(j)]
                    #![trigger old(self).row_len(j)]
                    self.row_len(j) == old(self).row_len(j),
                old(self).blocks@.len() <= self.blocks@.len(),
                self.blocks@.len() <= y + 1 || self.blocks@.len() == old(self).blocks@.len(),
            decreases y + 1 - self.blocks.len(),
        {
            let ghost prev = *self;
            self.blocks.push(Vec::new());
            proof {
                assert forall|i: int, j: int| self.raw(i, j) == prev.raw(i, j) by {
                    if 0 <= j < prev.blocks@.len() {
                        assert(self.blocks@[j] == prev.blocks@[j]);
                    }
                }
                assert forall|j: int| self.row_len(j) == prev.row_len(j) by {
                    if 0 <= j < prev.blocks@.len() {
                        assert(self.blocks@[j] == prev.blocks@[j]);
                    }
                }
            }
        }
        let ghost len = self.blocks@.len();
        while x >= self.blocks[y].len()
            invariant
                y < self.blocks@.len(),
                self.blocks@.len() == len,
                forall|i: int, j: int|
                    #![trigger self.raw(i, j)]
                    #![trigger old(self).raw(i, j)]
                    self.raw(i, j) == old(self).raw(i, j),
                forall|j: int|
                    #![trigger self.row_len(j)]
                    #![trigger old(self).row_len(j)]
                    j != y ==> self.row_len(j) == old(self).row_len(j),
                old(self).row_len(y as int) <= self.row_len(y as int),
                self.row_len(y as int) <= x + 1 || self.row_len(y as int) == old(self).row_len(
                    y as int,
                ),
            decreases x + 1 - self.blocks@[y as int]@.len(),
        {
            let ghost prev = *self;
            self.blocks[y].push(0);
            proof {
                assert(self.blocks@.len() == prev.blocks@.len());
                assert(self.blocks@[y as int]@ == prev.blocks@[y as int]@.push(0));
                assert forall|i: int, j: int| self.raw(i, j) == prev.raw(i, j) by {
                    if 0 <= j < prev.blocks@.len() && j != y {
                        assert(self.blocks@[j] == prev.blocks@[j]);
                    }
                }
                assert forall|j: int| j != y implies self.row_len(j) == prev.row_len(j) by {
                    if 0 <= j < prev.blocks@.len() {
                        assert(self.blocks@[j] == prev.blocks@[j]);
                    }
                }
            }
        }
        let ghost prev = *self;
        self.blocks[y][x] = b;
        proof {
            assert(self.blocks@.len() == prev.blocks@.len());
            assert(self.blocks@[y as int]@ == prev.blocks@[y as int]@.update(x as int, b));
            assert forall|j: int| self.row_len(j) == prev.row_len(j) by {
                if 0 <= j < prev.blocks@.len() && j != y {
                    assert(self.blocks@[j] == prev.blocks@[j]);
                }
            }
            assert forall|i: int, j: int| self.raw(i, j) == if i == grid.0 && j == grid.1 {
                b
            } else {
                prev.raw(i, j)
            } by {
                if 0 <= j < prev.blocks@.len() && j != y {
                    assert(self.blocks@[j] == prev.blocks@[j]);
                }
            }
        }
    }

    /// Whether every stored block is below `n`, and the map is small enough
    /// for its rows and columns to be counted in 32 signed bits.
    pub open spec fn all_below(&self, n: int) -> bool {
        &&& self.blocks@.len() <= 0x8000_0000
        &&& forall|y: int|
            0 <= y < self.blocks@.len() ==> (#[trigger] self.blocks@[y])@.len() <= 0x8000_0000
        &&& forall|x: int, y: int| #[trigger] self.raw(x, y) < n
    }

    /// Whether every stored block is below `n`, and the map is small enough
    /// for its rows and columns to be counted in 32 signed bits.
    pub fn is_all_below(&self, n: u8) -> (ok: bool)
        ensures
            ok == self.all_below(n as int),
    {
        if n == 0 {
            proof {
                assert(!(self.raw(0, 0) < 0));
            }
            return false;
        }
        if self.blocks.len() > 0x8000_0000 {
            return false;
        }
        let mut y: usize = 0;
        while y < self.blocks.len()
            invariant
                n > 0,
                y <= self.blocks@.len(),
                forall|j: int| 0 <= j < y ==> (#[trigger] self.blocks@[j])@.len() <= 0x8000_0000,
                forall|i: int, j: int| j < y ==> #[trigger] self.raw(i, j) < n,
            decreases self.blocks@.len() - y,
        {
            let row = &self.blocks[y];
            if row.len() > 0x8000_0000 {
                return false;
            }
            let mut x: usize = 0;
            while x < row.len()
                invariant
                    n > 0,
                    y < self.blocks@.len(),
                    *row == self.blocks@[y as int],
                    x <= row@.len(),
                    forall|i: int| i < x ==> #[trigger] self.raw(i, y as int) < n,
                decreases row@.len() - x,
            {
                if row[x] >= n {
                    proof {
                        assert(!(self.raw(x as int, y as int) < n));
                    }
                    return false;
                }
                x += 1;
            }
            y += 1;
        }
        true
    }
}

/// The number under which position `p` is filed: different positions have
/// different numbers.
pub open spec fn pt_code(p: Pt) -> u128 {
    ((p.0 + 0x8000_0000) * 0x1_0000_0000 + (p.1 + 0x8000_0000)) as u128
}

/// The number under which position `p` is filed.
pub fn pt_encode(p: Pt) -> (c: u128)
    ensures
        c == pt_code(p),
{
    let x: i64 = p.0 as i64 + 0x8000_0000;
    let y: i64 = p.1 as i64 + 0x8000_0000;
    (x as u128) * 0x1_0000_0000 + (y as u128)
}

/// The position that is filed under `c`, if `c` is the number of one.
pub fn pt_decode(c: u128) -> (p: Option<Pt>)
    ensures
        match p {
            Some(p) => pt_code(p) == c,
            None => forall|q: Pt| pt_code(q) != c,
        },
        p is None <==> c > 0xffff_ffff_ffff_ffff,
{
    if c > 0xffff_ffff_ffff_ffff {
        return None;
    }
    let x: i64 = (c / 0x1_0000_0000) as i64 - 0x8000_0000;
    let y: i64 = (c % 0x1_0000_0000) as i64 - 0x8000_0000;
    Some(Pt(x as i32, y as i32))
}

/// Different positions are filed under different numbers.
pub proof fn lemma_pt_code_injective()
    ensures
        forall|p: Pt, q: Pt| #[trigger] pt_code(p) == #[trigger] pt_code(q) ==> p == q,
{
}

/// The goodies that a list of positions and goodies describes: of two
/// goodies on one position the later one counts.
pub open spec fn goodies_of(list: Seq<(Pt, u8)>) -> Map<Pt, u8>
    decreases list.len(),
{
    if list.len() == 0 {
        Map::empty()
    } else {
        goodies_of(list.drop_last()).insert(list.last().0, list.last().1)
    }
}

/// The static part of a level: a grid of blocks, the overlays ("goodies")
/// that lie on some of its cells, and the renderer that draws them.
pub struct GameMap {
    inner: ByteMap,
    goodies: FnvHashMap<u128, u8>,
    renderer: Renderer,
    block_types: Vec<BlockTyp>,
}

impl GameMap {
    /// The grid of blocks.
    pub closed spec fn blocks(&self) -> ByteMap {
        self.inner
    }

    /// The goodies, by position.
    pub closed spec fn goodies(&self) -> Map<Pt, u8> {
        Map::new(|p: Pt| self.goodies@.contains_key(pt_code(p)), |p: Pt| self.goodies@[pt_code(p)])
    }

    /// The renderer that draws the map's tiles.
    pub closed spec fn renderer(&self) -> Renderer {
        self.renderer
    }

    /// The behaviour of every kind of block, by block identifier.
    pub closed spec fn kinds(&self) -> Seq<BlockTyp> {
        self.block_types@
    }

    /// The goody at position `p`; 0 where there is none.
    pub open spec fn goody(&self, p: Pt) -> u8 {
        if self.goodies().contains_key(p) {
            self.goodies()[p]
        } else {
            0
        }
    }

    /// The key of the 3x3 neighbourhood around position `p`, with the goody
    /// that lies on `p`.
    pub open spec fn key_at(&self, p: Pt) -> TileKey {
        let m = self.blocks();
        TileKey {
            blocks: [
                [
                    m.block(p.0 - 1, p.1 - 1),
                    m.block(p.0 as int, p.1 - 1),
                    m.block(p.0 + 1, p.1 - 1),
                ],
                [
                    m.block(p.0 - 1, p.1 as int),
                    m.block(p.0 as int, p.1 as int),
                    m.block(p.0 + 1, p.1 as int),
                ],
                [
                    m.block(p.0 - 1, p.1 + 1),
                    m.block(p.0 as int, p.1 + 1),
                    m.block(p.0 + 1, p.1 + 1),
                ],
            ],
            goody: self.goody(p),
        }
    }

    /// Whether `after` is `before` with `blk` put at position `p`: a goody
    /// onto the cell, among the goodies; any other block in place of the
    /// cell's block.
    pub open spec fn with_block(before: GameMap, after: GameMap, p: Pt, blk: u8) -> bool {
        &&& after.renderer() == before.renderer()
        &&& after.kinds() == before.kinds()
        &&& before.kinds()[blk as int] == BlockTyp::Goody ==> after.blocks() == before.blocks()
            && after.goodies() == before.goodies().insert(p, blk)
        &&& before.kinds()[blk as int] != BlockTyp::Goody ==> after.goodies() == before.goodies()
            && forall|x: int, y: int|
            #![trigger after.blocks().raw(x, y)]
            after.blocks().raw(x, y) == if x == p.0 && y == p.1 {
                blk
            } else {
                before.blocks().raw(x, y)
            }
    }

    /// Whether `after` is `before` with goody `goodie` on position `p`, or
    /// without a goody there if `goodie` is 0.
    pub open spec fn with_goodie(before: GameMap, after: GameMap, p: Pt, goodie: u8) -> bool {
        &&& after.renderer() == before.renderer()
        &&& after.kinds() == before.kinds()
        &&& after.blocks() == before.blocks()
        &&& after.goodies() == if goodie == 0 {
            before.goodies().remove(p)
        } else {
            before.goodies().insert(p, goodie)
        }
    }

    /// What holds of every map: the renderer is well formed; there are as
    /// many kinds of block as the palette has surfaces, at least two; and
    /// every block and every goody names one of them.
    pub open spec fn wf(&self) -> bool {
        &&& self.renderer().wf()
        &&& self.kinds().len() == self.renderer().palette().len()
        &&& 2 <= self.kinds().len() <= 256
        &&& self.blocks().all_below(self.kinds().len() as int)
        &&& forall|p: Pt| #[trigger] self.goody(p) < self.kinds().len()
    }

    /// A map of the given blocks and goodies, drawn by `renderer`. Of two
    /// goodies on one position the later one counts.
    pub fn from(
        bytes: ByteMap,
        goodies: Vec<(Pt, u8)>,
        renderer: Renderer,
        block_types: Vec<BlockTyp>,
    ) -> (m: Self)
        requires
            renderer.wf(),
            block_types@.len() == renderer.palette().len(),
            2 <= block_types@.len() <= 256,
            bytes.all_below(block_types@.len() as int),
            forall|i: int|
                0 <= i < goodies@.len() ==> (#[trigger] goodies@[i]).1 < block_types@.len(),
        ensures
            m.wf(),
            m.blocks() == bytes,
            m.renderer() == renderer,
            m.kinds() == block_types@,
            m.goodies() == goodies_of(goodies@),
    {
        let mut table: FnvHashMap<u128, u8> = map_new();
        let ghost n = block_types@.len();
        let mut i: usize = 0;
        proof {
            assert(Map::<Pt, u8>::new(
                |p: Pt| table@.contains_key(pt_code(p)),
                |p: Pt| table@[pt_code(p)],
            ) =~= goodies_of(goodies@.take(0)));
        }
        while i < goodies.len()
            invariant
                i <= goodies@.len(),
                n == block_types@.len(),
                forall|j: int| 0 <= j < goodies@.len() ==> (#[trigger] goodies@[j]).1 < n,
                Map::<Pt, u8>::new(
                    |p: Pt| table@.contains_key(pt_code(p)),
                    |p: Pt| table@[pt_code(p)],
                ) == goodies_of(goodies@.take(i as int)),
                forall|k: u128| #[trigger] table@.contains_key(k) ==> table@[k] < n,
            decreases goodies@.len() - i,
        {
            let (p, g) = goodies[i];
            let _ = map_insert(&mut table, pt_encode(p), g);
            proof {
                lemma_pt_code_injective();
                assert(goodies@.take(i + 1).drop_last() =~= goodies@.take(i as int));
                assert(Map::<Pt, u8>::new(
                    |p: Pt| table@.contains_key(pt_code(p)),
                    |p: Pt| table@[pt_code(p)],
                ) =~= goodies_of(goodies@.take(i as int)).insert(p, g));
            }
            i += 1;
        }
        proof {
            assert(goodies@.take(goodies@.len() as int) =~= goodies@);
        }
        Self { inner: bytes, goodies: table, renderer, block_types }
    }

    /// The grid of blocks.
    pub fn bytemap(&self) -> (b: &ByteMap)
        ensures
            *b == self.blocks(),
    {
        &self.inner
    }

    /// The renderer, for its counters.
    pub fn tile_renderer(&self) -> (r: &Renderer)
        ensures
            *r == self.renderer(),
    {
        &self.renderer
    }

    /// Starts baking, for every block stored in the map, the tile of that
    /// block alone, so that stand-in tiles are at hand sooner when the map
    /// is drawn.
    pub fn warmup_cache(&mut self)
        requires
            old(self).wf(),
        ensures
            final(self).wf(),
            final(self).blocks() == old(self).blocks(),
            final(self).goodies() == old(self).goodies(),
            final(self).kinds() == old(self).kinds(),
            old(self).renderer().cache().submap_of(final(self).renderer().cache()),
            forall|x: int, y: int|
                0 <= y < old(self).blocks().blocks@.len() && 0 <= x < old(self).blocks().row_len(y)
                    ==> final(self).renderer().jobs().contains(
                    #[trigger] center_key(old(self).blocks().block(x, y)),
                ),
    {
        let mut y: usize = 0;
        while y < self.inner.blocks.len()
            invariant
                self.wf(),
                self.blocks() == old(self).blocks(),
                self.goodies() == old(self).goodies(),
                self.kinds() == old(self).kinds(),
                old(self).renderer().cache().submap_of(self.renderer().cache()),
                forall|i: int, j: int|
                    0 <= j < y && 0 <= i < self.blocks().row_len(j)
                        ==> self.renderer().jobs().contains(
                        #[trigger] center_key(self.blocks().block(i, j)),
                    ),
            decreases self.inner.blocks@.len() - y,
        {
            let mut x: usize = 0;
            while x < self.inner.blocks[y].len()
                invariant
                    y < self.inner.blocks@.len(),
                    self.wf(),
                    self.blocks() == old(self).blocks(),
                    self.goodies() == old(self).goodies(),
                    self.kinds() == old(self).kinds(),
                    old(self).renderer().cache().submap_of(self.renderer().cache()),
                    forall|i: int, j: int|
                        ((0 <= j < y && 0 <= i < self.blocks().row_len(j)) || (j == y && 0 <= i
                            < x)) ==> self.renderer().jobs().contains(
                            #[trigger] center_key(self.blocks().block(i, j)),
                        ),
                decreases self.inner.blocks@[y as int]@.len() - x,
            {
                proof {
                    assert(self.inner.blocks@[y as int]@.len() <= 0x8000_0000);
                }
                let p = Pt(x as i32, y as i32);
                let b = self.inner.at(p);
                proof {
                    assert(self.inner.raw(x as int, y as int) < self.kinds().len());
                    crate::tracer::tilekey::lemma_center_key_in_palette(
                        self.renderer.palette(),
                        b,
                    );
                    crate::tracer::tilekey::lemma_stripped_canonical(
                        self.renderer.palette(),
                        center_key(b),
                    );
                    crate::tracer::tilekey::lemma_key_ext(center_key(b).stripped(), center_key(b));
                }
                let ghost prev = *self;
                let _ = self.renderer.render_tile(TileKey::with_center(b));
                proof {
                    assert(self.goodies() =~= prev.goodies());
                    assert forall|q: Pt| #[trigger] self.goody(q) < self.kinds().len() by {
                        assert(prev.goody(q) < prev.kinds().len());
                    }
                    let first = old(self).renderer().cache();
                    let last = self.renderer().cache();
                    assert forall|k: TileKey| #[trigger] first.dom().contains(k) implies
                        last.dom().contains(k) && first[k] == last[k] by {
                        assert(prev.renderer().cache().dom().contains(k));
                    }
                    let more = Renderer::submitted(
                        prev.renderer().jobs(),
                        center_key(b),
                        self.renderer().cache().contains_key(center_key(b)),
                    );
                    assert forall|i: int, j: int|
                        ((0 <= j < y && 0 <= i < self.blocks().row_len(j)) || (j == y && 0 <= i
                            < x + 1)) implies self.renderer().jobs().contains(
                        #[trigger] center_key(self.blocks().block(i, j)),
                    ) by {
                        if j == y && i == x {
                        } else {
                            crate::tracer::renderer::lemma_append_contains(
                                prev.renderer().jobs(),
                                more,
                                center_key(self.blocks().block(i, j)),
                            );
                        }
                    }
                }
                x += 1;
            }
            y += 1;
        }
    }

    /// The texture of the tile at position `p`, as good as it can be had
    /// without waiting.
    pub fn texture_at(&mut self, p: Pt) -> (tex: Rc<Texture>)
        requires
            old(self).wf(),
            i32::MIN < p.0 < i32::MAX,
            i32::MIN < p.1 < i32::MAX,
        ensures
            final(self).wf(),
            final(self).blocks() == old(self).blocks(),
            final(self).goodies() == old(self).goodies(),
            final(self).kinds() == old(self).kinds(),
            old(self).renderer().cache().submap_of(final(self).renderer().cache()),
            tex == final(self).renderer().best(
                crate::tracer::tilekey::canonical(
                    old(self).renderer().palette(),
                    old(self).key_at(p),
                ),
            ),
    {
        let key = self.tile_key(p);
        let tex = self.renderer.render_tile(key);
        proof {
            assert(self.goodies() =~= old(self).goodies());
            assert forall|q: Pt| #[trigger] self.goody(q) < self.kinds().len() by {
                assert(old(self).goody(q) < old(self).kinds().len());
            }
        }
        tex
    }

    /// The behaviour of the block seen at position `p`.
    pub fn type_at(&self, p: Pt) -> (t: BlockTyp)
        requires
            self.wf(),
        ensures
            t == self.kinds()[self.blocks().block(p.0 as int, p.1 as int) as int],
    {
        proof {
            assert(self.inner.raw(p.0 as int, p.1 as int) < self.kinds().len());
        }
        self.type_of(self.at(p))
    }

    /// The behaviour of blocks of kind `blk`.
    pub fn type_of(&self, blk: u8) -> (t: BlockTyp)
        requires
            blk < self.kinds().len(),
        ensures
            t == self.kinds()[blk as int],
    {
        self.block_types[blk as usize]
    }

    #[inline]
    fn at(&self, p: Pt) -> (b: u8)
        ensures
            b == self.blocks().block(p.0 as int, p.1 as int),
    {
        self.inner.at(p)
    }

    /// Puts `blk` at position `p`: a goody goes onto the cell, among the
    /// goodies; any other block replaces the cell's block.
    pub fn set(&mut self, p: Pt, blk: u8)
        requires
            old(self).wf(),
            blk < old(self).kinds().len(),
            old(self).kinds()[blk as int] != BlockTyp::Goody ==> p.0 >= 0 && p.1 >= 0,
        ensures
            final(self).wf(),
            Self::with_block(*old(self), *final(self), p, blk),
    {
        match self.type_of(blk) {
            BlockTyp::Goody => {
                let _ = map_insert(&mut self.goodies, pt_encode(p), blk);
                proof {
                    lemma_pt_code_injective();
                    assert(self.goodies() =~= old(self).goodies().insert(p, blk));
                    assert forall|q: Pt| #[trigger] self.goody(q) < self.kinds().len() by {
                        assert(old(self).goody(q) < old(self).kinds().len());
                    }
                }
            },
            _ => {
                self.inner.set(p, blk);
                proof {
                    assert(self.goodies() =~= old(self).goodies());
                    assert forall|q: Pt| #[trigger] self.goody(q) < self.kinds().len() by {
                        assert(old(self).goody(q) < old(self).kinds().len());
                    }
                    assert forall|x: int, y: int| #[trigger]
                        self.inner.raw(x, y) < self.kinds().len() by {
                        assert(old(self).inner.raw(x, y) < self.kinds().len());
                    }
                    assert forall|y: int| 0 <= y < self.inner.blocks@.len() implies (
                    #[trigger] self.inner.blocks@[y])@.len() <= 0x8000_0000 by {
                        assert(self.inner.row_len(y) == self.inner.blocks@[y]@.len());
                        if y < old(self).inner.blocks@.len() {
                            assert(old(self).inner.blocks@[y]@.len() <= 0x8000_0000);
                        }
                    }
                }
            },
        }
    }

    /// The goodies with their positions, each once, in no particular order.
    pub fn goodie_list(&self) -> (list: Vec<(Pt, u8)>)
        ensures
            forall|i: int|
                0 <= i < list@.len() ==> self.goodies().contains_pair(
                    (#[trigger] list@[i]).0,
                    list@[i].1,
                ),
            forall|p: Pt|
                self.goodies().contains_key(p) ==> exists|i: int|
                    0 <= i < list@.len() && (#[trigger] list@[i]).0 == p,
            forall|i: int, j: int| 0 <= i < j < list@.len() ==> list@[i].0 != list@[j].0,
    {
        let pairs = map_pairs(&self.goodies);
        let mut list: Vec<(Pt, u8)> = Vec::new();
        let ghost mut origin: Seq<int> = Seq::empty();
        let mut i: usize = 0;
        while i < pairs.len()
            invariant
                i <= pairs@.len(),
                forall|j: int|
                    0 <= j < pairs@.len() ==> self.goodies@.contains_pair(
                        (#[trigger] pairs@[j]).0,
                        pairs@[j].1,
                    ),
                origin.len() == list@.len(),
                forall|j: int|
                    0 <= j < list@.len() ==> 0 <= #[trigger] origin[j] < i && pt_code(list@[j].0)
                        == pairs@[origin[j]].0 && list@[j].1 == pairs@[origin[j]].1,
                forall|a: int, b: int| 0 <= a < b < origin.len() ==> origin[a] < origin[b],
                forall|j: int|
                    0 <= j < i && (#[trigger] pairs@[j]).0 <= 0xffff_ffff_ffff_ffff ==> exists|
                        l: int,
                    | 0 <= l < list@.len() && #[trigger] origin[l] == j,
            decreases pairs@.len() - i,
        {
            let (code, g) = pairs[i];
            let ghost old_origin = origin;
            let ghost old_len = list@.len();
            match pt_decode(code) {
                Some(p) => {
                    list.push((p, g));
                    proof {
                        origin = origin.push(i as int);
                        assert forall|j: int|
                            0 <= j < i + 1 && (#[trigger] pairs@[j]).0
                                <= 0xffff_ffff_ffff_ffff implies exists|l: int|
                            0 <= l < list@.len() && #[trigger] origin[l] == j by {
                            if j < i {
                                let l = choose|l: int|
                                    0 <= l < old_len && #[trigger] old_origin[l] == j;
                                assert(origin[l] == j);
                            } else {
                                assert(origin[old_len as int] == j);
                            }
                        }
                    }
                },
                None => {},
            }
            i += 1;
        }
        proof {
            lemma_pt_code_injective();
            assert forall|i: int| 0 <= i < list@.len() implies self.goodies().contains_pair(
                (#[trigger] list@[i]).0,
                list@[i].1,
            ) by {
                let j = origin[i];
                assert(self.goodies@.contains_pair(pairs@[j].0, pairs@[j].1));
            }
            assert forall|p: Pt| self.goodies().contains_key(p) implies exists|i: int|
                0 <= i < list@.len() && (#[trigger] list@[i]).0 == p by {
                let k = pt_code(p);
                let j = choose|j: int| 0 <= j < pairs@.len() && pairs@[j].0 == k;
                let l = choose|l: int| 0 <= l < list@.len() && #[trigger] origin[l] == j;
                assert(pt_code(list@[l].0) == pt_code(p));
            }
            assert forall|a: int, b: int| 0 <= a < b < list@.len() implies list@[a].0
                != list@[b].0 by {
                assert(origin[a] < origin[b]);
            }
        }
        list
    }

    /// The goody at position `p`; 0 where there is none.
    pub fn goodie_at(&self, p: Pt) -> (g: u8)
        ensures
            g == self.goody(p),
    {
        match map_get(&self.goodies, pt_encode(p)) {
            None => 0,
            Some(g) => *g,
        }
    }

    /// Puts goody `goodie` on position `p`; 0 takes the goody away.
    pub fn set_goodie(&mut self, p: Pt, goodie: u8)
        requires
            old(self).wf(),
            goodie < old(self).kinds().len(),
        ensures
            final(self).wf(),
            Self::with_goodie(*old(self), *final(self), p, goodie),
    {
        if goodie == 0 {
            let _ = map_remove(&mut self.goodies, pt_encode(p));
            proof {
                lemma_pt_code_injective();
                assert(self.goodies() =~= old(self).goodies().remove(p));
                assert forall|q: Pt| #[trigger] self.goody(q) < self.kinds().len() by {
                    assert(old(self).goody(q) < old(self).kinds().len());
                }
            }
        } else {
            let _ = map_insert(&mut self.goodies, pt_encode(p), goodie);
            proof {
                lemma_pt_code_injective();
                assert(self.goodies() =~= old(self).goodies().insert(p, goodie));
                assert forall|q: Pt| #[trigger] self.goody(q) < self.kinds().len() by {
                    assert(old(self).goody(q) < old(self).kinds().len());
                }
            }
        }
    }

    /// The key of the 3x3 neighbourhood around position `grid`, with the
    /// goody that lies on `grid`.
    pub fn tile_key(&self, grid: Pt) -> (k: TileKey)
        requires
            i32::MIN < grid.0 < i32::MAX,
            i32::MIN < grid.1 < i32::MAX,
        ensures
            k == self.key_at(grid),
            self.wf() ==> in_palette(self.renderer().palette(), k),
    {
        let (ix, iy) = (grid.0, grid.1);
        let k = TileKey {
            blocks: [
                [
                    self.at(Pt(ix - 1, iy - 1)),
                    self.at(Pt(ix, iy - 1)),
                    self.at(Pt(ix + 1, iy - 1)),
                ],
                [self.at(Pt(ix - 1, iy)), self.at(Pt(ix, iy)), self.at(Pt(ix + 1, iy))],
                [
                    self.at(Pt(ix - 1, iy + 1)),
                    self.at(Pt(ix, iy + 1)),
                    self.at(Pt(ix + 1, iy + 1)),
                ],
            ],
            goody: self.goodie_at(grid),
        };
        proof {
            crate::tracer::tilekey::lemma_key_ext(k, self.key_at(grid));
            if self.wf() {
                let n = self.kinds().len();
                assert forall|x: int, y: int| 0 <= x < 3 && 0 <= y < 3 implies #[trigger] k.cell(
                    x,
                    y,
                ) < n by {
                    assert(self.inner.raw(grid.0 + x - 1, grid.1 + y - 1) < n);
                }
                assert(self.goody(grid) < n);
            }
        }
        k
    }
}

} // verus!
