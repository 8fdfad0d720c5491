use crate::tracer::surface::Surface;
use vstd::prelude::*;

verus! {

/// A 3x3 piece of the block grid, row-major, plus an optional overlay.
///
/// The centre cell is the block to render; the eight cells around it only
/// matter for the shadows they throw on it.
#[derive(PartialEq, Eq, Hash, Copy, Clone, Debug)]
pub struct TileKey {
    pub blocks: [[u8; 3]; 3],
    pub goody: u8,
}

impl TileKey {
    /// The block in column `x` of row `y`.
    pub open spec fn cell(self, x: int, y: int) -> u8 {
        self.blocks[y][x]
    }

    /// Whether all eight cells around the centre are empty. The overlay is
    /// not looked at.
    pub open spec fn neighbours_empty(self) -> bool {
        &&& self.cell(0, 0) == 0
        &&& self.cell(1, 0) == 0
        &&& self.cell(2, 0) == 0
        &&& self.cell(0, 1) == 0
        &&& self.cell(2, 1) == 0
        &&& self.cell(0, 2) == 0
        &&& self.cell(1, 2) == 0
        &&& self.cell(2, 2) == 0
    }

    /// The key with the same centre and overlay and no neighbours.
    pub open spec fn stripped(self) -> TileKey {
        TileKey { blocks: [[0, 0, 0], [0, self.cell(1, 1), 0], [0, 0, 0]], goody: self.goody }
    }

    /// The key as one number: the nine cells, row after row, and then the
    /// overlay, as the digits of a number in base 256, lowest first.
    pub open spec fn code(self) -> u128 {
        digits_code(self.digits()) as u128
    }

    /// The nine cells, row after row, and then the overlay.
    pub open spec fn digits(self) -> Seq<u8> {
        seq![
            self.cell(0, 0),
            self.cell(1, 0),
            self.cell(2, 0),
            self.cell(0, 1),
            self.cell(1, 1),
            self.cell(2, 1),
            self.cell(0, 2),
            self.cell(1, 2),
            self.cell(2, 2),
            self.goody,
        ]
    }

    /// The key of an empty block with empty neighbours and no overlay.
    pub fn new() -> (k: Self)
        ensures
            k == center_key(0),
    {
        Self::with_center(0)
    }

    /// The key of `block` with empty neighbours and no overlay.
    pub fn with_center(block: u8) -> (k: Self)
        ensures
            k == center_key(block),
    {
        TileKey { blocks: [[0, 0, 0], [0, block, 0], [0, 0, 0]], goody: 0 }
    }

    /// The block to render.
    pub fn center(self) -> (b: u8)
        ensures
            b == self.cell(1, 1),
    {
        self.blocks[1][1]
    }

    /// The key with the same centre and overlay and no neighbours.
    pub fn center_and_goody(self) -> (k: Self)
        ensures
            k == self.stripped(),
    {
        TileKey { blocks: [[0, 0, 0], [0, self.center(), 0], [0, 0, 0]], goody: self.goody }
    }

    /// Whether all eight cells around the centre are empty.
    pub fn is_center_only(self) -> (b: bool)
        ensures
            b == self.neighbours_empty(),
    {
        let b = &self.blocks;
        b[0][0] == 0 && b[0][1] == 0 && b[0][2] == 0 && b[1][0] == 0 && b[1][2] == 0 && b[2][0]
            == 0 && b[2][1] == 0 && b[2][2] == 0
    }

    /// The key as one number.
    pub fn encode(self) -> (c: u128)
        ensures
            c == self.code(),
    {
        let b = &self.blocks;
        let order: [u8; 10] = [
            b[0][0],
            b[0][1],
            b[0][2],
            b[1][0],
            b[1][1],
            b[1][2],
            b[2][0],
            b[2][1],
            b[2][2],
            self.goody,
        ];
        let ghost digits = self.digits();
        assert(order@ =~= digits);
        let mut c: u128 = 0;
        let mut i: usize = 10;
        while i > 0
            invariant
                i <= 10,
                order@ == digits,
                c == digits_code(digits.skip(i as int)),
                c < pow256((10 - i) as nat),
            decreases i,
        {
            i -= 1;
            proof {
                lemma_pow256_bound((9 - i) as nat);
                assert(digits.skip(i as int).skip(1) =~= digits.skip(i + 1));
                assert(digits.skip(i as int)[0] == digits[i as int]);
            }
            c = c * 256 + order[i] as u128;
        }
        proof {
            assert(digits.skip(0) =~= digits);
            lemma_pow256_bound(10);
        }
        c
    }
}

/// The key of `block` alone: no neighbours, no overlay.
pub open spec fn center_key(block: u8) -> TileKey {
    TileKey { blocks: [[0, 0, 0], [0, block, 0], [0, 0, 0]], goody: 0 }
}

/// 256 to the power `n`.
pub open spec fn pow256(n: nat) -> nat
    decreases n,
{
    if n == 0 {
        1
    } else {
        256 * pow256((n - 1) as nat)
    }
}

/// The number whose digits in base 256 are `d`, lowest first.
pub open spec fn digits_code(d: Seq<u8>) -> nat
    decreases d.len(),
{
    if d.len() == 0 {
        0
    } else {
        d[0] as nat + 256 * digits_code(d.skip(1))
    }
}

/// Powers of 256 up to the tenth fit well inside 128 bits.
pub proof fn lemma_pow256_bound(n: nat)
    requires
        n <= 10,
    ensures
        0 < pow256(n) <= 0x1_0000_0000_0000_0000_0000,
        n < 10 ==> 256 * pow256(n) == pow256(n + 1),
{
    reveal_with_fuel(pow256, 12);
}

/// A number of `d.len()` digits is below 256 to the power `d.len()`.
pub proof fn lemma_digits_code_bound(d: Seq<u8>)
    ensures
        digits_code(d) < pow256(d.len()),
    decreases d.len(),
{
    if d.len() > 0 {
        lemma_digits_code_bound(d.skip(1));
    }
}

/// Two digit sequences of one length with the same code are the same.
pub proof fn lemma_digits_code_injective(a: Seq<u8>, b: Seq<u8>)
    requires
        a.len() == b.len(),
        digits_code(a) == digits_code(b),
    ensures
        a == b,
    decreases a.len(),
{
    if a.len() > 0 {
        let x = digits_code(a.skip(1));
        let y = digits_code(b.skip(1));
        assert(a[0] + 256 * x == b[0] + 256 * y);
        assert(x == y && a[0] == b[0]);
        lemma_digits_code_injective(a.skip(1), b.skip(1));
        assert forall|i: int| 0 <= i < a.len() implies a[i] == b[i] by {
            if i > 0 {
                assert(a.skip(1)[i - 1] == b.skip(1)[i - 1]);
            }
        }
    }
    assert(a =~= b);
}

/// Two keys with the same nine cells and the same overlay are the same key.
pub proof fn lemma_key_ext(a: TileKey, b: TileKey)
    requires
        a.goody == b.goody,
        forall|x: int, y: int| 0 <= x < 3 && 0 <= y < 3 ==> a.cell(x, y) == b.cell(x, y),
    ensures
        a == b,
{
    assert(a.cell(0, 0) == b.cell(0, 0) && a.cell(1, 0) == b.cell(1, 0));
    assert(a.cell(2, 0) == b.cell(2, 0) && a.cell(0, 1) == b.cell(0, 1));
    assert(a.cell(1, 1) == b.cell(1, 1) && a.cell(2, 1) == b.cell(2, 1));
    assert(a.cell(0, 2) == b.cell(0, 2) && a.cell(1, 2) == b.cell(1, 2));
    assert(a.cell(2, 2) == b.cell(2, 2));
    assert(a.blocks[0] =~= b.blocks[0]);
    assert(a.blocks[1] =~= b.blocks[1]);
    assert(a.blocks[2] =~= b.blocks[2]);
    assert(a.blocks =~= b.blocks);
}

/// Different keys have different codes.
pub proof fn lemma_code_injective(a: TileKey, b: TileKey)
    requires
        a.code() == b.code(),
    ensures
        a == b,
{
    let da = a.digits();
    let db = b.digits();
    lemma_digits_code_bound(da);
    lemma_digits_code_bound(db);
    lemma_pow256_bound(10);
    lemma_digits_code_injective(da, db);
    assert(da[0] == db[0] && da[1] == db[1] && da[2] == db[2] && da[3] == db[3] && da[4] == db[4]);
    assert(da[5] == db[5] && da[6] == db[6] && da[7] == db[7] && da[8] == db[8] && da[9] == db[9]);
    lemma_key_ext(a, b);
}

/// Whether every cell of `k`, and its overlay, names a surface of `pal`.
pub open spec fn in_palette(pal: Seq<Surface>, k: TileKey) -> bool {
    &&& k.goody < pal.len()
    &&& forall|x: int, y: int| 0 <= x < 3 && 0 <= y < 3 ==> #[trigger] k.cell(x, y) < pal.len()
}

/// Whether surface `a` reaches no higher than the lowest point of surface
/// `b`, so that it can throw no shadow on `b`.
pub open spec fn below(pal: Seq<Surface>, a: u8, b: u8) -> bool {
    pal[a as int].spec_hm_max() <= pal[b as int].spec_hm_min()
}

/// What a neighbour cell holding `block` becomes beside `center`: empty if
/// it can throw no shadow on the centre, else itself.
pub open spec fn canonical_cell(pal: Seq<Surface>, block: u8, center: u8) -> u8 {
    if below(pal, block, center) {
        0
    } else {
        block
    }
}

/// The simplest key that renders as `k` does: every neighbour that can throw
/// no shadow on the centre is replaced by the empty block.
pub open spec fn canonical(pal: Seq<Surface>, k: TileKey) -> TileKey {
    let c = k.cell(1, 1);
    TileKey {
        blocks: [
            [
                canonical_cell(pal, k.cell(0, 0), c),
                canonical_cell(pal, k.cell(1, 0), c),
                canonical_cell(pal, k.cell(2, 0), c),
            ],
            [canonical_cell(pal, k.cell(0, 1), c), c, canonical_cell(pal, k.cell(2, 1), c)],
            [
                canonical_cell(pal, k.cell(0, 2), c),
                canonical_cell(pal, k.cell(1, 2), c),
                canonical_cell(pal, k.cell(2, 2), c),
            ],
        ],
        goody: k.goody,
    }
}

/// Making a key canonical a second time changes nothing.
pub proof fn lemma_canonical_idempotent(pal: Seq<Surface>, k: TileKey)
    ensures
        canonical(pal, canonical(pal, k)) == canonical(pal, k),
{
    lemma_key_ext(canonical(pal, canonical(pal, k)), canonical(pal, k));
}

/// In a canonical key every neighbour that reaches no higher than the lowest
/// point of the centre is empty, every other neighbour is kept, and centre
/// and overlay are kept.
pub proof fn lemma_canonical_cells(pal: Seq<Surface>, k: TileKey, x: int, y: int)
    requires
        0 <= x < 3,
        0 <= y < 3,
    ensures
        canonical(pal, k).goody == k.goody,
        canonical(pal, k).cell(1, 1) == k.cell(1, 1),
        !(x == 1 && y == 1) && below(pal, k.cell(x, y), k.cell(1, 1)) ==> canonical(pal, k).cell(
            x,
            y,
        ) == 0,
        !(x == 1 && y == 1) && !below(pal, k.cell(x, y), k.cell(1, 1)) ==> canonical(pal, k).cell(
            x,
            y,
        ) == k.cell(x, y),
{
}

/// A key without neighbours is canonical.
pub proof fn lemma_stripped_canonical(pal: Seq<Surface>, k: TileKey)
    ensures
        k.stripped().neighbours_empty(),
        canonical(pal, k.stripped()) == k.stripped(),
        k.neighbours_empty() ==> canonical(pal, k).neighbours_empty(),
        in_palette(pal, k) && pal.len() > 0 ==> in_palette(pal, k.stripped()),
{
    lemma_key_ext(canonical(pal, k.stripped()), k.stripped());
}

/// A canonical key names no surface that the key it came from did not name,
/// but for the empty block 0.
pub proof fn lemma_canonical_in_palette(pal: Seq<Surface>, k: TileKey)
    requires
        in_palette(pal, k),
    ensures
        in_palette(pal, canonical(pal, k)),
{
    let c = canonical(pal, k);
    assert(k.cell(1, 1) < pal.len());
    assert forall|x: int, y: int| 0 <= x < 3 && 0 <= y < 3 implies #[trigger] c.cell(x, y)
        < pal.len() by {
        assert(k.cell(x, y) < pal.len());
        lemma_canonical_cells(pal, k, x, y);
    }
}

/// The key of a block of the palette alone names surfaces of the palette
/// only.
pub proof fn lemma_center_key_in_palette(pal: Seq<Surface>, block: u8)
    requires
        block < pal.len(),
    ensures
        in_palette(pal, center_key(block)),
{
    let k = center_key(block);
    assert forall|x: int, y: int| 0 <= x < 3 && 0 <= y < 3 implies #[trigger] k.cell(x, y)
        < pal.len() by {
        if x == 1 && y == 1 {
        } else {
            assert(k.cell(x, y) == 0);
        }
    }
}

} // verus!
