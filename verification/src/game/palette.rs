use vstd::prelude::*;

verus! {

/// How a block behaves when something walks into it.
#[derive(Copy, Clone, PartialEq, Eq, Structural, Debug)]
pub enum BlockTyp {
    Wall,
    Ledge,
    Brick,
    Goody,
}

impl Default for BlockTyp {
    fn default() -> (t: Self)
        ensures
            t == BlockTyp::Wall,
    {
        BlockTyp::Wall
    }
}

/// The definition of one kind of block: its identifier, how it behaves, and
/// the base name of its surface files.
#[derive(Copy, Clone)]
pub struct BlockDef {
    pub uid: u8,
    pub walk: BlockTyp,
    pub srf: &'static str,
}

/// How many kinds of block there are.
pub const NUM_BLOCKS: usize = 29;

/// The identifier and the behaviour of the block at place `i` of the
/// editor's palette.
pub open spec fn ed_entry(i: int) -> (u8, BlockTyp) {
    if i == 0 {
        (0, BlockTyp::Wall)
    } else if i == 1 {
        (28, BlockTyp::Goody)
    } else if i == 2 {
        (17, BlockTyp::Wall)
    } else if i == 3 {
        (8, BlockTyp::Wall)
    } else if i == 4 {
        (2, BlockTyp::Wall)
    } else if i == 5 {
        (27, BlockTyp::Wall)
    } else if i == 6 {
        (3, BlockTyp::Ledge)
    } else if i == 7 {
        (26, BlockTyp::Brick)
    } else if i == 8 {
        (1, BlockTyp::Brick)
    } else if i == 9 {
        (4, BlockTyp::Brick)
    } else if i == 10 {
        (23, BlockTyp::Wall)
    } else if i == 11 {
        (24, BlockTyp::Brick)
    } else if i == 12 {
        (25, BlockTyp::Brick)
    } else if i == 13 {
        (12, BlockTyp::Wall)
    } else if i == 14 {
        (13, BlockTyp::Brick)
    } else if i == 15 {
        (21, BlockTyp::Brick)
    } else if i == 16 {
        (18, BlockTyp::Wall)
    } else if i == 17 {
        (19, BlockTyp::Brick)
    } else if i == 18 {
        (20, BlockTyp::Brick)
    } else if i == 19 {
        (22, BlockTyp::Wall)
    } else if i == 20 {
        (11, BlockTyp::Wall)
    } else if i == 21 {
        (9, BlockTyp::Brick)
    } else if i == 22 {
        (10, BlockTyp::Brick)
    } else if i == 23 {
        (7, BlockTyp::Wall)
    } else if i == 24 {
        (5, BlockTyp::Brick)
    } else if i == 25 {
        (6, BlockTyp::Brick)
    } else if i == 26 {
        (14, BlockTyp::Wall)
    } else if i == 27 {
        (15, BlockTyp::Brick)
    } else {
        (16, BlockTyp::Brick)
    }
}

/// The base name of the surface files of the block at place `i` of the
/// editor's palette; the empty block has none.
pub open spec fn ed_name(i: int) -> Seq<char> {
    if i == 0 {
        ""@
    } else if i == 1 {
        "seed"@
    } else if i == 2 {
        "hydrogen-grass"@
    } else if i == 3 {
        "hydrogen-wall-deep"@
    } else if i == 4 {
        "hydrogen-wall"@
    } else if i == 5 {
        "hydrogen-wall-red"@
    } else if i == 6 {
        "hydrogen-ledge"@
    } else if i == 7 {
        "hydrogen-brick-deep"@
    } else if i == 8 {
        "hydrogen-brick"@
    } else if i == 9 {
        "hydrogen-top"@
    } else if i == 10 {
        "lithium-wall"@
    } else if i == 11 {
        "lithium-brick"@
    } else if i == 12 {
        "lithium-top"@
    } else if i == 13 {
        "magnesium-wall"@
    } else if i == 14 {
        "magnesium-brick"@
    } else if i == 15 {
        "magnesium-top"@
    } else if i == 16 {
        "fe-wall"@
    } else if i == 17 {
        "fe-brick"@
    } else if i == 18 {
        "fe-top"@
    } else if i == 19 {
        "fe-grass"@
    } else if i == 20 {
        "helium-wall"@
    } else if i == 21 {
        "helium-brick"@
    } else if i == 22 {
        "helium-top"@
    } else if i == 23 {
        "xenon-wall"@
    } else if i == 24 {
        "xenon-brick"@
    } else if i == 25 {
        "xenon-top"@
    } else if i == 26 {
        "silicon-wall"@
    } else if i == 27 {
        "silicon-brick"@
    } else {
        "silicon-top"@
    }
}

/// The block definitions in the order in which the editor shows them.
pub fn ed_palette() -> (p: [BlockDef; 29])
    ensures
        forall|i: int|
            0 <= i < 29 ==> (#[trigger] p[i]).uid == ed_entry(i).0 && p[i].walk == ed_entry(i).1
                && p[i].srf@ == ed_name(i),
{
    [
        BlockDef { uid: 0, srf: "", walk: BlockTyp::Wall },
        BlockDef { uid: 28, srf: "seed", walk: BlockTyp::Goody },
        BlockDef { uid: 17, srf: "hydrogen-grass", walk: BlockTyp::Wall },
        BlockDef { uid: 8, srf: "hydrogen-wall-deep", walk: BlockTyp::Wall },
        BlockDef { uid: 2, srf: "hydrogen-wall", walk: BlockTyp::Wall },
        BlockDef { uid: 27, srf: "hydrogen-wall-red", walk: BlockTyp::Wall },
        BlockDef { uid: 3, srf: "hydrogen-ledge", walk: BlockTyp::Ledge },
        BlockDef { uid: 26, srf: "hydrogen-brick-deep", walk: BlockTyp::Brick },
        BlockDef { uid: 1, srf: "hydrogen-brick", walk: BlockTyp::Brick },
        BlockDef { uid: 4, srf: "hydrogen-top", walk: BlockTyp::Brick },
        BlockDef { uid: 23, srf: "lithium-wall", walk: BlockTyp::Wall },
        BlockDef { uid: 24, srf: "lithium-brick", walk: BlockTyp::Brick },
        BlockDef { uid: 25, srf: "lithium-top", walk: BlockTyp::Brick },
        BlockDef { uid: 12, srf: "magnesium-wall", walk: BlockTyp::Wall },
        BlockDef { uid: 13, srf: "magnesium-brick", walk: BlockTyp::Brick },
        BlockDef { uid: 21, srf: "magnesium-top", walk: BlockTyp::Brick },
        BlockDef { uid: 18, srf: "fe-wall", walk: BlockTyp::Wall },
        BlockDef { uid: 19, srf: "fe-brick", walk: BlockTyp::Brick },
        BlockDef { uid: 20, srf: "fe-top", walk: BlockTyp::Brick },
        BlockDef { uid: 22, srf: "fe-grass", walk: BlockTyp::Wall },
        BlockDef { uid: 11, srf: "helium-wall", walk: BlockTyp::Wall },
        BlockDef { uid: 9, srf: "helium-brick", walk: BlockTyp::Brick },
        BlockDef { uid: 10, srf: "helium-top", walk: BlockTyp::Brick },
        BlockDef { uid: 7, srf: "xenon-wall", walk: BlockTyp::Wall },
        BlockDef { uid: 5, srf: "xenon-brick", walk: BlockTyp::Brick },
        BlockDef { uid: 6, srf: "xenon-top", walk: BlockTyp::Brick },
        BlockDef { uid: 14, srf: "silicon-wall", walk: BlockTyp::Wall },
        BlockDef { uid: 15, srf: "silicon-brick", walk: BlockTyp::Brick },
        BlockDef { uid: 16, srf: "silicon-top", walk: BlockTyp::Brick },
    ]
}

/// The behaviour of every kind of block, by block identifier.
pub fn block_types() -> (s: Vec<BlockTyp>)
    ensures
        s@.len() == 29,
        forall|i: int| 0 <= i < 29 ==> s@[ed_entry(i).0 as int] == ed_entry(i).1,
{
    let defs = ed_palette();
    let mut s: Vec<BlockTyp> = zero_vec(NUM_BLOCKS);
    let mut i: usize = 0;
    while i < 29
        invariant
            i <= 29,
            s@.len() == 29,
            forall|j: int|
                0 <= j < 29 ==> (#[trigger] defs[j]).uid == ed_entry(j).0 && defs[j].walk
                    == ed_entry(j).1,
            forall|j: int| 0 <= j < i ==> s@[ed_entry(j).0 as int] == ed_entry(j).1,
        decreases 29 - i,
    {
        let def = defs[i];
        proof {
            assert(defs[i as int].uid == ed_entry(i as int).0);
            assert(forall|j: int| 0 <= j < i ==> ed_entry(j).0 != ed_entry(i as int).0);
        }
        s[def.uid as usize] = def.walk;
        i += 1;
    }
    s
}

/// A vector of `len` default values.
pub fn zero_vec<T: Default>(len: usize) -> (s: Vec<T>)
    ensures
        s@.len() == len,
        forall|i: int| 0 <= i < len ==> call_ensures(T::default, (), #[trigger] s@[i]),
{
    let mut s: Vec<T> = Vec::with_capacity(len);
    let mut i: usize = 0;
    while i < len
        invariant
            i <= len,
            s@.len() == i,
            forall|j: int| 0 <= j < i ==> call_ensures(T::default, (), #[trigger] s@[j]),
        decreases len - i,
    {
        s.push(T::default());
        i += 1;
    }
    s
}

} // verus!
