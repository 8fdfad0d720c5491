use flux::common::pt::Pt;
use flux::game::gamestate::{GameState, GRID};
use flux::game::hamster::Hamster;
use flux::game::key::{keymap, Key, KeyDebouncer, KeyStates};
use flux::game::map::{pt_decode, pt_encode, ByteMap, GameMap};
use flux::game::palette::{block_types, ed_palette, zero_vec, BlockTyp, NUM_BLOCKS};
use flux::game::texture::{Texture, TextureIds};
use flux::game::viewport::Viewport;
use flux::tracer::bakery::{Bakery, DoneItem};
use flux::tracer::color::BGRA;
use flux::tracer::image::Image;
use flux::tracer::renderer::Renderer;
use flux::tracer::surface::Surface;
use flux::tracer::tilekey::TileKey;
use std::sync::mpsc::{channel, Receiver, Sender};
use std::sync::Arc;

const BRICK: u8 = 1;
const LEDGE: u8 = 3;
const WALL: u8 = 2;
const SEED: u8 = 28;

fn renderer() -> (Renderer, Receiver<TileKey>, Sender<DoneItem>) {
    let palette: Vec<Surface> =
        (0..NUM_BLOCKS).map(|i| Surface::from_fn((4, 4), move |_x, _y| i as u8)).collect();
    let (to_work, work) = channel::<TileKey>();
    let (done, from_work) = channel::<DoneItem>();
    let bakery = Bakery::new(to_work, from_work);
    (Renderer::new(Arc::new(palette), bakery, TextureIds::new()), work, done)
}

fn map_of(bytes: ByteMap, goodies: Vec<(Pt, u8)>) -> GameMap {
    GameMap::from(bytes, goodies, renderer().0, block_types())
}

fn hamster_textures() -> [Texture; 2] {
    [Texture::with_uid(Image::new((32, 32)), 1), Texture::with_uid(Image::new((32, 32)), 2)]
}

/// A map with a floor of bricks in row 4, from column 2 to column 11.
fn floor_map() -> GameMap {
    let mut bytes = ByteMap::new();
    for x in 2..12 {
        bytes.set(Pt(x, 4), BRICK);
    }
    map_of(bytes, Vec::new())
}

#[test]
fn key_states_start_empty() {
    let s = KeyStates::new();
    for k in [Key::NoKey, Key::Left, Key::Right, Key::Up, Key::Down, Key::A, Key::B, Key::X] {
        assert!(!s.is_down(k));
    }
    assert_eq!(Key::NoKey.number(), 0);
    assert_eq!(Key::X.number(), 7);
    assert_eq!(Key::Pause.number(), 8);
    assert_eq!(Key::NextMap.number(), 14);
}

#[test]
fn keymap_knows_arrows_and_letters() {
    assert!(keymap(1073741904) == Key::Left);
    assert!(keymap('s' as i32) == Key::Left);
    assert!(keymap('j' as i32) == Key::Left);
    assert!(keymap(1073741903) == Key::Right);
    assert!(keymap('f' as i32) == Key::Right);
    assert!(keymap('l' as i32) == Key::Right);
    assert!(keymap(1073741906) == Key::Up);
    assert!(keymap('e' as i32) == Key::Up);
    assert!(keymap('i' as i32) == Key::Up);
    assert!(keymap(1073741905) == Key::Down);
    assert!(keymap('d' as i32) == Key::Down);
    assert!(keymap('k' as i32) == Key::Down);
    assert!(keymap(' ' as i32) == Key::A);
    assert!(keymap(1073742050) == Key::B);
    assert!(keymap(1073742054) == Key::B);
    assert!(keymap('=' as i32) == Key::ZoomIn);
    assert!(keymap('-' as i32) == Key::ZoomOut);
    assert!(keymap('p' as i32) == Key::Pause);
    assert!(keymap('w' as i32) == Key::Save);
    assert!(keymap('n' as i32) == Key::NextMap);
    assert!(keymap('m' as i32) == Key::PrevMap);
    assert!(keymap('r' as i32) == Key::Restart);
    assert!(keymap('a' as i32) == Key::NoKey);
    assert!(keymap(0) == Key::NoKey);
    assert!(keymap(-1) == Key::NoKey);
}

#[test]
fn key_states_set_merge_clear() {
    let mut a = KeyStates::new();
    a.set_down(Key::Left, true);
    a.set_down(Key::Pause, true);
    assert!(a.is_down(Key::Left));
    assert!(!a.is_down(Key::Right));
    let mut b = KeyStates::new();
    b.set_down(Key::A, true);
    let m = a.merge(b);
    assert!(m.is_down(Key::Left));
    assert!(m.is_down(Key::A));
    assert!(!m.is_down(Key::B));
    a.set_down(Key::Left, false);
    assert!(!a.is_down(Key::Left));
    b.clear();
    assert!(!b.is_down(Key::A));
}

#[test]
fn debouncer_keeps_a_short_press() {
    let mut d = KeyDebouncer::new();
    d.key_down(Key::A);
    d.key_up(Key::A);
    d.key_down(Key::Left);
    assert!(d.key_states().is_down(Key::A));
    assert!(d.key_states().is_down(Key::Left));
    d.clear();
    assert!(!d.key_states().is_down(Key::A));
    assert!(d.key_states().is_down(Key::Left));
    d.key_up(Key::Left);
    assert!(d.key_states().is_down(Key::Left) == false);
    d.key_down(Key::Save);
    assert!(!d.key_states().is_down(Key::NoKey));
}

#[test]
fn bytemap_at_walls_off_the_first_rows_and_columns() {
    let mut m = ByteMap::new();
    assert_eq!(m.at(Pt(5, 5)), 0);
    assert_eq!(m.at(Pt(1, 5)), 1);
    assert_eq!(m.at(Pt(5, 1)), 1);
    assert_eq!(m.at(Pt(0, 0)), 1);
    assert_eq!(m.at(Pt(-3, 7)), 1);
    assert_eq!(m.at(Pt(2, 2)), 0);
    m.set(Pt(5, 3), 9);
    assert_eq!(m.at(Pt(5, 3)), 9);
    assert_eq!(m.at(Pt(4, 3)), 0);
    assert_eq!(m.at(Pt(6, 3)), 0);
    assert_eq!(m.at(Pt(5, 4)), 0);
    assert_eq!(m.blocks.len(), 4);
    assert_eq!(m.blocks[3], vec![0, 0, 0, 0, 0, 9]);
    assert_eq!(m.blocks[0], Vec::<u8>::new());
    m.set(Pt(1, 1), 7);
    assert_eq!(m.at(Pt(1, 1)), 1);
    assert_eq!(m.blocks[1], vec![0, 7]);
    m.set(Pt(5, 3), 4);
    assert_eq!(m.at(Pt(5, 3)), 4);
    m.set(Pt(2, 3), 8);
    assert_eq!(m.blocks[3], vec![0, 0, 8, 0, 0, 4]);
    assert_eq!(m.at(Pt(i32::MAX, i32::MAX)), 0);
}

#[test]
fn bytemap_is_all_below() {
    let mut m = ByteMap::new();
    assert!(m.is_all_below(1));
    assert!(!m.is_all_below(0));
    m.set(Pt(3, 3), 28);
    assert!(m.is_all_below(29));
    assert!(!m.is_all_below(28));
    m.set(Pt(0, 7), 200);
    assert!(!m.is_all_below(29));
    assert!(m.is_all_below(201));
}

#[test]
fn positions_are_filed_under_different_numbers() {
    assert_eq!(pt_encode(Pt(i32::MIN, i32::MIN)), 0);
    assert_eq!(pt_encode(Pt(0, 0)), (1u128 << 63) + (1u128 << 31));
    assert_eq!(pt_encode(Pt(i32::MAX, i32::MAX)), u64::MAX as u128);
    for p in [Pt(0, 0), Pt(1, 0), Pt(0, 1), Pt(-1, -1), Pt(i32::MIN, i32::MAX), Pt(77, -3)] {
        assert_eq!(pt_decode(pt_encode(p)), Some(p));
    }
    assert_ne!(pt_encode(Pt(1, 0)), pt_encode(Pt(0, 1)));
    assert_eq!(pt_decode(u64::MAX as u128 + 1), None);
    assert_eq!(pt_decode(u128::MAX), None);
}

#[test]
fn block_types_follow_the_palette() {
    let t = block_types();
    assert_eq!(t.len(), 29);
    assert_eq!(NUM_BLOCKS, 29);
    assert!(t[0] == BlockTyp::Wall);
    assert!(t[28] == BlockTyp::Goody);
    assert!(t[3] == BlockTyp::Ledge);
    assert!(t[1] == BlockTyp::Brick);
    assert!(t[17] == BlockTyp::Wall);
    assert!(t[16] == BlockTyp::Brick);
    let defs = ed_palette();
    assert_eq!(defs.len(), 29);
    assert_eq!(defs[0].uid, 0);
    assert_eq!(defs[0].srf, "");
    assert_eq!(defs[1].uid, 28);
    assert_eq!(defs[1].srf, "seed");
    assert_eq!(defs[28].uid, 16);
    assert_eq!(defs[28].srf, "silicon-top");
    let mut uids: Vec<u8> = defs.iter().map(|d| d.uid).collect();
    uids.sort();
    assert_eq!(uids, (0..29).collect::<Vec<u8>>());
    for d in defs.iter() {
        assert!(t[d.uid as usize] == d.walk);
    }
    assert!(BlockTyp::default() == BlockTyp::Wall);
    assert_eq!(zero_vec::<u8>(3), vec![0, 0, 0]);
    assert_eq!(zero_vec::<BGRA>(0), Vec::<BGRA>::new());
}

#[test]
fn map_keeps_blocks_and_goodies_apart() {
    let mut m = map_of(ByteMap::new(), vec![(Pt(3, 3), SEED), (Pt(3, 3), 5), (Pt(4, 4), SEED)]);
    assert_eq!(m.goodie_at(Pt(3, 3)), 5);
    assert_eq!(m.goodie_at(Pt(4, 4)), SEED);
    assert_eq!(m.goodie_at(Pt(5, 5)), 0);
    m.set(Pt(5, 5), SEED);
    assert_eq!(m.goodie_at(Pt(5, 5)), SEED);
    assert_eq!(m.bytemap().at(Pt(5, 5)), 0);
    m.set(Pt(5, 5), BRICK);
    assert_eq!(m.bytemap().at(Pt(5, 5)), BRICK);
    assert_eq!(m.goodie_at(Pt(5, 5)), SEED);
    assert!(m.type_at(Pt(5, 5)) == BlockTyp::Brick);
    assert!(m.type_at(Pt(6, 5)) == BlockTyp::Wall);
    assert!(m.type_at(Pt(0, 5)) == BlockTyp::Brick);
    assert!(m.type_of(LEDGE) == BlockTyp::Ledge);
    m.set_goodie(Pt(5, 5), 0);
    assert_eq!(m.goodie_at(Pt(5, 5)), 0);
    m.set_goodie(Pt(-7, 2), 9);
    assert_eq!(m.goodie_at(Pt(-7, 2)), 9);
    let mut list = m.goodie_list();
    list.sort_by_key(|(p, _)| (p.0, p.1));
    assert_eq!(list, vec![(Pt(-7, 2), 9), (Pt(3, 3), 5), (Pt(4, 4), SEED)]);
}

#[test]
fn map_tile_key_reads_the_neighbourhood() {
    let mut bytes = ByteMap::new();
    bytes.set(Pt(2, 2), 5);
    bytes.set(Pt(3, 2), 6);
    bytes.set(Pt(2, 3), 7);
    bytes.set(Pt(3, 3), 8);
    bytes.set(Pt(4, 4), 9);
    let m = map_of(bytes, vec![(Pt(3, 3), SEED)]);
    assert_eq!(m.tile_key(Pt(3, 3)), TileKey { blocks: [[5, 6, 0], [7, 8, 0], [0, 0, 9]], goody: SEED });
    assert_eq!(m.tile_key(Pt(2, 2)), TileKey { blocks: [[1, 1, 1], [1, 5, 6], [1, 7, 8]], goody: 0 });
    assert_eq!(m.tile_key(Pt(10, 10)), TileKey::new());
    assert_eq!(m.tile_key(Pt(0, 0)), TileKey { blocks: [[1, 1, 1], [1, 1, 1], [1, 1, 1]], goody: 0 });
}

#[test]
fn map_texture_at_goes_through_the_renderer() {
    let mut bytes = ByteMap::new();
    bytes.set(Pt(3, 3), 8);
    let (r, work, done) = renderer();
    let mut m = GameMap::from(bytes, Vec::new(), r, block_types());
    let t = m.texture_at(Pt(3, 3));
    assert!(t.is_none());
    assert_eq!(work.try_recv().ok(), Some(TileKey::with_center(8)));
    assert!(work.try_recv().is_err());
    done.send((TileKey::with_center(8), Image::from_fn((4, 4), |_x, _y| BGRA(1, 1, 1, 1)))).unwrap();
    let t = m.texture_at(Pt(3, 3));
    assert!(!t.is_none());
    assert_eq!(m.tile_renderer().cache_len(), 1);
}

#[test]
fn map_warmup_asks_for_every_stored_block_once() {
    let mut bytes = ByteMap::new();
    bytes.set(Pt(2, 2), 5);
    bytes.set(Pt(3, 2), 5);
    bytes.set(Pt(4, 2), 6);
    let (r, work, _done) = renderer();
    let mut m = GameMap::from(bytes, Vec::new(), r, block_types());
    m.warmup_cache();
    let mut asked: Vec<u8> = Vec::new();
    while let Ok(k) = work.try_recv() {
        assert!(k.is_center_only());
        assert_eq!(k.goody, 0);
        asked.push(k.center());
    }
    asked.sort();
    // columns 0 and 1 are seen as block 1, the rest as stored
    assert_eq!(asked, vec![1, 5, 6]);
}

#[test]
fn hamster_falls_to_the_floor_and_rests() {
    let map = floor_map();
    let mut h = Hamster::new(Pt(128, 128), hamster_textures());
    let keys = KeyStates::new();
    assert_eq!(h.pos(), Pt(128, 128));
    assert_eq!(h.center(), Pt(144, 144));
    assert_eq!(h.rect().dimensions(), (32, 32));
    assert!(h.can_move(&map, Pt(0, 1)));
    assert!(!h.onfeet(&map));
    h.tick(&map, 1, &keys);
    assert_eq!(h.pos(), Pt(128, 130));
    assert_eq!(h.speed(), Pt(0, 2));
    h.tick(&map, 2, &keys);
    assert_eq!(h.pos(), Pt(128, 134));
    for now in 3..40 {
        h.tick(&map, now, &keys);
    }
    // the floor's top is at pixel row 256, the hamster is 32 high
    assert_eq!(h.pos(), Pt(128, 224));
    assert_eq!(h.speed(), Pt(0, 0));
    assert!(h.onfeet(&map));
    assert!(!h.can_move(&map, Pt(0, 1)));
    assert!(h.can_move(&map, Pt(1, 0)));
    assert!(h.can_move(&map, Pt(0, 0)));
    // left of column 2 the world is walled off
    assert!(!h.can_move(&map, Pt(-1, 0)));
}

#[test]
fn hamster_walks_speeds_up_and_coasts_until_aligned() {
    let map = floor_map();
    let mut h = Hamster::new(Pt(128, 224), hamster_textures());
    let none = KeyStates::new();
    let mut right = KeyStates::new();
    right.set_down(Key::Right, true);
    let mut left = KeyStates::new();
    left.set_down(Key::Left, true);
    // land first
    h.tick(&map, 1, &none);
    h.tick(&map, 2, &none);
    assert_eq!(h.pos(), Pt(128, 224));
    assert!(!h.look_left());
    h.tick(&map, 3, &right);
    assert_eq!(h.pos(), Pt(129, 224));
    h.tick(&map, 4, &right);
    assert_eq!(h.pos(), Pt(131, 224));
    h.tick(&map, 5, &right);
    assert_eq!(h.pos(), Pt(134, 224));
    assert_eq!(h.speed().0, 3);
    // no key: coast in steps of two until the centre is a multiple of 32
    h.tick(&map, 6, &none);
    assert_eq!(h.pos(), Pt(136, 224));
    for now in 7..20 {
        h.tick(&map, now, &none);
    }
    assert_eq!(h.pos(), Pt(144, 224));
    assert_eq!(h.center().0, 160);
    assert_eq!(h.speed(), Pt(0, 0));
    // full speed is six pixels per tick
    for now in 20..30 {
        h.tick(&map, now, &right);
    }
    assert_eq!(h.speed().0, 6);
    assert_eq!(h.pos().0, 144 + 1 + 2 + 3 + 4 + 5 + 6 * 5);
    // the other direction brakes at once
    h.tick(&map, 30, &left);
    assert_eq!(h.speed().0, 0);
    assert!(h.look_left());
    assert_eq!(h.pos().0, 144 + 15 + 30);
}

#[test]
fn hamster_jumps_when_it_stands() {
    let map = floor_map();
    let mut h = Hamster::new(Pt(128, 224), hamster_textures());
    let none = KeyStates::new();
    let mut jump = KeyStates::new();
    jump.set_down(Key::A, true);
    // falling, landed, standing
    h.tick(&map, 1, &none);
    h.tick(&map, 2, &none);
    h.tick(&map, 3, &none);
    assert_eq!(h.pos(), Pt(128, 224));
    h.tick(&map, 4, &jump);
    assert_eq!(h.pos(), Pt(128, 215));
    assert_eq!(h.speed(), Pt(0, -9));
    h.tick(&map, 5, &jump);
    assert_eq!(h.pos(), Pt(128, 206));
    // released early: the jump goes on for seven ticks
    for now in 6..12 {
        h.tick(&map, now, &none);
        assert_eq!(h.speed().1, -9);
    }
    assert_eq!(h.pos(), Pt(128, 206 - 6 * 9));
    h.tick(&map, 12, &none);
    // falling now, but still rising, more slowly, until the speed turns
    assert_eq!(h.speed().1, -9);
    h.tick(&map, 13, &none);
    assert_eq!(h.speed().1, -7);
    for now in 14..80 {
        h.tick(&map, now, &none);
    }
    assert_eq!(h.pos(), Pt(128, 224));
}

#[test]
fn hamster_lands_on_a_ledge_from_above_only() {
    let mut bytes = ByteMap::new();
    for x in 2..8 {
        bytes.set(Pt(x, 6), BRICK);
        bytes.set(Pt(x, 4), LEDGE);
        bytes.set(Pt(x, 3), WALL);
    }
    let map = map_of(bytes, Vec::new());
    let above = Hamster::new(Pt(128, 224), hamster_textures());
    // bottom row 255 is in cell 3; one down is cell 4, a ledge
    assert!(!above.can_move(&map, Pt(0, 1)));
    assert!(above.onfeet(&map));
    // inside the ledge's cell it moves freely, also down to the next row
    let inside = Hamster::new(Pt(128, 230), hamster_textures());
    assert!(inside.can_move(&map, Pt(0, 1)));
    assert!(inside.can_move(&map, Pt(0, -1)));
    // from below it jumps up through the ledge
    let below = Hamster::new(Pt(128, 320), hamster_textures());
    assert!(below.can_move(&map, Pt(0, -1)));
    assert!(below.can_move(&map, Pt(0, -64)));
    // the bricks in row 6 stop it
    let low = Hamster::new(Pt(128, 352), hamster_textures());
    assert!(!low.can_move(&map, Pt(0, 1)));
}

#[test]
fn hamster_frames_take_turns() {
    assert_eq!(Hamster::frame(0), 0);
    assert_eq!(Hamster::frame(7), 0);
    assert_eq!(Hamster::frame(8), 1);
    assert_eq!(Hamster::frame(15), 1);
    assert_eq!(Hamster::frame(16), 0);
    assert_eq!(Hamster::frame(-9), 0);
    let h = Hamster::new(Pt(128, 128), hamster_textures());
    assert_eq!(h.texture(3).uid(), 1);
    assert_eq!(h.texture(12).uid(), 2);
}

#[test]
fn game_ticks_and_picks_up_goodies() {
    let mut bytes = ByteMap::new();
    for x in 2..12 {
        bytes.set(Pt(x, 4), BRICK);
    }
    let map = map_of(bytes, vec![(Pt(2, 3), SEED), (Pt(9, 3), SEED)]);
    let mut g = GameState::new(map, hamster_textures());
    assert_eq!(GRID, 64);
    assert_eq!(g.now(), 0);
    assert_eq!(g.center(), Pt(0, 0));
    assert_eq!(g.the_hamster().pos(), Pt(128, 128));
    assert_eq!(g.the_map().goodie_at(Pt(2, 3)), SEED);
    assert!(!g.stats_due());
    for _ in 0..15 {
        g.tick();
    }
    assert_eq!(g.now(), 15);
    assert!(g.stats_due());
    for _ in 0..15 {
        g.tick();
    }
    // the hamster has fallen into cell (2, 3) and picked the seed up
    assert_eq!(g.the_hamster().pos(), Pt(128, 224));
    assert_eq!(g.the_map().goodie_at(Pt(2, 3)), 0);
    assert_eq!(g.the_map().goodie_at(Pt(9, 3)), SEED);
    // the view has followed: at most 128 pixels from the hamster's centre
    assert_eq!(g.center(), Pt(144 - 128, 240 - 128));
    g.set_view_center(Pt(1000, 1000));
    g.tick();
    assert_eq!(g.center(), Pt(144 + 128, 240 + 128));
    // a short press between two ticks is not lost
    g.key_down(Key::Right);
    g.key_up(Key::Right);
    g.tick();
    assert_eq!(g.the_hamster().pos(), Pt(129, 224));
    g.mouse_down(Pt(1, 1), true, false);
    g.mouse_motion(Pt(1, 1), true, false);
    g.mouse_wheel(1, 1);
    assert_eq!(g.now(), 32);
}

#[test]
fn game_view_helpers() {
    assert_eq!(GameState::view_origin(Pt(500, 400), (960, 540)), Pt(20, 130));
    assert_eq!(
        GameState::visible_blocks(Pt(500, 400), (960, 540)),
        ((-1, 1), (16, 11))
    );
    assert_eq!(GameState::visible_blocks(Pt(0, 0), (128, 128)), ((-2, -2), (2, 2)));
}

#[test]
fn game_texture_at_uses_the_map() {
    let mut bytes = ByteMap::new();
    bytes.set(Pt(5, 5), 7);
    let mut g = GameState::new(map_of(bytes, Vec::new()), hamster_textures());
    assert!(g.texture_at(Pt(5, 5)).is_none());
    assert_eq!(g.the_map().tile_renderer().baking_len(), 3);
}

#[test]
fn viewport_maps_world_to_screen() {
    let v = Viewport::with_center((960, 540), Pt(500, 400));
    assert_eq!(v.to_screen(Pt(20, 130)), Pt(0, 0));
    assert_eq!(v.to_screen(Pt(500, 400)), Pt(480, 270));
    assert_eq!(v.scale_dim((64, 64)), (64, 64));
    assert_eq!(v.visible_blocks(), ((-1, 1), (16, 11)));
    let z = Viewport::with_zoom((100, 50), Pt(-64, 64), 4);
    assert_eq!(z.to_screen(Pt(0, 0)), Pt(16, -16));
    assert_eq!(z.to_screen(Pt(-61, 67)), Pt(0, 0));
    assert_eq!(z.scale_dim((64, 30)), (16, 7));
    assert_eq!(z.visible_blocks(), ((-2, 0), (6, 5)));
    let o = Viewport::with_origin((64, 64), Pt(0, 0));
    assert_eq!(o.visible_blocks(), ((-1, -1), (2, 2)));
    assert_eq!(o.to_screen(Pt(7, 9)), Pt(7, 9));
}
