use flux::common::vector2::{Int2, Usize2};
use flux::game::texture::{Texture, TextureIds};
use flux::tracer::bakery::{render_threads_for, Bakery, DoneItem};
use flux::tracer::color::BGRA;
use flux::tracer::image::Image;
use flux::tracer::renderer::Renderer;
use flux::tracer::shared::SharedData;
use flux::tracer::surface::Surface;
use flux::tracer::tilekey::TileKey;
use std::rc::Rc;
use std::sync::mpsc::{channel, Receiver, Sender};
use std::sync::Arc;

const W: i32 = 8;

/// Block 0 is empty and flat at level 0, block 1 is flat at level 100, block 2
/// rises from 50 to 200, block 3 is flat at level 100 too, block 4 is flat at
/// level 255.
fn palette() -> Arc<Vec<Surface>> {
    Arc::new(vec![
        Surface::from_fn((W, W), |_x, _y| 0),
        Surface::from_fn((W, W), |_x, _y| 100),
        Surface::from_fn((W, W), |x, _y| if x > W / 2 { 200 } else { 50 }),
        Surface::from_fn((W, W), |_x, _y| 100),
        Surface::from_fn((W, W), |_x, _y| 255),
    ])
}

struct Rig {
    renderer: Renderer,
    work: Receiver<TileKey>,
    done: Sender<DoneItem>,
}

fn rig() -> Rig {
    let (to_work, work) = channel::<TileKey>();
    let (done, from_work) = channel::<DoneItem>();
    let bakery = Bakery::new(to_work, from_work);
    Rig { renderer: Renderer::new(palette(), bakery, TextureIds::new()), work, done }
}

fn key(blocks: [[u8; 3]; 3], goody: u8) -> TileKey {
    TileKey { blocks, goody }
}

fn solid(c: u8) -> Image<BGRA> {
    Image::from_fn((W, W), |_x, _y| BGRA(c, c, c, 255))
}

#[test]
fn tilekey_new_is_all_empty() {
    let k = TileKey::new();
    assert_eq!(k.blocks, [[0, 0, 0], [0, 0, 0], [0, 0, 0]]);
    assert_eq!(k.goody, 0);
    assert_eq!(k.center(), 0);
    assert!(k.is_center_only());
}

#[test]
fn tilekey_with_center_sets_only_the_center() {
    let k = TileKey::with_center(7);
    assert_eq!(k.blocks, [[0, 0, 0], [0, 7, 0], [0, 0, 0]]);
    assert_eq!(k.goody, 0);
    assert_eq!(k.center(), 7);
    assert!(k.is_center_only());
}

#[test]
fn tilekey_center_and_goody_drops_the_neighbours() {
    let k = key([[1, 2, 3], [4, 5, 6], [7, 8, 9]], 10);
    assert!(!k.is_center_only());
    let s = k.center_and_goody();
    assert_eq!(s, key([[0, 0, 0], [0, 5, 0], [0, 0, 0]], 10));
    assert!(s.is_center_only());
}

#[test]
fn tilekey_is_center_only_looks_at_every_neighbour() {
    for y in 0..3 {
        for x in 0..3 {
            let mut k = TileKey::with_center(4);
            k.blocks[y][x] = 1;
            assert_eq!(k.is_center_only(), x == 1 && y == 1);
        }
    }
    let with_goody = key([[0, 0, 0], [0, 4, 0], [0, 0, 0]], 9);
    assert!(with_goody.is_center_only());
}

#[test]
fn tilekey_encode_is_base_256() {
    assert_eq!(TileKey::new().encode(), 0);
    assert_eq!(key([[1, 0, 0], [0, 0, 0], [0, 0, 0]], 0).encode(), 1);
    assert_eq!(key([[0, 1, 0], [0, 0, 0], [0, 0, 0]], 0).encode(), 256);
    assert_eq!(TileKey::with_center(3).encode(), 3u128 << 32);
    assert_eq!(key([[0, 0, 0], [0, 0, 0], [0, 0, 0]], 2).encode(), 2u128 << 72);
    assert_eq!(
        key([[255, 255, 255], [255, 255, 255], [255, 255, 255]], 255).encode(),
        (1u128 << 80) - 1
    );
    let a = key([[1, 2, 3], [4, 5, 6], [7, 8, 9]], 10);
    let b = key([[1, 2, 3], [4, 5, 6], [7, 9, 8]], 10);
    assert_ne!(a.encode(), b.encode());
}

#[test]
fn canonicalize_empties_neighbours_that_cannot_shade() {
    let r = rig().renderer;
    // centre 1 lies at level 100: block 0 (0) and block 3 (100) reach no
    // higher, blocks 2 (200) and 4 (255) do
    let k = key([[0, 3, 2], [4, 1, 3], [2, 0, 4]], 2);
    let c = r.canonicalize(k);
    assert_eq!(c, key([[0, 0, 2], [4, 1, 0], [2, 0, 4]], 2));
}

#[test]
fn canonicalize_keeps_everything_above_a_low_centre() {
    let r = rig().renderer;
    // centre 2 has its lowest point at 50: only block 0 reaches no higher
    let k = key([[1, 2, 3], [4, 2, 0], [1, 1, 1]], 0);
    assert_eq!(r.canonicalize(k), key([[1, 2, 3], [4, 2, 0], [1, 1, 1]], 0));
    // centre 4 lies at 255: nothing is higher
    let k = key([[1, 2, 3], [4, 4, 0], [1, 1, 1]], 3);
    assert_eq!(r.canonicalize(k), key([[0, 0, 0], [0, 4, 0], [0, 0, 0]], 3));
}

#[test]
fn canonicalize_is_idempotent() {
    let r = rig().renderer;
    for center in 0..5u8 {
        for n in 0..5u8 {
            let k = key([[n, 1, 2], [3, center, 4], [0, n, 2]], n);
            let once = r.canonicalize(k);
            assert_eq!(r.canonicalize(once), once);
        }
    }
}

#[test]
fn render_tile_serves_the_placeholder_and_bakes_once() {
    let mut rig = rig();
    let k = TileKey::with_center(1);
    let first = rig.renderer.render_tile(k);
    assert!(first.is_none());
    assert_eq!(first.uid(), 0);
    assert_eq!(rig.work.try_recv().ok(), Some(k));
    assert!(rig.work.try_recv().is_err());
    // asking again before the work is done hands out nothing
    for _ in 0..5 {
        let again = rig.renderer.render_tile(k);
        assert!(again.is_none());
        assert!(rig.work.try_recv().is_err());
    }
    assert_eq!(rig.renderer.baking_len(), 1);
    assert_eq!(rig.renderer.cache_len(), 0);
    assert_eq!(rig.renderer.bakery().num_baking(), 1);
}

#[test]
fn render_tile_bakes_the_simple_key_as_a_stand_in() {
    let mut rig = rig();
    let k = key([[2, 0, 0], [0, 1, 0], [0, 0, 4]], 0);
    let first = rig.renderer.render_tile(k);
    assert!(first.is_none());
    assert_eq!(rig.work.try_recv().ok(), Some(k));
    assert_eq!(rig.work.try_recv().ok(), Some(TileKey::with_center(1)));
    assert!(rig.work.try_recv().is_err());
    // the stand-in arrives first and is served for the full key
    rig.done.send((TileKey::with_center(1), solid(7))).unwrap();
    let stand_in = rig.renderer.render_tile(k);
    assert!(!stand_in.is_none());
    assert_eq!(stand_in.raw_bgra(), Texture::with_uid(solid(7), 1).raw_bgra());
    assert!(rig.work.try_recv().is_err());
    // then the full tile arrives
    rig.done.send((k, solid(9))).unwrap();
    let full = rig.renderer.render_tile(k);
    assert_eq!(full.raw_bgra(), Texture::with_uid(solid(9), 1).raw_bgra());
    assert_ne!(full.uid(), stand_in.uid());
    assert_eq!(rig.renderer.cache_len(), 2);
    assert_eq!(rig.renderer.baking_len(), 0);
    assert!(rig.work.try_recv().is_err());
}

#[test]
fn render_tile_returns_the_identical_cached_texture() {
    let mut rig = rig();
    let k = key([[0, 3, 0], [0, 1, 0], [0, 0, 0]], 0);
    let other = key([[0, 0, 0], [3, 1, 0], [0, 0, 0]], 0);
    // both keys are canonically the centre block alone
    let _ = rig.renderer.render_tile(k);
    assert_eq!(rig.work.try_recv().ok(), Some(TileKey::with_center(1)));
    rig.done.send((TileKey::with_center(1), solid(3))).unwrap();
    let a = rig.renderer.render_tile(k);
    let b = rig.renderer.render_tile(k);
    let c = rig.renderer.render_tile(other);
    assert!(!a.is_none());
    assert!(Rc::ptr_eq(&a, &b));
    assert!(Rc::ptr_eq(&a, &c));
    assert_eq!(a.uid(), b.uid());
    assert_eq!(a.raw_bgra(), b.raw_bgra());
    assert!(rig.work.try_recv().is_err());
}

#[test]
fn render_tile_ignores_results_nobody_asked_for() {
    let mut rig = rig();
    let k = TileKey::with_center(2);
    let _ = rig.renderer.render_tile(k);
    // a result for another key lands in the outbox and stays there
    rig.done.send((TileKey::with_center(3), solid(1))).unwrap();
    let t = rig.renderer.render_tile(k);
    assert!(t.is_none());
    assert_eq!(rig.renderer.cache_len(), 0);
    assert_eq!(rig.renderer.bakery().outbox_len(), 1);
}

#[test]
fn renderer_create_caches_the_image() {
    let mut rig = rig();
    let k = TileKey::with_center(4);
    let _ = rig.renderer.render_tile(k);
    let tex = rig.renderer.create(k, solid(5));
    assert_eq!(tex.dimensions(), (W, W));
    let again = rig.renderer.render_tile(k);
    assert!(Rc::ptr_eq(&tex, &again));
    assert_eq!(rig.renderer.baking_len(), 0);
}

#[test]
fn test_try_recv() {
    let (to_work, work) = channel::<TileKey>();
    let (done, from_work) = channel::<DoneItem>();
    let mut b = Bakery::new(to_work, from_work);

    let key = TileKey::with_center(2);
    assert!(b.send(key));

    if let Some(_img) = b.try_recv(key) {
        panic!("received too early");
    }

    // the worker's part: take the key, render, send the image back
    let got = work.try_recv().unwrap();
    assert_eq!(got, key);
    done.send((got, solid(2))).unwrap();

    for _i in 0..100 {
        if let Some(_img) = b.try_recv(key) {
            return;
        }
    }
    panic!("did not receive");
}

#[test]
fn bakery_counts_and_keeps_what_was_not_asked_for() {
    let (to_work, work) = channel::<TileKey>();
    let (done, from_work) = channel::<DoneItem>();
    let mut b = Bakery::new(to_work, from_work);
    let k1 = TileKey::with_center(1);
    let k2 = TileKey::with_center(2);
    assert_eq!(b.num_baking(), 0);
    assert!(b.send(k1));
    assert!(b.send(k2));
    assert_eq!(b.num_baking(), 2);
    assert_eq!(work.try_recv().ok(), Some(k1));
    assert_eq!(work.try_recv().ok(), Some(k2));
    done.send((k2, solid(2))).unwrap();
    done.send((k1, solid(1))).unwrap();
    let img = b.try_recv(k1).unwrap();
    assert_eq!(img.at((0, 0)), BGRA(1, 1, 1, 255));
    assert_eq!(b.num_baking(), 0);
    assert_eq!(b.outbox_len(), 1);
    assert!(b.try_recv(k1).is_none());
    let img = b.try_recv(k2).unwrap();
    assert_eq!(img.at((0, 0)), BGRA(2, 2, 2, 255));
    assert_eq!(b.outbox_len(), 0);
}

#[test]
fn bakery_deliver_and_take() {
    let (to_work, _work) = channel::<TileKey>();
    let (_done, from_work) = channel::<DoneItem>();
    let mut b = Bakery::new(to_work, from_work);
    let k = TileKey::with_center(3);
    assert!(b.take(k).is_none());
    let _ = b.send(k);
    b.deliver((k, solid(8)));
    assert_eq!(b.num_baking(), 0);
    assert_eq!(b.outbox_len(), 1);
    let img = b.take(k).unwrap();
    assert_eq!(img.at((1, 1)), BGRA(8, 8, 8, 255));
    assert!(b.take(k).is_none());
}

#[test]
fn bakery_send_reports_a_closed_channel() {
    let (to_work, work) = channel::<TileKey>();
    let (_done, from_work) = channel::<DoneItem>();
    let mut b = Bakery::new(to_work, from_work);
    drop(work);
    assert!(!b.send(TileKey::new()));
    assert_eq!(b.num_baking(), 1);
}

#[test]
fn render_threads_leave_one_core_free() {
    assert_eq!(render_threads_for(0), 1);
    assert_eq!(render_threads_for(1), 1);
    assert_eq!(render_threads_for(2), 1);
    assert_eq!(render_threads_for(3), 2);
    assert_eq!(render_threads_for(16), 15);
    assert!(Bakery::num_render_threads() >= 1);
}

#[test]
fn shared_data_max_height_is_the_highest_level() {
    let s = SharedData::new(palette());
    assert_eq!(s.max_height(TileKey::new()), 0);
    assert_eq!(s.max_height(TileKey::with_center(1)), 100);
    assert_eq!(s.max_height(key([[0, 0, 0], [0, 1, 2], [0, 0, 0]], 0)), 200);
    assert_eq!(s.max_height(key([[0, 0, 0], [0, 1, 2], [0, 0, 0]], 4)), 255);
    assert_eq!(s.max_height(key([[1, 1, 1], [1, 1, 1], [1, 1, 3]], 0)), 100);
}

#[test]
fn shared_data_heights_follow_the_overlay() {
    let mut dm = Image::<BGRA>::new((W, W));
    dm = Image::from_fn((W, W), |x, _y| if x < 2 { BGRA(9, 9, 9, 255) } else { dm.at((x, 0)) });
    let overlay = Surface::new(Image::from_fn((W, W), |_x, _y| 30), dm);
    let pal = Arc::new(vec![
        Surface::from_fn((W, W), |_x, _y| 0),
        Surface::from_fn((W, W), |x, y| (10 * x + y) as u8),
        overlay,
    ]);
    let s = SharedData::new(pal);
    let plain = TileKey::with_center(1);
    let mut decked = TileKey::with_center(1);
    decked.goody = 2;
    assert_eq!(s.height_at(plain, Int2(3, 4)), 34);
    assert_eq!(s.top_surface(plain, Int2(1, 1)), 1);
    // the overlay shows in columns 0 and 1 only
    assert_eq!(s.top_surface(decked, Int2(1, 1)), 2);
    assert_eq!(s.height_at(decked, Int2(1, 1)), 30);
    assert_eq!(s.top_surface(decked, Int2(5, 1)), 1);
    assert_eq!(s.height_at(decked, Int2(5, 1)), 51);
    assert_eq!(s.diffuse_layers(plain, Int2(0, 0)), (BGRA(0, 0, 0, 0), None));
    assert_eq!(
        s.diffuse_layers(decked, Int2(0, 0)),
        (BGRA(0, 0, 0, 0), Some(BGRA(9, 9, 9, 255)))
    );
    assert_eq!(
        s.diffuse_layers(decked, Int2(4, 0)),
        (BGRA(0, 0, 0, 0), Some(BGRA(0, 0, 0, 0)))
    );
    // in the centre tile the higher of block and overlay counts
    assert_eq!(s.height_at_pos(decked, Usize2(1, 1), Int2(1, 1), Int2(1, 1)), 30);
    assert_eq!(s.height_at_pos(decked, Usize2(1, 1), Int2(7, 1), Int2(7, 1)), 71);
    // elsewhere the overlay is not looked at; coordinates are clamped
    assert_eq!(s.height_at_pos(decked, Usize2(0, 1), Int2(1, 1), Int2(1, 1)), 0);
    assert_eq!(s.height_at_pos(plain, Usize2(1, 1), Int2(-5, 100), Int2(0, 0)), 7);
    assert_eq!(s.surface(1).hm_max(), 77);
}

#[test]
fn step_palette_levels_as_the_shadow_test_sees_them() {
    // a flat block with a step: raised right of the middle
    let w = 64;
    let pal = Arc::new(vec![
        Surface::from_fn((w, w), |_x, _y| 0),
        Surface::from_fn((w, w), |x, _y| if x > w / 2 { 255 } else { 0 }),
    ]);
    let s = SharedData::new(pal);
    let mut chunk = TileKey::new();
    chunk.blocks[0][0] = 1;
    chunk.blocks[1][1] = 1;
    assert_eq!(s.max_height(chunk), 255);
    // left of the step the ground is low, right of it high
    assert_eq!(s.height_at_pos(chunk, Usize2(1, 1), Int2(16, 32), Int2(0, 0)), 0);
    assert_eq!(s.height_at_pos(chunk, Usize2(1, 1), Int2(32, 32), Int2(0, 0)), 0);
    assert_eq!(s.height_at_pos(chunk, Usize2(1, 1), Int2(33, 32), Int2(0, 0)), 255);
    assert_eq!(s.height_at_pos(chunk, Usize2(2, 1), Int2(33, 32), Int2(0, 0)), 0);
    assert_eq!(s.height_at_pos(chunk, Usize2(0, 0), Int2(63, 0), Int2(0, 0)), 255);
}

#[test]
fn render_tile_finds_what_already_lies_in_the_outbox() {
    let mut rig = rig();
    let a = TileKey::with_center(1);
    let b = TileKey::with_center(2);
    let _ = rig.renderer.render_tile(a);
    let _ = rig.renderer.render_tile(b);
    // the image for `b` arrives while `a` is asked for: it waits in the outbox
    rig.done.send((b, solid(6))).unwrap();
    assert!(rig.renderer.render_tile(a).is_none());
    assert_eq!(rig.renderer.bakery().outbox_len(), 1);
    assert_eq!(rig.renderer.bakery().num_baking(), 1);
    // nothing new arrives, and still `b` is served from the outbox
    let tex = rig.renderer.render_tile(b);
    assert!(!tex.is_none());
    assert_eq!(tex.raw_bgra(), Texture::with_uid(solid(6), 1).raw_bgra());
    assert_eq!(rig.renderer.bakery().outbox_len(), 0);
    assert_eq!(rig.renderer.cache_len(), 1);
    assert_eq!(rig.renderer.baking_len(), 1);
}
