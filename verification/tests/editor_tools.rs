use flux::common::pt::Pt;
use flux::common::rect::Rect;
use flux::editor::editor::{bg, grid_color, selection_bg, selection_fg, Editor, Request};
use flux::editor::toolbar::Toolbar;
use flux::game::gamestate::GameState;
use flux::game::key::Key;
use flux::game::map::{ByteMap, GameMap};
use flux::game::palette::{block_types, NUM_BLOCKS};
use flux::game::texture::{Texture, TextureIds};
use flux::tracer::bakery::{Bakery, DoneItem};
use flux::tracer::color::BGRA;
use flux::tracer::image::Image;
use flux::tracer::renderer::Renderer;
use flux::tracer::surface::Surface;
use flux::tracer::tilekey::TileKey;
use std::sync::mpsc::channel;
use std::sync::Arc;

fn textures(n: usize) -> Vec<Texture> {
    (0..n).map(|i| Texture::with_uid(Image::new((64, 64)), i + 1)).collect()
}

fn marker() -> Texture {
    Texture::with_uid(Image::new((64, 64)), 1000)
}

fn map() -> GameMap {
    let palette: Vec<Surface> =
        (0..NUM_BLOCKS).map(|i| Surface::from_fn((4, 4), move |_x, _y| i as u8)).collect();
    let (to_work, _work) = channel::<TileKey>();
    let (_done, from_work) = channel::<DoneItem>();
    let renderer = Renderer::new(Arc::new(palette), Bakery::new(to_work, from_work), TextureIds::new());
    GameMap::from(ByteMap::new(), Vec::new(), renderer, block_types())
}

fn editor() -> Editor {
    Editor::from_parts(
        Toolbar::new(Pt(5, 2), textures(2), marker()),
        Toolbar::new(Pt(5, 64 + 2 + 5), textures(29), marker()),
        map(),
    )
}

#[test]
fn toolbar_layout() {
    let t = Toolbar::new(Pt(5, 71), textures(29), marker());
    assert_eq!(t.columns(), 4);
    assert_eq!(t.selected(), 0);
    assert_eq!(t.dimensions(), (256, 8 * 64));
    assert_eq!(t.position(), Pt(5, 71));
    assert_eq!(t.buttons().len(), 29);
    assert_eq!(t.tex_selected().uid(), 1000);
    assert_eq!(t.button_pos(0), Pt(0, 0));
    assert_eq!(t.button_pos(3), Pt(192, 0));
    assert_eq!(t.button_pos(4), Pt(0, 64));
    assert_eq!(t.button_pos(28), Pt(0, 448));
    assert!(t.is_inside(Pt(5, 71)));
    assert!(t.is_inside(Pt(260, 582)));
    assert!(!t.is_inside(Pt(261, 71)));
    assert!(!t.is_inside(Pt(5, 583)));
    assert!(!t.is_inside(Pt(4, 71)));
    assert_eq!(Toolbar::new(Pt(0, 0), textures(4), marker()).dimensions(), (256, 64));
    assert_eq!(Toolbar::new(Pt(0, 0), textures(5), marker()).dimensions(), (256, 128));
    assert_eq!(Toolbar::new(Pt(0, 0), textures(2), marker()).dimensions(), (256, 64));
    assert_eq!(Toolbar::new(Pt(0, 0), textures(0), marker()).dimensions(), (256, 64));
}

#[test]
fn toolbar_clicks_pick_buttons() {
    let mut t = Toolbar::new(Pt(5, 71), textures(29), marker());
    t.button_click(Pt(5 + 64, 71));
    assert_eq!(t.selected(), 1);
    t.button_click(Pt(5 + 3 * 64 + 63, 71 + 2 * 64));
    assert_eq!(t.selected(), 11);
    t.button_click(Pt(5, 71 + 7 * 64));
    assert_eq!(t.selected(), 28);
    // beyond the last button nothing is picked
    t.button_click(Pt(5 + 64, 71 + 7 * 64));
    assert_eq!(t.selected(), 28);
    // right of the last column the count runs on into the next row
    t.button_click(Pt(5 + 4 * 64, 71));
    assert_eq!(t.selected(), 4);
    // left of or above the toolbar nothing is picked
    t.button_click(Pt(5 - 64, 71));
    assert_eq!(t.selected(), 4);
    t.button_click(Pt(5, 71 - 64));
    assert_eq!(t.selected(), 4);
    // just left of it the division rounds toward zero: column 0
    t.button_click(Pt(4, 71));
    assert_eq!(t.selected(), 0);
}

#[test]
fn editor_starts_paused_with_nothing_selected() {
    let e = editor();
    assert!(e.is_paused());
    assert_eq!(e.origin(), Pt(0, 0));
    assert_eq!(e.zoom(), 1);
    assert_eq!(e.selection(), Rect::new(Pt(0, 0), (0, 0)));
    assert_eq!(e.selected_block(), 0);
    assert_eq!(e.the_brush_bar().selected(), 0);
    assert_eq!(e.the_palette_bar().buttons().len(), 29);
    assert_eq!(bg(), BGRA(255, 255, 255, 255));
    assert_eq!(grid_color(), BGRA(196, 128, 128, 32));
    assert_eq!(selection_bg(), BGRA(255, 128, 128, 64));
    assert_eq!(selection_fg(), BGRA(255, 128, 128, 224));
}

#[test]
fn editor_pix_to_grid() {
    let mut e = editor();
    assert_eq!(e.pix_to_grid(Pt(64, 64)), Some(Pt(1, 1)));
    assert_eq!(e.pix_to_grid(Pt(63, 64)), None);
    assert_eq!(e.pix_to_grid(Pt(640, 200)), Some(Pt(10, 3)));
    assert_eq!(e.pix_to_grid(Pt(-1, -1)), None);
    assert_eq!(e.key_down(Key::ZoomOut), Request::Nothing);
    assert_eq!(e.zoom(), 2);
    assert_eq!(e.pix_to_grid(Pt(64, 64)), Some(Pt(2, 2)));
    assert_eq!(e.key_down(Key::Right), Request::Nothing);
    assert_eq!(e.origin(), Pt(64, 0));
    assert_eq!(e.pix_to_grid(Pt(64, 64)), Some(Pt(3, 2)));
    assert_eq!(e.pix_to_grid(Pt(i32::MAX, i32::MAX)), None);
}

#[test]
fn editor_keys_pan_and_zoom() {
    let mut e = editor();
    e.key_down(Key::Left);
    assert_eq!(e.origin(), Pt(-64, 0));
    e.key_down(Key::Down);
    e.key_down(Key::Down);
    assert_eq!(e.origin(), Pt(-64, 128));
    e.key_down(Key::Up);
    e.key_down(Key::Right);
    assert_eq!(e.origin(), Pt(0, 64));
    e.key_down(Key::ZoomIn);
    assert_eq!(e.zoom(), 1);
    e.key_down(Key::ZoomOut);
    e.key_down(Key::ZoomOut);
    assert_eq!(e.zoom(), 4);
    e.key_down(Key::ZoomOut);
    assert_eq!(e.zoom(), 4);
    e.key_down(Key::ZoomIn);
    assert_eq!(e.zoom(), 2);
    e.key_down(Key::Save);
    e.key_up(Key::Save);
    assert_eq!((e.origin(), e.zoom()), (Pt(0, 64), 2));
    e.mouse_wheel(1, -2);
    assert_eq!(e.origin(), Pt(-64, 192));
    e.tick();
    assert!(e.is_paused());
}

#[test]
fn editor_pencil_draws_and_deletes() {
    let mut e = editor();
    // pick block number 8 of the palette bar: hydrogen-brick, identifier 1
    e.mouse_button(Pt(5 + 10, 71 + 2 * 64 + 10), true, false, true);
    assert_eq!(e.the_palette_bar().selected(), 8);
    assert_eq!(e.selected_block(), 1);
    // releasing the button on the bar does nothing
    e.mouse_button(Pt(5 + 70, 71 + 10), true, false, false);
    assert_eq!(e.the_palette_bar().selected(), 8);
    e.mouse_button(Pt(640, 200), true, false, true);
    assert_eq!(e.the_map().bytemap().at(Pt(10, 3)), 1);
    // moving with the button held draws on
    e.mouse_motion(Pt(704, 200), true, false);
    assert_eq!(e.the_map().bytemap().at(Pt(11, 3)), 1);
    // moving over a toolbar draws nothing
    e.mouse_motion(Pt(100, 100), true, false);
    assert_eq!(e.the_map().bytemap().at(Pt(1, 1)), 1);
    assert_eq!(e.the_map().bytemap().blocks.len(), 4);
    // the right button empties the cell
    e.mouse_button(Pt(640, 200), false, true, true);
    assert_eq!(e.the_map().bytemap().at(Pt(10, 3)), 0);
    // goodies: pick the seed, put it down, take it away again
    e.mouse_button(Pt(5 + 64 + 10, 71 + 10), true, false, true);
    assert_eq!(e.selected_block(), 28);
    e.mouse_button(Pt(704, 200), true, false, true);
    assert_eq!(e.the_map().goodie_at(Pt(11, 3)), 28);
    assert_eq!(e.the_map().bytemap().at(Pt(11, 3)), 1);
    e.mouse_button(Pt(704, 200), false, true, true);
    assert_eq!(e.the_map().goodie_at(Pt(11, 3)), 0);
    assert_eq!(e.the_map().bytemap().at(Pt(11, 3)), 1);
    e.mouse_button(Pt(704, 200), false, true, true);
    assert_eq!(e.the_map().bytemap().at(Pt(11, 3)), 0);
    // the first row and column cannot be edited
    e.mouse_button(Pt(300, 10), true, false, true);
    assert_eq!(e.the_map().goodie_at(Pt(4, 0)), 0);
}

#[test]
fn editor_rectangle_brush_fills_the_selection() {
    let mut e = editor();
    e.mouse_button(Pt(5 + 64 + 10, 2 + 10), true, false, true);
    assert_eq!(e.the_brush_bar().selected(), 1);
    e.mouse_button(Pt(5 + 2 * 64 + 10, 71 + 64 + 10), true, false, true);
    assert_eq!(e.selected_block(), 3);
    e.mouse_button(Pt(640, 400), true, false, true);
    assert_eq!(e.selection(), Rect { min: Pt(10, 6), max: Pt(11, 7) });
    e.mouse_motion(Pt(520, 600), true, false);
    assert_eq!(e.selection(), Rect { min: Pt(8, 6), max: Pt(11, 10) });
    e.mouse_motion(Pt(900, 900), false, false);
    assert_eq!(e.selection(), Rect { min: Pt(8, 6), max: Pt(11, 10) });
    e.mouse_button(Pt(580, 470), true, false, false);
    assert_eq!(e.selection(), Rect::new(Pt(0, 0), (0, 0)));
    for y in 5..9 {
        for x in 7..13 {
            let inside = (9..=10).contains(&x) && (6..=7).contains(&y);
            assert_eq!(e.the_map().bytemap().at(Pt(x, y)), if inside { 3 } else { 0 });
        }
    }
    // the right button deletes as the pencil does
    e.mouse_button(Pt(580, 470), false, true, true);
    assert_eq!(e.the_map().bytemap().at(Pt(9, 7)), 0);
    e.clear_selection();
    e.fill_rect(Rect::new(Pt(2, 2), (2, 1)), 5);
    assert_eq!(e.the_map().bytemap().blocks[2], vec![0, 0, 5, 5]);
    e.set(Pt(2, 2), 6);
    assert_eq!(e.the_map().bytemap().at(Pt(2, 2)), 6);
}

#[test]
fn editor_pause_key_asks_for_a_game_and_ends_it() {
    let mut e = editor();
    assert_eq!(e.key_down(Key::Pause), Request::Play);
    assert!(e.is_paused());
    let textures =
        [Texture::with_uid(Image::new((32, 32)), 1), Texture::with_uid(Image::new((32, 32)), 2)];
    e.play(GameState::new(map(), textures));
    assert!(!e.is_paused());
    // while playing, keys go to the game and the view stays
    assert_eq!(e.key_down(Key::Left), Request::Nothing);
    assert_eq!(e.key_down(Key::ZoomOut), Request::Nothing);
    e.key_up(Key::Left);
    e.mouse_wheel(3, 3);
    e.tick();
    assert_eq!((e.origin(), e.zoom()), (Pt(0, 0), 1));
    assert_eq!(e.key_down(Key::Pause), Request::Nothing);
    assert!(e.is_paused());
}
