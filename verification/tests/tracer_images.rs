use flux::common::vector2::Int2;
use flux::game::texture::{texture_dir, Texture, TextureIds};
use flux::tracer::color::BGRA;
use flux::tracer::halton::halton_digits;
use flux::tracer::image::Image;
use flux::tracer::surface::Surface;

/// The value of an element of the Halton series from its digits: digit `k`
/// weighs `1 / b^(k + 1)`.
fn halton(b: usize, i: usize) -> f64 {
    let bf = b as f64;
    let mut f = 1.0;
    let mut r = 0.0;
    for d in halton_digits(b, i) {
        f = f / bf;
        r = r + f * (d as f64);
    }
    r
}

#[test]
fn test_halton() {
    assert_eq!(halton(2, 0), 0.5);
    assert_eq!(halton(2, 1), 0.25);
    assert_eq!(halton(2, 2), 0.75);
    assert_eq!(halton(2, 3), 0.125);
    assert_eq!(halton(2, 4), 0.625);
    assert_eq!(halton(2, 5), 0.375);
    assert_eq!(halton(2, 6), 0.875);
    assert_eq!(halton(2, 7), 0.0625);
    assert_eq!(halton(2, 8), 0.5625);
    assert_eq!(halton(2, 9), 0.3125);
}

#[test]
fn halton_digits_are_those_of_the_successor() {
    assert_eq!(halton_digits(2, 0), vec![1]);
    assert_eq!(halton_digits(2, 1), vec![0, 1]);
    assert_eq!(halton_digits(2, 4), vec![1, 0, 1]);
    assert_eq!(halton_digits(3, 0), vec![1]);
    assert_eq!(halton_digits(3, 1), vec![2]);
    assert_eq!(halton_digits(3, 2), vec![0, 1]);
    assert_eq!(halton_digits(3, 16), vec![2, 2, 1]);
    assert_eq!(halton_digits(10, 1233), vec![4, 3, 2, 1]);
    assert_eq!(halton_digits(usize::MAX, 5), vec![6]);
    let d = halton_digits(2, usize::MAX - 1);
    assert_eq!(d.len(), usize::BITS as usize);
    assert!(d.iter().all(|x| *x == 1));
}

#[test]
fn bgra_channels() {
    let c = BGRA(1, 2, 3, 4);
    assert_eq!(c.b(), 1);
    assert_eq!(c.g(), 2);
    assert_eq!(c.r(), 3);
    assert_eq!(c.a(), 4);
    assert_eq!(c.rgba(), [3, 2, 1, 4]);
    assert_eq!(c.rgb_array(), [1, 2, 3]);
    assert_eq!(BGRA::default(), BGRA(0, 0, 0, 0));
    assert_eq!(BGRA::white(), BGRA(255, 255, 255, 255));
    assert_eq!(BGRA::black(), BGRA(0, 0, 0, 255));
    assert_eq!(c.inverted(), BGRA(254, 253, 252, 4));
    assert_eq!(BGRA(0, 255, 128, 0).inverted(), BGRA(255, 0, 127, 0));
}

#[test]
fn image_new_is_filled_with_defaults() {
    let img = Image::<u8>::new((3, 2));
    assert_eq!(img.width(), 3);
    assert_eq!(img.height(), 2);
    assert_eq!(img.dimensions(), (3, 2));
    assert_eq!(img.pixels(), &[0u8, 0, 0, 0, 0, 0][..]);
    let img = Image::<BGRA>::new((1, 1));
    assert_eq!(img.at((0, 0)), BGRA(0, 0, 0, 0));
    let empty = Image::<u8>::new((0, 5));
    assert_eq!(empty.pixels().len(), 0);
    assert_eq!(empty.dimensions(), (0, 5));
}

#[test]
fn image_from_fn_is_row_major() {
    let img = Image::<u8>::from_fn((3, 2), |x, y| (10 * y + x) as u8);
    assert_eq!(img.pixels(), &[0u8, 1, 2, 10, 11, 12][..]);
    assert_eq!(img.at((2, 0)), 2);
    assert_eq!(img.at((0, 1)), 10);
    assert_eq!(img.at((2, 1)), 12);
    let copy = img.clone();
    assert_eq!(copy, img);
}

#[test]
fn image_default_is_empty() {
    let img = Image::<BGRA>::default();
    assert_eq!(img.dimensions(), (0, 0));
    assert_eq!(img.pixels().len(), 0);
    assert_eq!(img.raw_bgra(), Vec::<u8>::new());
}

#[test]
fn image_raw_bgra_swaps_first_and_third_channel() {
    let img = Image::<BGRA>::from_fn((2, 1), |x, _y| {
        if x == 0 {
            BGRA(1, 2, 3, 4)
        } else {
            BGRA(5, 6, 7, 8)
        }
    });
    assert_eq!(img.raw_bgra(), vec![3, 2, 1, 4, 7, 6, 5, 8]);
}

#[test]
fn image_to_bgra_is_grey_and_opaque() {
    let img = Image::<u8>::from_fn((2, 2), |x, y| (x + 2 * y) as u8);
    let c = img.to_bgra();
    assert_eq!(c.dimensions(), (2, 2));
    assert_eq!(c.at((0, 0)), BGRA(0, 0, 0, 255));
    assert_eq!(c.at((1, 0)), BGRA(1, 1, 1, 255));
    assert_eq!(c.at((0, 1)), BGRA(2, 2, 2, 255));
    assert_eq!(c.at((1, 1)), BGRA(3, 3, 3, 255));
}

#[test]
fn surface_caches_its_extremes() {
    let s = Surface::from_fn((4, 3), |x, y| (20 + 10 * x + y) as u8);
    assert_eq!(s.hm_min(), 20);
    assert_eq!(s.hm_max(), 52);
    assert_eq!(s.dimensions(), (4, 3));
    assert_eq!(s.height_at(Int2(3, 2)), 52);
    assert_eq!(s.height_at(Int2(0, 0)), 20);
    assert_eq!(s.diffuse_at(Int2(1, 1)), BGRA(0, 0, 0, 0));
    let flat = Surface::from_fn((2, 2), |_x, _y| 255);
    assert_eq!((flat.hm_min(), flat.hm_max()), (255, 255));
}

#[test]
fn surface_without_pixels() {
    let d = Surface::default();
    assert_eq!(d.dimensions(), (0, 0));
    assert_eq!((d.hm_min(), d.hm_max()), (0, 0));
    let n = Surface::new(Image::<u8>::new((0, 0)), Image::<BGRA>::new((0, 0)));
    assert_eq!((n.hm_min(), n.hm_max()), (255, 0));
}

#[test]
fn surface_height_at_uv_clamps() {
    let s = Surface::from_fn((4, 3), |x, y| (10 * x + y) as u8);
    assert_eq!(s.height_at_uv(Int2(2, 1)), 21);
    assert_eq!(s.height_at_uv(Int2(-1, 1)), 1);
    assert_eq!(s.height_at_uv(Int2(4, 1)), 31);
    assert_eq!(s.height_at_uv(Int2(100, -100)), 30);
    assert_eq!(s.height_at_uv(Int2(0, 3)), 2);
    assert_eq!(s.height_at_uv(Int2(i32::MIN, i32::MAX)), 2);
}

#[test]
fn surface_normal_stencil_clamps_at_the_border() {
    let s = Surface::from_fn((3, 3), |x, y| (10 * x + y) as u8);
    assert_eq!(s.normal_stencil(Int2(1, 1)), [1, 21, 10, 12]);
    assert_eq!(s.normal_stencil(Int2(0, 0)), [0, 10, 0, 1]);
    assert_eq!(s.normal_stencil(Int2(2, 2)), [12, 22, 21, 22]);
    let one = Surface::from_fn((1, 1), |_x, _y| 9);
    assert_eq!(one.normal_stencil(Int2(0, 0)), [9, 9, 9, 9]);
}

#[test]
fn textures_and_their_identifiers() {
    assert_eq!(texture_dir(), "assets/textures");
    let none = Texture::default();
    assert!(none.is_none());
    assert_eq!(none.uid(), 0);
    assert_eq!(none.dimensions(), (0, 0));
    let ids = TextureIds::new();
    let other = ids.clone();
    let a = Texture::new(Image::new((2, 3)), &ids);
    let b = Texture::new(Image::new((1, 1)), &other);
    assert_eq!(a.uid(), 1);
    assert_eq!(b.uid(), 2);
    assert_eq!(ids.next_uid(), 3);
    assert!(!a.is_none());
    assert_eq!(a.dimensions(), (2, 3));
    assert_eq!(a.raw_bgra(), vec![0u8; 24]);
    let t = Texture::with_uid(Image::from_fn((1, 1), |_x, _y| BGRA(1, 2, 3, 4)), 77);
    assert_eq!(t.uid(), 77);
    assert_eq!(t.raw_bgra(), vec![3, 2, 1, 4]);
}
