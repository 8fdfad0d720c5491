use crate::common::vector2::Int2;
use crate::tracer::color::BGRA;
use crate::tracer::image::Image;
use vstd::prelude::*;

verus! {

/// The largest value in `s`, or 0 where `s` is empty.
pub open spec fn max_level(s: Seq<u8>) -> u8
    decreases s.len(),
{
    if s.len() == 0 {
        0
    } else if s.last() > max_level(s.drop_last()) {
        s.last()
    } else {
        max_level(s.drop_last())
    }
}

/// The smallest value in `s`, or 255 where `s` is empty.
pub open spec fn min_level(s: Seq<u8>) -> u8
    decreases s.len(),
{
    if s.len() == 0 {
        255
    } else if s.last() < min_level(s.drop_last()) {
        s.last()
    } else {
        min_level(s.drop_last())
    }
}

/// `max_level` bounds every element from above and, unless the sequence is
/// empty, is one of its elements.
pub proof fn lemma_max_level(s: Seq<u8>)
    ensures
        forall|i: int| 0 <= i < s.len() ==> #[trigger] s[i] <= max_level(s),
        s.len() > 0 ==> exists|i: int| 0 <= i < s.len() && #[trigger] s[i] == max_level(s),
    decreases s.len(),
{
    if s.len() > 0 {
        let t = s.drop_last();
        lemma_max_level(t);
        assert forall|i: int| 0 <= i < s.len() implies #[trigger] s[i] <= max_level(s) by {
            if i < t.len() {
                assert(t[i] == s[i]);
            }
        }
        if s.last() > max_level(t) || t.len() == 0 {
            assert(s[s.len() - 1] == max_level(s));
        } else {
            let i = choose|i: int| 0 <= i < t.len() && #[trigger] t[i] == max_level(t);
            assert(s[i] == max_level(s));
        }
    }
}

/// `min_level` bounds every element from below and, unless the sequence is
/// empty, is one of its elements.
pub proof fn lemma_min_level(s: Seq<u8>)
    ensures
        forall|i: int| 0 <= i < s.len() ==> min_level(s) <= #[trigger] s[i],
        s.len() > 0 ==> exists|i: int| 0 <= i < s.len() && #[trigger] s[i] == min_level(s),
    decreases s.len(),
{
    if s.len() > 0 {
        let t = s.drop_last();
        lemma_min_level(t);
        assert forall|i: int| 0 <= i < s.len() implies min_level(s) <= #[trigger] s[i] by {
            if i < t.len() {
                assert(t[i] == s[i]);
            }
        }
        if s.last() < min_level(t) || t.len() == 0 {
            assert(s[s.len() - 1] == min_level(s));
        } else {
            let i = choose|i: int| 0 <= i < t.len() && #[trigger] t[i] == min_level(t);
            assert(s[i] == min_level(s));
        }
    }
}

/// A block's 3D texture: a height map and a diffuse colour map.
///
/// Heights are counted in levels from 0 to 255; one level stands for
/// 1/255 of the tallest height a block can have.
pub struct Surface {
    dm: Image<BGRA>,
    hm: Image<u8>,
    hm_min: u8,
    hm_max: u8,
}

impl Surface {
    /// The height map.
    pub closed spec fn height_map(&self) -> Image<u8> {
        self.hm
    }

    /// The diffuse colour map.
    pub closed spec fn diffuse_map(&self) -> Image<BGRA> {
        self.dm
    }

    /// The lowest level of the height map.
    pub closed spec fn spec_hm_min(&self) -> u8 {
        self.hm_min
    }

    /// The highest level of the height map.
    pub closed spec fn spec_hm_max(&self) -> u8 {
        self.hm_max
    }

    /// Both maps are well formed and the two cached levels are the extremes
    /// of the height map. Only a surface without any pixel may report 0 as
    /// its lowest level.
    pub open spec fn wf(&self) -> bool {
        &&& self.height_map().wf()
        &&& self.diffuse_map().wf()
        &&& self.spec_hm_max() == max_level(self.height_map().pixel_seq())
        &&& self.spec_hm_min() == min_level(self.height_map().pixel_seq()) || (
            self.height_map().pixel_seq().len() == 0 && self.spec_hm_min() == 0)
    }

    #[verifier::type_invariant]
    pub open spec fn inv(&self) -> bool {
        self.wf()
    }

    /// Whether `pix` addresses a pixel of the height map.
    pub open spec fn covers(&self, pix: Int2) -> bool {
        self.height_map().contains(pix.0 as int, pix.1 as int)
    }

    /// A surface with the given height map and diffuse map.
    pub fn new(hm: Image<u8>, dm: Image<BGRA>) -> (s: Self)
        ensures
            s.wf(),
            s.height_map() == hm,
            s.diffuse_map() == dm,
            s.spec_hm_max() == max_level(hm.pixel_seq()),
            s.spec_hm_min() == min_level(hm.pixel_seq()),
    {
        let px = hm.pixels();
        let n: usize = px.len();
        let mut hm_max: u8 = 0;
        let mut hm_min: u8 = 255;
        let mut i: usize = 0;
        while i < n
            invariant
                px@ == hm.pixel_seq(),
                n == px@.len(),
                i <= n,
                hm_max == max_level(px@.take(i as int)),
                hm_min == min_level(px@.take(i as int)),
            decreases n - i,
        {
            proof {
                assert(px@.take(i + 1).drop_last() =~= px@.take(i as int));
            }
            hm_max = crate::common::math::max(hm_max, px[i]);
            hm_min = crate::common::math::min(hm_min, px[i]);
            i += 1;
        }
        proof {
            assert(px@.take(n as int) =~= px@);
            use_type_invariant(&hm);
            use_type_invariant(&dm);
        }
        Self { hm, dm, hm_min, hm_max }
    }

    /// A surface whose height map holds `f(x, y)` in column `x`, row `y`,
    /// and whose diffuse map is left at its default colour.
    pub fn from_fn<F: Fn(i32, i32) -> u8>(dim: (i32, i32), f: F) -> (s: Self)
        requires
            0 <= dim.0,
            0 <= dim.1,
            dim.0 * dim.1 <= usize::MAX,
            forall|x: i32, y: i32| 0 <= x < dim.0 && 0 <= y < dim.1 ==> call_requires(f, (x, y)),
        ensures
            s.wf(),
            s.height_map().spec_width() == dim.0,
            s.height_map().spec_height() == dim.1,
            s.diffuse_map().spec_width() == dim.0,
            s.diffuse_map().spec_height() == dim.1,
            forall|x: i32, y: i32|
                0 <= x < dim.0 && 0 <= y < dim.1 ==> call_ensures(
                    f,
                    (x, y),
                    #[trigger] s.height_map().pixel(x as int, y as int),
                ),
            forall|i: int|
                0 <= i < s.diffuse_map().pixel_seq().len()
                    ==> #[trigger] s.diffuse_map().pixel_seq()[i] == BGRA(0, 0, 0, 0),
    {
        let hm = Image::from_fn(dim, f);
        let dm = Image::new(dim);
        Self::new(hm, dm)
    }

    /// The highest level of the height map; 0 for a surface without pixels.
    pub fn hm_max(&self) -> (m: u8)
        ensures
            m == self.spec_hm_max(),
    {
        self.hm_max
    }

    /// The lowest level of the height map.
    pub fn hm_min(&self) -> (m: u8)
        ensures
            m == self.spec_hm_min(),
    {
        self.hm_min
    }

    /// Width and height, in pixels.
    #[inline]
    pub fn dimensions(&self) -> (d: (i32, i32))
        ensures
            d.0 == self.height_map().spec_width(),
            d.1 == self.height_map().spec_height(),
    {
        self.hm.dimensions()
    }

    /// The diffuse colour at pixel `pix`.
    pub fn diffuse_at(&self, pix: Int2) -> (c: BGRA)
        requires
            self.diffuse_map().contains(pix.0 as int, pix.1 as int),
        ensures
            c == self.diffuse_map().pixel(pix.0 as int, pix.1 as int),
    {
        self.dm.at((pix.x(), pix.y()))
    }

    /// The height level at pixel `pix`.
    #[inline]
    pub fn height_at(&self, pix: Int2) -> (level: u8)
        requires
            self.covers(pix),
        ensures
            level == self.height_map().pixel(pix.0 as int, pix.1 as int),
            self.wf() ==> self.spec_hm_min() <= level <= self.spec_hm_max(),
    {
        proof {
            use_type_invariant(self);
            use_type_invariant(&self.hm);
            lemma_max_level(self.hm.pixel_seq());
            lemma_min_level(self.hm.pixel_seq());
            crate::tracer::image::lemma_pixel_index(
                self.hm.spec_width(),
                self.hm.spec_height(),
                pix.0 as int,
                pix.1 as int,
            );
        }
        self.hm.at((pix.x(), pix.y()))
    }

    /// The four height levels from which the slope at pixel `pix` is taken:
    /// those of its left, right, upper and lower neighbour, in this order.
    /// At the border the pixel itself stands in for the neighbour that is
    /// missing.
    pub fn normal_stencil(&self, pix: Int2) -> (levels: [u8; 4])
        requires
            self.covers(pix),
        ensures
            levels[0] == self.height_map().pixel(
                if pix.0 > 0 {
                    pix.0 - 1
                } else {
                    0
                },
                pix.1 as int,
            ),
            levels[1] == self.height_map().pixel(
                if pix.0 + 1 < self.height_map().spec_width() {
                    pix.0 + 1
                } else {
                    self.height_map().spec_width() - 1
                },
                pix.1 as int,
            ),
            levels[2] == self.height_map().pixel(
                pix.0 as int,
                if pix.1 > 0 {
                    pix.1 - 1
                } else {
                    0
                },
            ),
            levels[3] == self.height_map().pixel(
                pix.0 as int,
                if pix.1 + 1 < self.height_map().spec_height() {
                    pix.1 + 1
                } else {
                    self.height_map().spec_height() - 1
                },
            ),
    {
        let (w, h) = self.dimensions();
        let (x, y) = (pix.0, pix.1);
        let yminus = crate::common::math::max(y - 1, 0);
        let yplus = crate::common::math::min(y + 1, h - 1);
        let xminus = crate::common::math::max(x - 1, 0);
        let xplus = crate::common::math::min(x + 1, w - 1);
        [
            self.height_at(Int2(xminus, y)),
            self.height_at(Int2(xplus, y)),
            self.height_at(Int2(x, yminus)),
            self.height_at(Int2(x, yplus)),
        ]
    }

    /// The height level at the pixel nearest to `pix`: each coordinate is
    /// first clamped into the height map.
    #[inline]
    pub fn height_at_uv(&self, pix: Int2) -> (level: u8)
        requires
            self.height_map().spec_width() > 0,
            self.height_map().spec_height() > 0,
        ensures
            level == self.height_map().pixel(
                clamped(pix.0 as int, self.height_map().spec_width() as int),
                clamped(pix.1 as int, self.height_map().spec_height() as int),
            ),
    {
        let (w, h) = self.dimensions();
        let x = clamp(pix.x(), w);
        let y = clamp(pix.y(), h);
        self.height_at(Int2(x, y))
    }
}

/// `x` moved into the range from 0 up to, but not including, `max`.
pub open spec fn clamped(x: int, max: int) -> int {
    if x >= max {
        max - 1
    } else if x < 0 {
        0
    } else {
        x
    }
}

fn clamp(x: i32, max: i32) -> (r: i32)
    requires
        max > i32::MIN,
    ensures
        r == clamped(x as int, max as int),
{
    if x >= max {
        return max - 1;
    }
    if x < 0 {
        return 0;
    }
    return x;
}

impl Default for Surface {
    /// The surface without any pixel.
    fn default() -> (s: Self)
        ensures
            s.wf(),
            s.height_map().spec_width() == 0,
            s.height_map().spec_height() == 0,
            s.spec_hm_min() == 0,
            s.spec_hm_max() == 0,
    {
        let hm = Image::default();
        let dm = Image::default();
        Self { hm, dm, hm_min: 0, hm_max: 0 }
    }
}

} // verus!
