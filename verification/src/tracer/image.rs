use crate::tracer::color::BGRA;
use vstd::prelude::*;

verus! {

/// A rectangular grid of colour values, stored row by row.
#[derive(Debug, PartialEq)]
pub struct Image<C> {
    width: usize,
    height: usize,
    values: Vec<C>,
}

impl<C> Image<C> {
    /// Width in pixels.
    pub closed spec fn spec_width(&self) -> nat {
        self.width as nat
    }

    /// Height in pixels.
    pub closed spec fn spec_height(&self) -> nat {
        self.height as nat
    }

    /// All pixels, row after row.
    pub closed spec fn pixel_seq(&self) -> Seq<C> {
        self.values@
    }

    /// The pixel in column `x` of row `y`.
    pub open spec fn pixel(&self, x: int, y: int) -> C {
        self.pixel_seq()[y * self.spec_width() + x]
    }

    /// Whether column `x`, row `y` lies inside the image.
    pub open spec fn contains(&self, x: int, y: int) -> bool {
        0 <= x < self.spec_width() && 0 <= y < self.spec_height()
    }

    /// Every image holds exactly width times height pixels, and both
    /// measures fit a signed 32-bit coordinate.
    pub open spec fn wf(&self) -> bool {
        &&& self.pixel_seq().len() == self.spec_width() * self.spec_height()
        &&& self.spec_width() <= i32::MAX
        &&& self.spec_height() <= i32::MAX
    }

    #[verifier::type_invariant]
    pub open spec fn inv(&self) -> bool {
        self.wf()
    }
}

/// The row-major position of an in-range pixel lies inside the pixel sequence.
pub proof fn lemma_pixel_index(w: nat, h: nat, x: int, y: int)
    requires
        0 <= x < w,
        0 <= y < h,
    ensures
        0 <= y * w + x < h * w,
        0 <= y * w,
        y * w + w <= h * w,
        h * w == w * h,
{
    assert(y * w + w == (y + 1) * w) by (nonlinear_arith);
    assert((y + 1) * w <= h * w) by (nonlinear_arith)
        requires
            y + 1 <= h,
            0 <= w,
    ;
    assert(h * w == w * h) by (nonlinear_arith);
    assert(0 <= y * w) by (nonlinear_arith)
        requires
            0 <= y,
            0 <= w,
    ;
}

impl<C: Copy> Clone for Image<C> {
    fn clone(&self) -> (img: Self)
        ensures
            img.spec_width() == self.spec_width(),
            img.spec_height() == self.spec_height(),
            img.pixel_seq() == self.pixel_seq(),
    {
        proof {
            use_type_invariant(self);
        }
        let mut values: Vec<C> = Vec::new();
        let n: usize = self.values.len();
        let mut i: usize = 0;
        while i < n
            invariant
                n == self.values@.len(),
                i <= n,
                values@ == self.values@.take(i as int),
            decreases n - i,
        {
            values.push(self.values[i]);
            proof {
                assert(values@ =~= self.values@.take(i + 1));
            }
            i += 1;
        }
        proof {
            assert(values@ =~= self.values@);
        }
        Image { width: self.width, height: self.height, values }
    }
}

impl<C: Copy + Default> Image<C> {
    /// An image of the given width and height in which every pixel is a
    /// default value of `C`.
    pub fn new(dim: (i32, i32)) -> (img: Image<C>)
        requires
            0 <= dim.0,
            0 <= dim.1,
            dim.0 * dim.1 <= usize::MAX,
        ensures
            img.wf(),
            img.spec_width() == dim.0,
            img.spec_height() == dim.1,
            forall|i: int|
                0 <= i < img.pixel_seq().len() ==> call_ensures(
                    C::default,
                    (),
                    #[trigger] img.pixel_seq()[i],
                ),
    {
        let w: usize = dim.0 as usize;
        let h: usize = dim.1 as usize;
        let n: usize = w * h;
        let mut values: Vec<C> = Vec::with_capacity(n);
        let mut i: usize = 0;
        while i < n
            invariant
                i <= n,
                values@.len() == i,
                forall|j: int| 0 <= j < i ==> call_ensures(C::default, (), #[trigger] values@[j]),
            decreases n - i,
        {
            values.push(C::default());
            i += 1;
        }
        Image { width: w, height: h, values }
    }

    /// An image whose pixel in column `x`, row `y` is `f(x, y)`.
    pub fn from_fn<F: Fn(i32, i32) -> C>(dim: (i32, i32), f: F) -> (img: Self)
        requires
            0 <= dim.0,
            0 <= dim.1,
            dim.0 * dim.1 <= usize::MAX,
            forall|x: i32, y: i32| 0 <= x < dim.0 && 0 <= y < dim.1 ==> call_requires(f, (x, y)),
        ensures
            img.wf(),
            img.spec_width() == dim.0,
            img.spec_height() == dim.1,
            forall|x: i32, y: i32|
                0 <= x < dim.0 && 0 <= y < dim.1 ==> call_ensures(
                    f,
                    (x, y),
                    #[trigger] img.pixel(x as int, y as int),
                ),
    {
        let w: usize = dim.0 as usize;
        let h: usize = dim.1 as usize;
        let mut values: Vec<C> = Vec::new();
        let mut iy: usize = 0;
        while iy < h
            invariant
                w == dim.0,
                h == dim.1,
                iy <= h,
                values@.len() == iy * w,
                forall|x: i32, y: i32|
                    0 <= x < dim.0 && 0 <= y < dim.1 ==> call_requires(f, (x, y)),
                forall|x: int, y: int|
                    0 <= x < w && 0 <= y < iy ==> call_ensures(
                        f,
                        (x as i32, y as i32),
                        #[trigger] values@[y * w + x],
                    ),
            decreases h - iy,
        {
            let mut ix: usize = 0;
            while ix < w
                invariant
                    w == dim.0,
                    h == dim.1,
                    iy < h,
                    ix <= w,
                    values@.len() == iy * w + ix,
                    forall|x: i32, y: i32|
                        0 <= x < dim.0 && 0 <= y < dim.1 ==> call_requires(f, (x, y)),
                    forall|x: int, y: int|
                        0 <= x < w && 0 <= y < iy ==> call_ensures(
                            f,
                            (x as i32, y as i32),
                            #[trigger] values@[y * w + x],
                        ),
                    forall|x: int|
                        0 <= x < ix ==> call_ensures(
                            f,
                            (x as i32, iy as i32),
                            #[trigger] values@[iy * w + x],
                        ),
                decreases w - ix,
            {
                let ghost before = values@;
                let c = f(ix as i32, iy as i32);
                values.push(c);
                proof {
                    assert forall|x: int, y: int| 0 <= x < w && 0 <= y < iy implies call_ensures(
                        f,
                        (x as i32, y as i32),
                        #[trigger] values@[y * w + x],
                    ) by {
                        lemma_pixel_index(w as nat, iy as nat, x, y);
                        assert(values@[y * w + x] == before[y * w + x]);
                    }
                    assert forall|x: int| 0 <= x < ix + 1 implies call_ensures(
                        f,
                        (x as i32, iy as i32),
                        #[trigger] values@[iy * w + x],
                    ) by {
                        if x < ix {
                            assert(values@[iy * w + x] == before[iy * w + x]);
                        }
                    }
                }
                ix += 1;
            }
            proof {
                assert(iy * w + w == (iy + 1) * w) by (nonlinear_arith);
                assert forall|x: int, y: int| 0 <= x < w && 0 <= y < iy + 1 implies call_ensures(
                    f,
                    (x as i32, y as i32),
                    #[trigger] values@[y * w + x],
                ) by {
                    if y == iy {
                        assert(values@[iy * w + x] == values@[y * w + x]);
                    }
                }
            }
            iy += 1;
        }
        proof {
            assert(h * w == w * h) by (nonlinear_arith);
        }
        let img = Image { width: w, height: h, values };
        proof {
            assert forall|x: i32, y: i32| 0 <= x < dim.0 && 0 <= y < dim.1 implies call_ensures(
                f,
                (x, y),
                #[trigger] img.pixel(x as int, y as int),
            ) by {
                assert(call_ensures(f, (x as int as i32, y as int as i32), values@[y * w + x]));
            }
        }
        img
    }

    /// The pixel at `p`, given as (column, row).
    pub fn at(&self, p: (i32, i32)) -> (c: C)
        requires
            self.contains(p.0 as int, p.1 as int),
        ensures
            c == self.pixel(p.0 as int, p.1 as int),
    {
        let x: usize = p.0 as usize;
        let y: usize = p.1 as usize;
        let n: usize = self.values.len();
        proof {
            use_type_invariant(self);
            lemma_pixel_index(self.width as nat, self.height as nat, x as int, y as int);
        }
        self.values[y * self.width + x]
    }

    /// Width of the image, in pixels.
    pub fn width(&self) -> (w: usize)
        ensures
            w == self.spec_width(),
    {
        self.width
    }

    /// Height of the image, in pixels.
    pub fn height(&self) -> (h: usize)
        ensures
            h == self.spec_height(),
    {
        self.height
    }

    /// Width and height of the image.
    pub fn dimensions(&self) -> (d: (i32, i32))
        ensures
            d.0 == self.spec_width(),
            d.1 == self.spec_height(),
    {
        proof {
            use_type_invariant(self);
        }
        (self.width as i32, self.height as i32)
    }

    /// The pixels in row-major order.
    pub fn pixels(&self) -> (s: &[C])
        ensures
            s@ == self.pixel_seq(),
    {
        self.values.as_slice()
    }
}

impl<C: Copy + Default> Default for Image<C> {
    /// The empty image: no columns, no rows.
    fn default() -> (img: Self)
        ensures
            img.wf(),
            img.spec_width() == 0,
            img.spec_height() == 0,
    {
        Image { width: 0, height: 0, values: Vec::new() }
    }
}

/// The four bytes that pixel `c` contributes to a raw byte dump.
pub open spec fn raw_bytes_of(c: BGRA) -> Seq<u8> {
    seq![c.2, c.1, c.0, c.3]
}

/// The raw byte dump of a sequence of pixels: four bytes per pixel, in order.
pub open spec fn raw_bytes(px: Seq<BGRA>) -> Seq<u8>
    decreases px.len(),
{
    if px.len() == 0 {
        Seq::empty()
    } else {
        raw_bytes(px.drop_last()) + raw_bytes_of(px.last())
    }
}

/// A raw byte dump holds four bytes per pixel, and pixel `i` fills bytes
/// `4 * i` to `4 * i + 3`.
pub proof fn lemma_raw_bytes(px: Seq<BGRA>)
    ensures
        raw_bytes(px).len() == 4 * px.len(),
        forall|i: int|
            0 <= i < px.len() ==> {
                &&& raw_bytes(px)[4 * i] == (#[trigger] px[i]).2
                &&& raw_bytes(px)[4 * i + 1] == px[i].1
                &&& raw_bytes(px)[4 * i + 2] == px[i].0
                &&& raw_bytes(px)[4 * i + 3] == px[i].3
            },
    decreases px.len(),
{
    if px.len() > 0 {
        lemma_raw_bytes(px.drop_last());
        assert forall|i: int| 0 <= i < px.len() implies {
            &&& raw_bytes(px)[4 * i] == (#[trigger] px[i]).2
            &&& raw_bytes(px)[4 * i + 1] == px[i].1
            &&& raw_bytes(px)[4 * i + 2] == px[i].0
            &&& raw_bytes(px)[4 * i + 3] == px[i].3
        } by {
            if i < px.len() - 1 {
                assert(px.drop_last()[i] == px[i]);
            }
        }
    }
}

impl Image<BGRA> {
    /// The pixels as raw bytes, row after row, four bytes per pixel.
    pub fn raw_bgra(&self) -> (raw: Vec<u8>)
        ensures
            raw@ == raw_bytes(self.pixel_seq()),
    {
        let n: usize = self.values.len();
        let mut raw: Vec<u8> = Vec::new();
        let mut i: usize = 0;
        while i < n
            invariant
                n == self.values@.len(),
                i <= n,
                raw@ == raw_bytes(self.values@.take(i as int)),
            decreases n - i,
        {
            let c = self.values[i];
            raw.push(c.2);
            raw.push(c.1);
            raw.push(c.0);
            raw.push(c.3);
            proof {
                let next = self.values@.take(i + 1);
                assert(next.drop_last() =~= self.values@.take(i as int));
                assert(next.last() == c);
                assert(raw@ =~= raw_bytes(next.drop_last()) + raw_bytes_of(c));
            }
            i += 1;
        }
        proof {
            assert(self.values@.take(n as int) =~= self.values@);
        }
        raw
    }
}

impl Image<u8> {
    /// The same picture in grey: every channel takes the byte's value, and
    /// alpha is full.
    pub fn to_bgra(&self) -> (img: Image<BGRA>)
        ensures
            img.wf(),
            img.spec_width() == self.spec_width(),
            img.spec_height() == self.spec_height(),
            forall|i: int|
                0 <= i < self.pixel_seq().len() ==> #[trigger] img.pixel_seq()[i] == BGRA(
                    self.pixel_seq()[i],
                    self.pixel_seq()[i],
                    self.pixel_seq()[i],
                    255,
                ),
    {
        proof {
            use_type_invariant(self);
        }
        let n: usize = self.values.len();
        let mut values: Vec<BGRA> = Vec::new();
        let mut i: usize = 0;
        while i < n
            invariant
                n == self.values@.len(),
                i <= n,
                values@.len() == i,
                forall|j: int|
                    0 <= j < i ==> #[trigger] values@[j] == BGRA(
                        self.values@[j],
                        self.values@[j],
                        self.values@[j],
                        255,
                    ),
            decreases n - i,
        {
            let c = self.values[i];
            values.push(BGRA(c, c, c, 255));
            i += 1;
        }
        Image { width: self.width, height: self.height, values }
    }
}

} // verus!
