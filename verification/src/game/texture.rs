use crate::tracer::color::BGRA;
use crate::tracer::image::Image;
use std::sync::atomic::AtomicUsize;
use std::sync::atomic::Ordering;
use std::sync::Arc;
use vstd::prelude::*;

verus! {

/// The directory that holds the texture files.
pub fn texture_dir() -> (dir: &'static str)
    ensures
        dir@ == "assets/textures"@,
{
    "assets/textures"
}

/// A source of texture identifiers, shared by everything that makes
/// textures: cloning it gives another handle on the same counter.
#[derive(Clone)]
pub struct TextureIds {
    next: Arc<AtomicUsize>,
}

impl TextureIds {
    /// A new counter. The first identifier it hands out is 1: 0 stands for
    /// "no texture".
    pub fn new() -> Self {
        TextureIds { next: Arc::new(AtomicUsize::new(1)) }
    }

    /// Takes the next identifier from the counter.
    pub fn next_uid(&self) -> usize {
        self.next.fetch_add(1, Ordering::SeqCst)
    }
}

/// An image together with the identifier under which a display may keep an
/// uploaded copy of it.
#[derive(Clone)]
pub struct Texture {
    img: Image<BGRA>,
    uid: usize,
}

impl Texture {
    /// The image that the texture shows.
    pub closed spec fn image(&self) -> Image<BGRA> {
        self.img
    }

    /// The texture's identifier.
    pub closed spec fn spec_uid(&self) -> usize {
        self.uid
    }

    /// A texture of `img` under the next identifier of `ids`.
    pub fn new(img: Image<BGRA>, ids: &TextureIds) -> (t: Self)
        ensures
            t.image() == img,
    {
        Self::with_uid(img, ids.next_uid())
    }

    /// A texture of `img` under the identifier `uid`.
    pub fn with_uid(img: Image<BGRA>, uid: usize) -> (t: Self)
        ensures
            t.image() == img,
            t.spec_uid() == uid,
    {
        Self { img, uid }
    }

    /// The texture that stands for "nothing to draw": an empty image under
    /// identifier 0.
    pub fn default() -> (t: Self)
        ensures
            t.spec_uid() == 0,
            t.image().spec_width() == 0,
            t.image().spec_height() == 0,
            t.image().pixel_seq().len() == 0,
    {
        Self { uid: 0, img: Image::default() }
    }

    /// Whether this is the texture that stands for "nothing to draw".
    pub fn is_none(&self) -> (b: bool)
        ensures
            b == (self.spec_uid() == 0),
    {
        self.uid == 0
    }

    pub fn uid(&self) -> (u: usize)
        ensures
            u == self.spec_uid(),
    {
        self.uid
    }

    /// Width and height of the image, in pixels.
    pub fn dimensions(&self) -> (d: (i32, i32))
        ensures
            d.0 == self.image().spec_width(),
            d.1 == self.image().spec_height(),
    {
        self.img.dimensions()
    }

    /// The image as raw bytes, four per pixel.
    pub fn raw_bgra(&self) -> (raw: Vec<u8>)
        ensures
            raw@ == crate::tracer::image::raw_bytes(self.image().pixel_seq()),
    {
        self.img.raw_bgra()
    }
}

} // verus!
