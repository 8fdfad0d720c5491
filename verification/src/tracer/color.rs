use vstd::prelude::*;

verus! {

/// A colour with 8 bits per channel, stored blue, green, red, alpha.
#[derive(Debug, PartialEq, Eq, Clone, Copy, Structural)]
pub struct BGRA(pub u8, pub u8, pub u8, pub u8);

impl BGRA {
    /// The channels in red, green, blue, alpha order.
    #[inline]
    pub fn rgba(&self) -> (c: [u8; 4])
        ensures
            c@ == seq![self.2, self.1, self.0, self.3],
    {
        [self.2, self.1, self.0, self.3]
    }

    /// The first three stored channels: blue, green, red.
    #[inline]
    pub fn rgb_array(&self) -> (c: [u8; 3])
        ensures
            c@ == seq![self.0, self.1, self.2],
    {
        [self.0, self.1, self.2]
    }

    #[inline]
    pub fn b(&self) -> (v: u8)
        ensures
            v == self.0,
    {
        self.0
    }

    #[inline]
    pub fn g(&self) -> (v: u8)
        ensures
            v == self.1,
    {
        self.1
    }

    #[inline]
    pub fn r(&self) -> (v: u8)
        ensures
            v == self.2,
    {
        self.2
    }

    #[inline]
    pub fn a(&self) -> (v: u8)
        ensures
            v == self.3,
    {
        self.3
    }

    /// The colour with its three colour channels turned round, 255 minus
    /// each, and the same alpha.
    pub fn inverted(&self) -> (c: BGRA)
        ensures
            c == BGRA((255 - self.0) as u8, (255 - self.1) as u8, (255 - self.2) as u8, self.3),
    {
        BGRA(255 - self.0, 255 - self.1, 255 - self.2, self.3)
    }

    /// Opaque white.
    pub fn white() -> (c: BGRA)
        ensures
            c == BGRA(255, 255, 255, 255),
    {
        BGRA(255, 255, 255, 255)
    }

    /// Opaque black.
    pub fn black() -> (c: BGRA)
        ensures
            c == BGRA(0, 0, 0, 255),
    {
        BGRA(0, 0, 0, 255)
    }
}

impl Default for BGRA {
    /// Transparent black.
    fn default() -> (c: Self)
        ensures
            c == BGRA(0, 0, 0, 0),
    {
        BGRA(0, 0, 0, 0)
    }
}

} // verus!
