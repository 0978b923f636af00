//! Colours, and the two colour operations the palette takes from cichlid.
use vstd::prelude::*;

use cichlid::prelude::GradientFillRGBToInclusive;
use cichlid::ColorRGB;

verus! {

/// A colour as one byte each of red, green and blue.
#[derive(Clone, Copy, Debug, PartialEq, Eq, Structural)]
pub struct Rgb {
    pub r: u8,
    pub g: u8,
    pub b: u8,
}

impl Rgb {
    /// The colour with the given channels.
    pub fn new(r: u8, g: u8, b: u8) -> (c: Self)
        ensures
            c.r == r,
            c.g == g,
            c.b == b,
    {
        Rgb { r, g, b }
    }
}

/// Blue violet, `#8A2BE2`: the colour of live cells.
pub open spec fn blue_violet() -> Rgb {
    Rgb { r: 0x8A, g: 0x2B, b: 0xE2 }
}

/// Black: the colour of dead cells.
pub open spec fn black() -> Rgb {
    Rgb { r: 0, g: 0, b: 0 }
}

/// One channel scaled by `scale / 256` of the way past itself: `(c * (1 + scale)) >> 8`.
pub open spec fn scaled_channel(c: u8, scale: u8) -> u8 {
    ((c as int * (1 + scale as int)) / 256) as u8
}

/// Every channel of `c` scaled by `scale`.
pub open spec fn scaled(c: Rgb, scale: u8) -> Rgb {
    Rgb {
        r: scaled_channel(c.r, scale),
        g: scaled_channel(c.g, scale),
        b: scaled_channel(c.b, scale),
    }
}

/// The `len` colours of cichlid's inclusive linear RGB gradient from `start` to `end`.
pub uninterp spec fn rgb_gradient(start: Rgb, end: Rgb, len: nat) -> Seq<Rgb>;

/// Relies on cichlid's `ColorRGB::scale`, which sets each channel `c` to
/// `(c * (1 + scale)) >> 8`, computed in 16 bits.
#[verifier::external_body]
pub(crate) fn scale_color(c: Rgb, scale: u8) -> (r: Rgb)
    ensures
        r == scaled(c, scale),
{
    let mut color = ColorRGB::new(c.r, c.g, c.b);
    color.scale(scale);
    Rgb { r: color.r, g: color.g, b: color.b }
}

/// Relies on cichlid's `GradientFillRGBToInclusive::gradient_fill_rgb_to_inclusive`,
/// which writes `end` into the last entry and interpolates the others linearly from
/// `start`, the first entry being `start` itself. It divides by the remaining length
/// as an `i16`, so that length must stay below 32768.
#[verifier::external_body]
pub(crate) fn gradient_inclusive(start: Rgb, end: Rgb, len: usize) -> (r: Vec<Rgb>)
    requires
        len <= 32768,
    ensures
        r@ == rgb_gradient(start, end, len as nat),
        r@.len() == len,
        len >= 1 ==> r@[len - 1] == end,
        len >= 2 ==> r@[0] == start,
{
    let mut buf = vec![ColorRGB::default(); len];
    buf.iter_mut().gradient_fill_rgb_to_inclusive(
        ColorRGB::new(start.r, start.g, start.b),
        ColorRGB::new(end.r, end.g, end.b),
    );
    buf.iter().map(|c| Rgb { r: c.r, g: c.g, b: c.b }).collect()
}

} // verus!
