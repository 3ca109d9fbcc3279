//! Pixel colors and the hue-to-color conversion used by the sweep.

use vstd::prelude::*;
use smart_leds::hsv::{hsv2rgb, Hsv};

verus! {

/// One pixel of the strip: red, green and blue intensities.
#[derive(Clone, Copy, Debug, PartialEq, Eq, Structural)]
pub struct Rgb {
    pub r: u8,
    pub g: u8,
    pub b: u8,
}

impl Rgb {
    /// The pixel is off.
    pub open spec fn is_black(self) -> bool {
        self.r == 0 && self.g == 0 && self.b == 0
    }

    /// An unlit pixel.
    pub fn black() -> (c: Rgb)
        ensures
            c.is_black(),
    {
        Rgb { r: 0, g: 0, b: 0 }
    }

    /// Whether the pixel is off.
    pub fn is_off(&self) -> (r: bool)
        ensures
            r == self.is_black(),
    {
        self.r == 0 && self.g == 0 && self.b == 0
    }
}

/// Saturation of every color the sweep shows.
pub const SATURATION: u8 = 255;

/// Brightness of every color the sweep shows: deliberately dim.
pub const BRIGHTNESS: u8 = 2;

/// The (red, green, blue) triple that smart_leds' `hsv2rgb` gives for a hue,
/// saturation and value.
pub uninterp spec fn hsv_rgb(hue: u8, sat: u8, val: u8) -> (u8, u8, u8);

/// Relies on smart_leds::hsv::hsv2rgb: its result depends on the three
/// components alone, and each arm of its match sets one channel to `val`.
#[verifier::external_body]
fn hsv_to_rgb(hue: u8, sat: u8, val: u8) -> (c: Rgb)
    ensures
        (c.r, c.g, c.b) == hsv_rgb(hue, sat, val),
        c.r == val || c.g == val || c.b == val,
{
    let c = hsv2rgb(Hsv { hue, sat, val });
    Rgb { r: c.r, g: c.g, b: c.b }
}

/// The color shown for a hue: full saturation, brightness `BRIGHTNESS`.
pub open spec fn color_of(hue: u8) -> Rgb {
    let t = hsv_rgb(hue, SATURATION, BRIGHTNESS);
    Rgb { r: t.0, g: t.1, b: t.2 }
}

/// The color shown for `hue`; never black, since its brightness is not zero.
pub fn generate_color(hue: u8) -> (c: Rgb)
    ensures
        c == color_of(hue),
        !c.is_black(),
{
    hsv_to_rgb(hue, SATURATION, BRIGHTNESS)
}

/// A hue always gives the same color: the conversion is a function of the hue.
pub proof fn lemma_color_deterministic(h1: u8, h2: u8)
    requires
        h1 == h2,
    ensures
        color_of(h1) == color_of(h2),
{
}

} // verus!
