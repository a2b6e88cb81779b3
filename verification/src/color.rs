use vstd::prelude::*;

verus! {

/// A color channel is carried as an integer scaled so that `COLOR_SCALE`
/// stands for the real value 1.0.
pub const COLOR_SCALE: u32 = 65536;

/// Half of `COLOR_SCALE`: the scaled form of 0.5, and the offset that makes
/// the eight-bit quantization round to nearest.
pub const COLOR_HALF: u32 = 32768;

/// An RGBA color with channels in `[0, COLOR_SCALE]`; alpha is carried but
/// plays no part in lighting.
#[derive(Clone, Copy, PartialEq, Eq, Structural, Debug)]
pub struct PP7Color {
    pub red: u32,
    pub green: u32,
    pub blue: u32,
    pub alpha: u32,
}

/// A color with eight bits per channel, as the lighting device takes it.
#[derive(Clone, Copy, PartialEq, Eq, Structural, Debug)]
pub struct Rgb8 {
    pub r: u8,
    pub g: u8,
    pub b: u8,
}

/// The neutral gray (0.5, 0.5, 0.5, 1.0) that stands in for an absent group
/// color.
pub open spec fn default_group_color() -> PP7Color {
    PP7Color { red: COLOR_HALF, green: COLOR_HALF, blue: COLOR_HALF, alpha: COLOR_SCALE }
}

/// One scaled channel quantized to eight bits: `round(channel * 255)`
/// clamped to `[0, 255]`, halves rounding up.
pub open spec fn quantize_channel(c: int) -> u8 {
    let v = (c * 255 + COLOR_HALF as int) / (COLOR_SCALE as int);
    if v < 0 {
        0
    } else if v > 255 {
        255
    } else {
        v as u8
    }
}

/// A whole color quantized to eight bits per channel.
pub open spec fn rgb_of_color(c: PP7Color) -> Rgb8 {
    Rgb8 {
        r: quantize_channel(c.red as int),
        g: quantize_channel(c.green as int),
        b: quantize_channel(c.blue as int),
    }
}

/// Uniform gray at one eight-bit level.
pub open spec fn gray(v: u8) -> Rgb8 {
    Rgb8 { r: v, g: v, b: v }
}

/// Quantize one scaled channel to its eight-bit value.
pub fn quantize(c: u32) -> (r: u8)
    ensures
        r == quantize_channel(c as int),
{
    let wide: u64 = (c as u64) * 255 + (COLOR_HALF as u64);
    let v: u64 = wide / (COLOR_SCALE as u64);
    if v > 255 {
        255
    } else {
        v as u8
    }
}

/// Quantize a whole color to eight bits per channel.
pub fn rgb_of(c: &PP7Color) -> (r: Rgb8)
    ensures
        r == rgb_of_color(*c),
{
    Rgb8 { r: quantize(c.red), g: quantize(c.green), b: quantize(c.blue) }
}

/// A group color as fetched, with an absent color falling back to the
/// neutral gray.
pub fn color_or_default(c: Option<PP7Color>) -> (r: PP7Color)
    ensures
        r == (match c {
            Some(x) => x,
            None => default_group_color(),
        }),
{
    match c {
        Some(x) => x,
        None => PP7Color {
            red: COLOR_HALF,
            green: COLOR_HALF,
            blue: COLOR_HALF,
            alpha: COLOR_SCALE,
        },
    }
}

/// For a channel within scale, quantization picks the nearest eight-bit
/// value: the quantized level, mapped back to the scale, sits within half a
/// rounding step of `channel * 255`, halves rounding up.
pub proof fn lemma_quantize_is_nearest(c: int)
    requires
        0 <= c <= COLOR_SCALE as int,
    ensures
        ({
            let q = quantize_channel(c) as int;
            -(COLOR_HALF as int) <= c * 255 - q * (COLOR_SCALE as int) < COLOR_HALF as int
        }),
{
    let s = COLOR_SCALE as int;
    let num = c * 255 + COLOR_HALF as int;
    vstd::arithmetic::div_mod::lemma_fundamental_div_mod(num, s);
    vstd::arithmetic::div_mod::lemma_mod_bound(num, s);
}

/// The absent-color fallback quantizes to mid gray: every channel comes out
/// as 128.
pub proof fn lemma_default_color_mid_gray()
    ensures
        rgb_of_color(default_group_color()) == gray(128),
{
    assert((32768int * 255 + 32768) / 65536 == 128) by (nonlinear_arith);
}

} // verus!
