use vstd::prelude::*;
use rand::Rng;
use rand::rngs::StdRng;
use crate::color::{drawn_under, fits_preset, preset_of, Color, ColorPreset, Paint, Rgb};

verus! {

#[verifier::external_type_specification]
#[verifier::external_body]
pub struct ExStdRng(rand::rngs::StdRng);

/// Relies on rand::Rng::gen_range: a value of `low..high` (it panics when `low >= high`).
#[verifier::external_body]
fn draw(rng: &mut StdRng, low: i64, high: i64) -> (r: i64)
    requires
        low < high,
    ensures
        low <= r < high,
{
    rng.gen_range(low, high)
}

/// Relies on bit_vec::BitVec::from_bytes and BitVec::iter: eight bits per byte,
/// the most significant bit of each byte first.
#[verifier::external_body]
fn bits_of(bytes: &[u8]) -> (r: Vec<bool>)
    requires
        bytes@.len() * 8 <= usize::MAX,
    ensures
        r@.len() == bytes@.len() * 8,
        forall|i: int| 0 <= i < r@.len() ==> r@[i] == byte_bit(#[trigger] bytes@[i / 8], i % 8),
{
    bit_vec::BitVec::from_bytes(bytes).iter().collect()
}

/// Bit `k` of a byte, counted from the most significant one.
pub open spec fn byte_bit(b: u8, k: int) -> bool {
    (b >> ((7 - k) as u8)) & 1u8 == 1u8
}

/// Byte `k` of the big-endian form of `x`.
pub open spec fn be_byte(x: u64, k: int) -> u8 {
    ((x >> ((56 - 8 * k) as u64)) & 0xffu64) as u8
}

/// The mask read from a 64-bit draw: its big-endian bits, cut to `len`.
pub open spec fn sample_mask(x: i64, len: nat) -> Seq<bool> {
    Seq::new(len, |i: int| byte_bit(be_byte(x as u64, i / 8), i % 8))
}

/// The eight bytes of `x`, most significant first.
pub fn be_bytes(x: i64) -> (r: Vec<u8>)
    ensures
        r@.len() == 8,
        forall|k: int| 0 <= k < 8 ==> r@[k] == be_byte(x as u64, k),
{
    let u = x as u64;
    let mut r: Vec<u8> = Vec::new();
    for k in 0..8u64
        invariant
            r@.len() == k,
            forall|j: int| 0 <= j < k ==> r@[j] == be_byte(u, j),
    {
        r.push(((u >> (56 - 8 * k)) & 0xff) as u8);
    }
    r
}

/// The mask of `len` positions read from one 64-bit draw.
pub fn mask_from_sample(x: i64, len: usize) -> (r: Vec<bool>)
    requires
        len <= 64,
    ensures
        r@ == sample_mask(x, len as nat),
        r@.len() == len,
{
    let bytes = be_bytes(x);
    let bits = bits_of(bytes.as_slice());
    let mut r: Vec<bool> = Vec::new();
    for i in 0..len
        invariant
            len <= 64,
            bits@.len() == 64,
            forall|j: int| 0 <= j < 64 ==> bits@[j] == byte_bit(bytes@[j / 8], j % 8),
            forall|k: int| 0 <= k < 8 ==> bytes@[k] == be_byte(x as u64, k),
            r@ =~= sample_mask(x, i as nat),
    {
        assert(bits@[i as int] == byte_bit(bytes@[i as int / 8], i as int % 8));
        r.push(bits[i]);
        assert(r@ =~= sample_mask(x, (i + 1) as nat));
    }
    r
}

/// Draws one mask of `len` positions.
pub fn random_mask(rng: &mut StdRng, len: usize) -> (r: Vec<bool>)
    requires
        len <= 64,
    ensures
        r@.len() == len,
        exists|x: i64| r@ == sample_mask(x, len as nat),
{
    let x = draw(rng, i64::MIN, i64::MAX);
    mask_from_sample(x, len)
}

impl ColorPreset {
    /// Draws one of the eight presets, each with the same chance.
    pub fn random(rng: &mut StdRng) -> (r: ColorPreset)
        ensures
            exists|i: nat| i < 8 && r == preset_of(i),
    {
        let i = draw(rng, 0, 8);
        let r = ColorPreset::from_index(i as u8);
        assert(r == preset_of(i as nat));
        r
    }
}

impl Color {
    /// Draws a colour under `preset`.
    pub fn random(rng: &mut StdRng, preset: &ColorPreset) -> (r: Color)
        ensures
            fits_preset(r, *preset),
            r.wf(),
    {
        let hue_range = preset.hue_range();
        let saturation_range = preset.saturation_range();
        let hue = draw(rng, hue_range.0 as i64, hue_range.1 as i64 + 1) as i16;
        let saturation = draw(rng, saturation_range.0 as i64, saturation_range.1 as i64 + 1) as i16;
        let lightness = draw(rng, 0, 101) as i16;
        let r = Color::from_draws(preset, hue, saturation, lightness);
        assert(drawn_under(r, *preset, hue as int, saturation as int, lightness as int));
        r
    }
}

impl Rgb {
    /// Draws each channel uniformly from `0..256`.
    pub fn random(rng: &mut StdRng) -> (r: Rgb) {
        let red = draw(rng, 0, 256) as u8;
        let green = draw(rng, 0, 256) as u8;
        let blue = draw(rng, 0, 256) as u8;
        Rgb { red, green, blue }
    }
}

/// Where the colours of one picture come from.
#[derive(Clone, Copy, Debug, PartialEq, Eq, Structural)]
pub enum Palette {
    /// Every channel uniform over `0..256`.
    Uniform,
    /// HSL colours under one preset.
    Preset(ColorPreset),
}

/// Whether `p` is a colour that `palette` can give.
pub open spec fn from_palette(p: Paint, palette: Palette) -> bool {
    match palette {
        Palette::Uniform => p is Rgb,
        Palette::Preset(preset) => match p {
            Paint::Hsl(c) => fits_preset(c, preset) && c.wf(),
            Paint::Rgb(_) => false,
        },
    }
}

impl Palette {
    /// Draws one colour of this palette.
    pub fn draw(&self, rng: &mut StdRng) -> (r: Paint)
        ensures
            from_palette(r, *self),
            r.wf(),
    {
        match self {
            Palette::Uniform => Paint::Rgb(Rgb::random(rng)),
            Palette::Preset(preset) => Paint::Hsl(Color::random(rng, preset)),
        }
    }
}

} // verus!
