use vstd::prelude::*;
use vstd::string::StringExecFns;
use crate::text::{dec, hex2, push_decimal, push_hex2};

verus! {

/// A named constraint on the hue and saturation of every colour of one picture.
#[derive(Clone, Copy, Debug, PartialEq, Eq, Structural)]
pub enum ColorPreset {
    Chaos,
    Black,
    Red,
    Yellow,
    Green,
    Cyan,
    Blue,
    Purple,
}

/// The preset drawn for each of the eight equally likely indices.
pub open spec fn preset_of(i: nat) -> ColorPreset {
    if i == 0 { ColorPreset::Black }
    else if i == 1 { ColorPreset::Red }
    else if i == 2 { ColorPreset::Yellow }
    else if i == 3 { ColorPreset::Green }
    else if i == 4 { ColorPreset::Cyan }
    else if i == 5 { ColorPreset::Blue }
    else if i == 6 { ColorPreset::Purple }
    else { ColorPreset::Chaos }
}

impl ColorPreset {
    /// Inclusive bounds of the hue drawn under this preset, before wrap-around.
    pub open spec fn hue_bounds(self) -> (int, int) {
        match self {
            ColorPreset::Chaos => (0, 360),
            ColorPreset::Black => (0, 0),
            ColorPreset::Red => (-30, 30),
            ColorPreset::Yellow => (30, 90),
            ColorPreset::Green => (90, 150),
            ColorPreset::Cyan => (150, 210),
            ColorPreset::Blue => (210, 270),
            ColorPreset::Purple => (330, 390),
        }
    }

    /// Inclusive bounds of the saturation drawn under this preset.
    pub open spec fn saturation_bounds(self) -> (int, int) {
        match self {
            ColorPreset::Black => (0, 0),
            _ => (0, 100),
        }
    }

    pub open spec fn spec_name(self) -> Seq<char> {
        match self {
            ColorPreset::Chaos => "chaos"@,
            ColorPreset::Black => "black"@,
            ColorPreset::Red => "red"@,
            ColorPreset::Yellow => "yellow"@,
            ColorPreset::Green => "green"@,
            ColorPreset::Cyan => "cyan"@,
            ColorPreset::Blue => "blue"@,
            ColorPreset::Purple => "purple"@,
        }
    }

    /// The preset of a uniform index in `0..8`; any larger index stands for `Chaos`.
    pub fn from_index(i: u8) -> (r: ColorPreset)
        ensures
            r == preset_of(i as nat),
    {
        match i {
            0 => ColorPreset::Black,
            1 => ColorPreset::Red,
            2 => ColorPreset::Yellow,
            3 => ColorPreset::Green,
            4 => ColorPreset::Cyan,
            5 => ColorPreset::Blue,
            6 => ColorPreset::Purple,
            _ => ColorPreset::Chaos,
        }
    }

    pub fn hue_range(&self) -> (r: (i16, i16))
        ensures
            r.0 as int == self.hue_bounds().0,
            r.1 as int == self.hue_bounds().1,
    {
        match self {
            ColorPreset::Chaos => (0, 360),
            ColorPreset::Black => (0, 0),
            ColorPreset::Red => (-30, 30),
            ColorPreset::Yellow => (30, 90),
            ColorPreset::Green => (90, 150),
            ColorPreset::Cyan => (150, 210),
            ColorPreset::Blue => (210, 270),
            ColorPreset::Purple => (330, 390),
        }
    }

    pub fn saturation_range(&self) -> (r: (i16, i16))
        ensures
            r.0 as int == self.saturation_bounds().0,
            r.1 as int == self.saturation_bounds().1,
    {
        match self {
            ColorPreset::Black => (0, 0),
            _ => (0, 100),
        }
    }

    /// The lower-case name shown in a caption.
    pub fn name(&self) -> (r: String)
        ensures
            r@ == self.spec_name(),
    {
        let s = match self {
            ColorPreset::Chaos => "chaos",
            ColorPreset::Black => "black",
            ColorPreset::Red => "red",
            ColorPreset::Yellow => "yellow",
            ColorPreset::Green => "green",
            ColorPreset::Cyan => "cyan",
            ColorPreset::Blue => "blue",
            ColorPreset::Purple => "purple",
        };
        String::from_str(s)
    }
}

/// The hue kept for a raw hue: a negative one wraps around by a full turn.
pub open spec fn wrap_hue(raw: int) -> int {
    if raw < 0 { raw + 360 } else { raw }
}

/// A colour in the HSL model.
#[derive(Clone, Copy, Debug, PartialEq, Eq, Structural)]
pub struct Color {
    pub hue: i16,
    pub saturation: i16,
    pub lightness: i16,
}

/// Whether `c` is the colour made from the raw draws `(hue, saturation, lightness)`
/// under `preset`: each draw inside its inclusive bounds and the hue wrapped.
pub open spec fn drawn_under(c: Color, preset: ColorPreset, hue: int, saturation: int, lightness: int) -> bool {
    &&& preset.hue_bounds().0 <= hue <= preset.hue_bounds().1
    &&& preset.saturation_bounds().0 <= saturation <= preset.saturation_bounds().1
    &&& 0 <= lightness <= 100
    &&& c.hue as int == wrap_hue(hue)
    &&& c.saturation as int == saturation
    &&& c.lightness as int == lightness
}

/// Whether `c` can be drawn under `preset`.
pub open spec fn fits_preset(c: Color, preset: ColorPreset) -> bool {
    exists|h: int| drawn_under(c, preset, h, c.saturation as int, c.lightness as int)
}

impl Color {
    /// The text `hsl(h,s%,l%)`.
    pub open spec fn spec_hsl(self) -> Seq<char> {
        "hsl("@ + dec(self.hue as nat) + ","@ + dec(self.saturation as nat) + "%,"@
            + dec(self.lightness as nat) + "%)"@
    }

    pub open spec fn wf(self) -> bool {
        &&& 0 <= self.hue <= 390
        &&& 0 <= self.saturation <= 100
        &&& 0 <= self.lightness <= 100
    }

    /// The colour made from raw draws; the draws must lie in the preset's bounds.
    pub fn from_draws(preset: &ColorPreset, hue: i16, saturation: i16, lightness: i16) -> (r: Color)
        requires
            preset.hue_bounds().0 <= hue <= preset.hue_bounds().1,
            preset.saturation_bounds().0 <= saturation <= preset.saturation_bounds().1,
            0 <= lightness <= 100,
        ensures
            drawn_under(r, *preset, hue as int, saturation as int, lightness as int),
            r.wf(),
    {
        Color { hue: if hue < 0 { 360 + hue } else { hue }, saturation, lightness }
    }

    pub fn hsl(&self) -> (r: String)
        requires
            self.wf(),
        ensures
            r@ == self.spec_hsl(),
    {
        let mut s = String::from_str("hsl(");
        push_decimal(&mut s, self.hue as u64);
        s.append(",");
        push_decimal(&mut s, self.saturation as u64);
        s.append("%,");
        push_decimal(&mut s, self.lightness as u64);
        s.append("%)");
        s
    }
}

/// A colour in the RGB model, one byte per channel.
#[derive(Clone, Copy, Debug, PartialEq, Eq, Structural)]
pub struct Rgb {
    pub red: u8,
    pub green: u8,
    pub blue: u8,
}

impl Rgb {
    /// The text `#rrggbb`.
    pub open spec fn spec_hex(self) -> Seq<char> {
        "#"@ + hex2(self.red) + hex2(self.green) + hex2(self.blue)
    }

    pub fn hex(&self) -> (r: String)
        ensures
            r@ == self.spec_hex(),
    {
        let mut s = String::from_str("#");
        push_hex2(&mut s, self.red);
        push_hex2(&mut s, self.green);
        push_hex2(&mut s, self.blue);
        s
    }
}

/// The stroke colour of one line, in either colour model.
#[derive(Clone, Copy, Debug, PartialEq, Eq, Structural)]
pub enum Paint {
    Hsl(Color),
    Rgb(Rgb),
}

impl Paint {
    pub open spec fn wf(self) -> bool {
        match self {
            Paint::Hsl(c) => c.wf(),
            Paint::Rgb(_) => true,
        }
    }

    pub open spec fn spec_css(self) -> Seq<char> {
        match self {
            Paint::Hsl(c) => c.spec_hsl(),
            Paint::Rgb(c) => c.spec_hex(),
        }
    }

    /// The colour as SVG writes it.
    pub fn css(&self) -> (r: String)
        requires
            self.wf(),
        ensures
            r@ == self.spec_css(),
    {
        match self {
            Paint::Hsl(c) => c.hsl(),
            Paint::Rgb(c) => c.hex(),
        }
    }
}

} // verus!

verus! {

/// Whether a hue lies in the preset's band, which wraps around past 360 for a
/// band that starts below zero.
pub open spec fn in_band(hue: int, preset: ColorPreset) -> bool {
    let (lo, hi) = preset.hue_bounds();
    ||| lo <= hue <= hi
    ||| lo < 0 && lo + 360 <= hue < 360
}

/// Every colour drawn under a preset has its hue in the preset's band once wrapped
/// around, and a colour drawn under `Black` has no saturation.
pub proof fn preset_bounds_hold(c: Color, preset: ColorPreset)
    requires
        fits_preset(c, preset),
    ensures
        in_band(c.hue as int, preset),
        0 <= c.hue,
        preset == ColorPreset::Black ==> c.saturation == 0,
{
}

} // verus!
