//! Colours with eight bits per channel.

use crate::model::ratio::Ratio;
use vstd::prelude::*;

verus! {

/// A colour as hue, saturation and lightness: the hue in degrees, from 0 up
/// to but not including 360, the other two between 0 and 1.
#[derive(Debug, Clone, Copy, PartialEq, Eq, Structural)]
pub struct HSL {
    pub h: Ratio,
    pub s: Ratio,
    pub l: Ratio,
}

/// A colour as hue, saturation and value: the hue in degrees, from 0 up to
/// but not including 360, the other two between 0 and 1.
#[derive(Debug, Clone, Copy, PartialEq, Eq, Structural)]
pub struct HSV {
    pub h: Ratio,
    pub s: Ratio,
    pub v: Ratio,
}

/// An opaque colour, eight bits per channel.
#[derive(Debug, Clone, Copy, PartialEq, Eq, Structural, PartialOrd, Ord)]
pub struct Color {
    pub r: u8,
    pub g: u8,
    pub b: u8,
}

impl Default for Color {
    /// Black.
    fn default() -> (c: Color)
        ensures
            c == (Color { r: 0, g: 0, b: 0 }),
    {
        Color { r: 0, g: 0, b: 0 }
    }
}

impl Color {
    /// The colour with the given channels.
    pub fn new(r: u8, g: u8, b: u8) -> (c: Color)
        ensures
            c == (Color { r, g, b }),
    {
        Color { r, g, b }
    }

    /// The colour whose every channel is `255` minus this one's.
    pub open spec fn reverted(self) -> Color {
        Color {
            r: (255 - self.r) as u8,
            g: (255 - self.g) as u8,
            b: (255 - self.b) as u8,
        }
    }

    /// The complement of this colour, used to stroke overlays that must stay
    /// visible on top of it.
    pub fn revert(&self) -> (c: Color)
        ensures
            c == self.reverted(),
            c.r + self.r == 255,
            c.g + self.g == 255,
            c.b + self.b == 255,
    {
        Color { r: 255 - self.r, g: 255 - self.g, b: 255 - self.b }
    }

    /// The largest of the three channels.
    pub open spec fn max_channel(self) -> int {
        if self.r >= self.g && self.r >= self.b {
            self.r as int
        } else if self.g >= self.b {
            self.g as int
        } else {
            self.b as int
        }
    }

    /// The smallest of the three channels.
    pub open spec fn min_channel(self) -> int {
        if self.r <= self.g && self.r <= self.b {
            self.r as int
        } else if self.g <= self.b {
            self.g as int
        } else {
            self.b as int
        }
    }

    /// The distance between the largest and the smallest channel. A colour
    /// whose chroma is zero is a grey.
    pub open spec fn chroma(self) -> int {
        self.max_channel() - self.min_channel()
    }

    /// The hue in degrees. A grey has hue 0. Otherwise the hue is 60 times
    /// the position of the colour on the six-part colour circle: counted from
    /// red where red is the largest channel (and brought up by a full turn
    /// where that would be negative), from green where green is, from blue
    /// where blue is.
    pub open spec fn hue(self) -> Ratio {
        let d = self.chroma();
        if d == 0 {
            Ratio { num: 0, den: 1 }
        } else if self.max_channel() == self.r {
            if self.g >= self.b {
                Ratio { num: (60 * (self.g - self.b)) as u32, den: d as u32 }
            } else {
                Ratio { num: (60 * (self.g - self.b) + 360 * d) as u32, den: d as u32 }
            }
        } else if self.max_channel() == self.g {
            Ratio { num: (60 * (self.b - self.r) + 120 * d) as u32, den: d as u32 }
        } else {
            Ratio { num: (60 * (self.r - self.g) + 240 * d) as u32, den: d as u32 }
        }
    }

    /// The lightness: the mean of the largest and the smallest channel, as a
    /// fraction of 255.
    pub open spec fn lightness(self) -> Ratio {
        Ratio { num: (self.max_channel() + self.min_channel()) as u32, den: 510 }
    }

    /// The saturation of the colour in the lightness model: 0 for a grey,
    /// otherwise the chroma divided by `1 - |2 l - 1|`, `l` being the
    /// lightness.
    pub open spec fn hsl_saturation(self) -> Ratio {
        let sum = self.max_channel() + self.min_channel();
        if self.chroma() == 0 {
            Ratio { num: 0, den: 1 }
        } else if sum <= 255 {
            Ratio { num: self.chroma() as u32, den: sum as u32 }
        } else {
            Ratio { num: self.chroma() as u32, den: (510 - sum) as u32 }
        }
    }

    /// The saturation of the colour in the value model: 0 for black,
    /// otherwise the chroma divided by the largest channel.
    pub open spec fn hsv_saturation(self) -> Ratio {
        if self.max_channel() == 0 {
            Ratio { num: 0, den: 1 }
        } else {
            Ratio { num: self.chroma() as u32, den: self.max_channel() as u32 }
        }
    }

    /// The value: the largest channel, as a fraction of 255.
    pub open spec fn value(self) -> Ratio {
        Ratio { num: self.max_channel() as u32, den: 255 }
    }

    /// The colour as hue, saturation and lightness.
    pub open spec fn hsl(self) -> HSL {
        HSL { h: self.hue(), s: self.hsl_saturation(), l: self.lightness() }
    }

    /// The colour as hue, saturation and value.
    pub open spec fn hsv(self) -> HSV {
        HSV { h: self.hue(), s: self.hsv_saturation(), v: self.value() }
    }

    /// The hue of this colour, computed.
    fn compute_hue(&self) -> (h: Ratio)
        ensures
            h == self.hue(),
    {
        let r: u32 = self.r as u32;
        let g: u32 = self.g as u32;
        let b: u32 = self.b as u32;
        let max: u32 = largest(r, g, b);
        let min: u32 = smallest(r, g, b);
        let d: u32 = max - min;
        if d == 0 {
            Ratio { num: 0, den: 1 }
        } else if max == r {
            if g >= b {
                Ratio { num: 60 * (g - b), den: d }
            } else {
                Ratio { num: 360 * d - 60 * (b - g), den: d }
            }
        } else if max == g {
            if b >= r {
                Ratio { num: 120 * d + 60 * (b - r), den: d }
            } else {
                Ratio { num: 120 * d - 60 * (r - b), den: d }
            }
        } else {
            if r >= g {
                Ratio { num: 240 * d + 60 * (r - g), den: d }
            } else {
                Ratio { num: 240 * d - 60 * (g - r), den: d }
            }
        }
    }

    /// The colour as hue, saturation and lightness.
    ///
    /// The hue lies in `[0, 360)`, saturation and lightness in `[0, 1]`; a
    /// grey has hue and saturation 0.
    pub fn to_hsl(&self) -> (hsl: HSL)
        ensures
            hsl == self.hsl(),
            hsl.wf(),
            hsl.h.below(360),
            hsl.s.at_most(1),
            hsl.l.at_most(1),
            self.r == self.g && self.g == self.b ==> hsl.h.is_zero() && hsl.s.is_zero(),
    {
        let max: u32 = largest(self.r as u32, self.g as u32, self.b as u32);
        let min: u32 = smallest(self.r as u32, self.g as u32, self.b as u32);
        let d: u32 = max - min;
        let sum: u32 = max + min;
        let s = if d == 0 {
            Ratio { num: 0, den: 1 }
        } else if sum <= 255 {
            Ratio { num: d, den: sum }
        } else {
            Ratio { num: d, den: 510 - sum }
        };
        HSL { h: self.compute_hue(), s, l: Ratio { num: sum, den: 510 } }
    }

    /// The colour as hue, saturation and value.
    ///
    /// The hue lies in `[0, 360)`, saturation and value in `[0, 1]`; a grey
    /// has hue and saturation 0.
    pub fn to_hsv(&self) -> (hsv: HSV)
        ensures
            hsv == self.hsv(),
            hsv.wf(),
            hsv.h.below(360),
            hsv.s.at_most(1),
            hsv.v.at_most(1),
            self.r == self.g && self.g == self.b ==> hsv.h.is_zero() && hsv.s.is_zero(),
    {
        let max: u32 = largest(self.r as u32, self.g as u32, self.b as u32);
        let min: u32 = smallest(self.r as u32, self.g as u32, self.b as u32);
        let s = if max == 0 {
            Ratio { num: 0, den: 1 }
        } else {
            Ratio { num: max - min, den: max }
        };
        HSV { h: self.compute_hue(), s, v: Ratio { num: max, den: 255 } }
    }

    /// Reverting twice gives the colour back.
    pub proof fn lemma_revert_twice(self)
        ensures
            self.reverted().reverted() == self,
    {
    }
}

/// The largest of three numbers.
fn largest(r: u32, g: u32, b: u32) -> (m: u32)
    ensures
        m == if r >= g && r >= b {
            r
        } else if g >= b {
            g
        } else {
            b
        },
{
    if r >= g && r >= b {
        r
    } else if g >= b {
        g
    } else {
        b
    }
}

/// The smallest of three numbers.
fn smallest(r: u32, g: u32, b: u32) -> (m: u32)
    ensures
        m == if r <= g && r <= b {
            r
        } else if g <= b {
            g
        } else {
            b
        },
{
    if r <= g && r <= b {
        r
    } else if g <= b {
        g
    } else {
        b
    }
}

impl HSL {
    /// Whether the three fractions have values and lie in their ranges: the
    /// hue at most 360, saturation and lightness at most 1.
    pub open spec fn wf(self) -> bool {
        &&& self.h.wf() && self.h.at_most(360)
        &&& self.s.wf() && self.s.at_most(1)
        &&& self.l.wf() && self.l.at_most(1)
    }

    /// Whether the three fractions have values and lie in their ranges.
    pub fn is_valid(&self) -> (valid: bool)
        ensures
            valid == self.wf(),
    {
        self.h.is_at_most(360) && self.s.is_at_most(1) && self.l.is_at_most(1)
    }

    /// The colour with the given hue, saturation and lightness.
    pub fn new(h: Ratio, s: Ratio, l: Ratio) -> (hsl: HSL)
        ensures
            hsl == (HSL { h, s, l }),
    {
        HSL { h, s, l }
    }
}

impl HSV {
    /// Whether the three fractions have values and lie in their ranges: the
    /// hue at most 360, saturation and value at most 1.
    pub open spec fn wf(self) -> bool {
        &&& self.h.wf() && self.h.at_most(360)
        &&& self.s.wf() && self.s.at_most(1)
        &&& self.v.wf() && self.v.at_most(1)
    }
}

} // verus!
