//! From hue, saturation and lightness back to red, green and blue.
//!
//! The conversion is the usual one. With `q` the largest and `p` the smallest
//! channel level that the lightness and saturation allow, each channel sits
//! at `p`, at `q`, or on the straight line between them, depending on where
//! the hue, shifted by a third of a turn for red and for blue, falls on the
//! colour circle. A level that leaves the range from 0 to 1, as it can for
//! a saturation or lightness above 1, is brought back to the nearer end. All
//! of it is computed on exact fractions, and only the final level is rounded
//! to a byte.

use crate::model::color::{Color, HSL};
use vstd::prelude::*;

verus! {

/// `255 * num / den` rounded to the nearest whole number, halves up.
pub open spec fn rounded_byte(num: int, den: int) -> int {
    (510 * num + den) / (2 * den)
}

/// The level `num / den` brought into the range from 0 to 1, as its
/// numerator: 0 for a negative level, `den` for one above 1.
pub open spec fn clamped(num: int, den: int) -> int {
    if num < 0 {
        0
    } else if num > den {
        den
    } else {
        num
    }
}

/// A turn brought back towards one full turn: a negative one is moved up by
/// a full turn, one beyond a full turn is moved down by it, once.
pub open spec fn wrapped(turn: int, full: int) -> int {
    if turn < 0 {
        turn + full
    } else if turn > full {
        turn - full
    } else {
        turn
    }
}

/// The level of a channel whose turn is `turn`, where `unit` is a sixth of a
/// turn: rising from `p` to `q` over the first sixth, at `q` up to the
/// half turn, falling back to `p` over the next sixth, and at `p` from
/// there on. The result is the level times `unit`.
pub open spec fn level_of(p: int, q: int, unit: int, turn: int) -> int {
    if turn < unit {
        p * unit + (q - p) * turn
    } else if turn < 3 * unit {
        q * unit
    } else if turn < 4 * unit {
        p * unit + (q - p) * (4 * unit - turn)
    } else {
        p * unit
    }
}

/// The largest channel level of the lightness `ln / ld` and the saturation
/// `sn / sd`, times `ld * sd`: `l * (1 + s)` for a lightness below one half,
/// `l + s - l * s` otherwise.
pub open spec fn upper_of(ln: int, ld: int, sn: int, sd: int) -> int {
    if 2 * ln < ld {
        ln * (sd + sn)
    } else {
        ln * sd + sn * (ld - ln)
    }
}

/// The smallest channel level, times `ld * sd`: twice the lightness less the
/// largest level.
pub open spec fn lower_of(ln: int, ld: int, sn: int, sd: int) -> int {
    2 * ln * sd - upper_of(ln, ld, sn, sd)
}

impl HSL {
    /// Whether each of the three fractions has a value.
    pub open spec fn defined(self) -> bool {
        self.h.wf() && self.s.wf() && self.l.wf()
    }

    /// Whether each of the three fractions has a value.
    pub fn is_defined(&self) -> (defined: bool)
        ensures
            defined == self.defined(),
    {
        self.h.den > 0 && self.s.den > 0 && self.l.den > 0
    }

    /// The largest channel level, times `l.den * s.den`.
    pub open spec fn upper_level(self) -> int {
        upper_of(self.l.num as int, self.l.den as int, self.s.num as int, self.s.den as int)
    }

    /// The smallest channel level, times `l.den * s.den`.
    pub open spec fn lower_level(self) -> int {
        lower_of(self.l.num as int, self.l.den as int, self.s.num as int, self.s.den as int)
    }

    /// The level of the channel that stands at `turn` on the colour circle,
    /// times `l.den * s.den * 60 * h.den`. The turn is counted in units of
    /// `1 / (360 * h.den)` of the circle.
    pub open spec fn level(self, turn: int) -> int {
        level_of(
            self.lower_level(),
            self.upper_level(),
            60 * self.h.den,
            wrapped(turn, 360 * self.h.den),
        )
    }

    /// The byte of the channel that stands at `turn` on the colour circle:
    /// its level, brought into the range from 0 to 1 and rounded.
    pub open spec fn channel(self, turn: int) -> int {
        let whole = self.l.den * self.s.den * (60 * self.h.den);
        rounded_byte(clamped(self.level(turn), whole), whole)
    }

    /// The colour as red, green and blue. Without saturation it is the grey
    /// of the lightness; otherwise green stands at the hue, red a third of a
    /// turn ahead of it and blue a third behind.
    pub open spec fn rgb(self) -> Color {
        if self.s.num == 0 {
            let grey = rounded_byte(
                clamped(self.l.num as int, self.l.den as int),
                self.l.den as int,
            ) as u8;
            Color { r: grey, g: grey, b: grey }
        } else {
            Color {
                r: self.channel(self.h.num + 120 * self.h.den) as u8,
                g: self.channel(self.h.num as int) as u8,
                b: self.channel(self.h.num - 120 * self.h.den) as u8,
            }
        }
    }

    /// The colour as red, green and blue.
    ///
    /// Every hue, saturation and lightness that has a value is taken, also
    /// outside of the documented ranges: each channel level is brought into
    /// the range from 0 to 1 before it is rounded.
    pub fn to_rgb(&self) -> (color: Color)
        requires
            self.defined(),
        ensures
            color == self.rgb(),
    {
        let ln: i128 = self.l.num as i128;
        let ld: i128 = self.l.den as i128;
        let sn: i128 = self.s.num as i128;
        let sd: i128 = self.s.den as i128;
        let hn: i128 = self.h.num as i128;
        let hd: i128 = self.h.den as i128;
        if sn == 0 {
            let grey: u8 = round_to_byte(clamp_level(ln, ld), ld);
            return Color { r: grey, g: grey, b: grey };
        }
        proof {
            lemma_product_bound(ld as int, sd as int, 0xffff_ffff, 0xffff_ffff);
            lemma_product_bound(ln as int, sd as int, 0xffff_ffff, 0xffff_ffff);
            lemma_product_bound(2 * ln as int, sd as int, 0x1_ffff_fffe, 0xffff_ffff);
            lemma_product_bound(ln as int, sd as int + sn as int, 0xffff_ffff, 0x1_ffff_fffe);
            lemma_signed_product_bound(ld as int - ln as int, sn as int, 0xffff_ffff, 0xffff_ffff);
            assert(0 < ld * sd) by (nonlinear_arith)
                requires
                    0 < ld,
                    0 < sd,
            ;
            assert(sn * (ld - ln) == (ld - ln) * sn) by (nonlinear_arith);
        }
        let scale: i128 = ld * sd;
        let q: i128 = if 2 * ln < ld {
            ln * (sd + sn)
        } else {
            ln * sd + sn * (ld - ln)
        };
        let p: i128 = 2 * ln * sd - q;
        let unit: i128 = 60 * hd;
        let full: i128 = 360 * hd;
        proof {
            lemma_product_bound(scale as int, unit as int, 0xffff_ffff_ffff_ffff, 0x40_0000_0000);
            assert(0 < scale * unit) by (nonlinear_arith)
                requires
                    0 < scale,
                    0 < unit,
            ;
        }
        let whole: i128 = scale * unit;
        let ahead: i128 = level(p, q, unit, wrap(hn + 120 * hd, full));
        let at: i128 = level(p, q, unit, wrap(hn, full));
        let behind: i128 = level(p, q, unit, wrap(hn - 120 * hd, full));
        let r: u8 = round_to_byte(clamp_level(ahead, whole), whole);
        let g: u8 = round_to_byte(clamp_level(at, whole), whole);
        let b: u8 = round_to_byte(clamp_level(behind, whole), whole);
        proof {
            assert(self.l.den * self.s.den * (60 * self.h.den) == whole);
        }
        Color { r, g, b }
    }

    /// Whether bringing the level at `turn` into the range from 0 to 1
    /// changes nothing.
    pub open spec fn level_in_range(self, turn: int) -> bool {
        clamped(self.level(turn), self.l.den * self.s.den * (60 * self.h.den)) == self.level(turn)
    }

    /// For a hue, saturation and lightness within their ranges the level of
    /// no channel leaves the range from 0 to 1: bringing it into that range
    /// changes nothing.
    pub proof fn lemma_valid_needs_no_clamp(self)
        requires
            self.wf(),
        ensures
            self.level_in_range(self.h.num + 120 * self.h.den),
            self.level_in_range(self.h.num as int),
            self.level_in_range(self.h.num - 120 * self.h.den),
    {
        let unit = 60 * self.h.den;
        let full = 360 * self.h.den;
        lemma_levels(
            self.l.num as int,
            self.l.den as int,
            self.s.num as int,
            self.s.den as int,
        );
        assert(0 <= self.lower_level() * unit) by (nonlinear_arith)
            requires
                0 <= self.lower_level(),
                0 <= unit,
        ;
        lemma_level_bounds(
            self.lower_level(),
            self.upper_level(),
            self.l.den * self.s.den,
            unit,
            wrapped(self.h.num + 120 * self.h.den, full),
        );
        lemma_level_bounds(
            self.lower_level(),
            self.upper_level(),
            self.l.den * self.s.den,
            unit,
            wrapped(self.h.num as int, full),
        );
        lemma_level_bounds(
            self.lower_level(),
            self.upper_level(),
            self.l.den * self.s.den,
            unit,
            wrapped(self.h.num - 120 * self.h.den, full),
        );
    }
}

/// A turn brought back towards one full turn, computed.
fn wrap(turn: i128, full: i128) -> (wrapped_turn: i128)
    requires
        0 < full <= 0x168_0000_0000,
        -0x78_0000_0000 <= turn <= 0x79_0000_0000,
        0 <= turn + full,
    ensures
        wrapped_turn == wrapped(turn as int, full as int),
        0 <= wrapped_turn <= 0x168_0000_0000,
{
    if turn < 0 {
        turn + full
    } else if turn > full {
        turn - full
    } else {
        turn
    }
}

/// A level brought into the range from 0 to 1, computed.
fn clamp_level(num: i128, den: i128) -> (level: i128)
    requires
        0 < den,
    ensures
        level == clamped(num as int, den as int),
        0 <= level <= den,
{
    if num < 0 {
        0
    } else if num > den {
        den
    } else {
        num
    }
}

/// `255 * num / den` rounded to the nearest byte, for a fraction between 0
/// and 1.
fn round_to_byte(num: i128, den: i128) -> (byte: u8)
    requires
        0 < den,
        0 <= num <= den <= 0x40_0000_0000_0000_0000_0000_0000,
    ensures
        byte == rounded_byte(num as int, den as int),
{
    proof {
        lemma_rounded_fits(num as int, den as int);
    }
    ((510 * num + den) / (2 * den)) as u8
}

/// The level of a channel times `unit`, computed.
fn level(p: i128, q: i128, unit: i128, turn: i128) -> (value: i128)
    requires
        -0x4_0000_0000_0000_0000 <= p <= 0x4_0000_0000_0000_0000,
        -0x4_0000_0000_0000_0000 <= q <= 0x4_0000_0000_0000_0000,
        0 <= unit <= 0x40_0000_0000,
        0 <= turn,
    ensures
        value == level_of(p as int, q as int, unit as int, turn as int),
{
    proof {
        lemma_signed_product_bound(p as int, unit as int, 0x4_0000_0000_0000_0000, 0x40_0000_0000);
        lemma_signed_product_bound(q as int, unit as int, 0x4_0000_0000_0000_0000, 0x40_0000_0000);
        if turn < unit {
            lemma_signed_product_bound(
                q as int - p as int,
                turn as int,
                0x8_0000_0000_0000_0000,
                0x40_0000_0000,
            );
        } else if 3 * unit <= turn < 4 * unit {
            lemma_signed_product_bound(
                q as int - p as int,
                4 * unit as int - turn as int,
                0x8_0000_0000_0000_0000,
                0x40_0000_0000,
            );
        }
    }
    if turn < unit {
        p * unit + (q - p) * turn
    } else if turn < 3 * unit {
        q * unit
    } else if turn < 4 * unit {
        p * unit + (q - p) * (4 * unit - turn)
    } else {
        p * unit
    }
}

/// A product of two bounded numbers is bounded by the product of the bounds.
proof fn lemma_product_bound(a: int, b: int, a_max: int, b_max: int)
    requires
        0 <= a <= a_max,
        0 <= b <= b_max,
    ensures
        0 <= a * b <= a_max * b_max,
{
    assert(0 <= a * b <= a_max * b_max) by (nonlinear_arith)
        requires
            0 <= a <= a_max,
            0 <= b <= b_max,
    ;
}

/// The same where the first factor may be negative.
proof fn lemma_signed_product_bound(a: int, b: int, a_max: int, b_max: int)
    requires
        -a_max <= a <= a_max,
        0 <= b <= b_max,
    ensures
        -(a_max * b_max) <= a * b <= a_max * b_max,
{
    assert(-(a_max * b_max) <= a * b <= a_max * b_max) by (nonlinear_arith)
        requires
            -a_max <= a <= a_max,
            0 <= b <= b_max,
    ;
}

/// A fraction between 0 and 1 rounds to a byte.
proof fn lemma_rounded_fits(num: int, den: int)
    requires
        0 <= num <= den,
        0 < den,
    ensures
        0 <= rounded_byte(num, den) <= 255,
{
    assert(0 <= (510 * num + den) / (2 * den) <= 255) by (nonlinear_arith)
        requires
            0 <= num <= den,
            0 < den,
    ;
}

/// The smallest level is not negative, the largest not above one, and the
/// smallest not above the largest.
pub proof fn lemma_levels(ln: int, ld: int, sn: int, sd: int)
    requires
        0 <= ln <= ld,
        0 <= sn <= sd,
    ensures
        0 <= lower_of(ln, ld, sn, sd) <= upper_of(ln, ld, sn, sd) <= ld * sd,
{
    assert(2 * ln * sd == 2 * (ln * sd)) by (nonlinear_arith);
    if 2 * ln < ld {
        assert(ln * (sd + sn) == ln * sd + ln * sn) by (nonlinear_arith);
        assert(0 <= ln * sn <= ln * sd) by (nonlinear_arith)
            requires
                0 <= ln,
                0 <= sn <= sd,
        ;
        assert(2 * (ln * sd) <= ld * sd) by (nonlinear_arith)
            requires
                0 <= 2 * ln <= ld,
                0 <= sd,
        ;
    } else {
        assert(0 <= sn * (ld - ln) <= sd * (ld - ln)) by (nonlinear_arith)
            requires
                0 <= sn <= sd,
                0 <= ld - ln,
        ;
        assert(ln * sd + sd * (ld - ln) == ld * sd) by (nonlinear_arith);
        assert(sd * (ld - ln) <= ln * sd) by (nonlinear_arith)
            requires
                0 <= ld - ln <= ln,
                0 <= sd,
        ;
    }
}

/// Every level lies between the smallest and the largest one.
proof fn lemma_level_bounds(p: int, q: int, scale: int, unit: int, turn: int)
    requires
        0 <= p <= q <= scale,
        0 <= unit,
        0 <= turn,
    ensures
        p * unit <= level_of(p, q, unit, turn) <= q * unit <= scale * unit,
{
    assert(p * unit <= q * unit <= scale * unit) by (nonlinear_arith)
        requires
            0 <= p <= q <= scale,
            0 <= unit,
    ;
    if turn < unit {
        assert(0 <= (q - p) * turn <= (q - p) * unit) by (nonlinear_arith)
            requires
                0 <= q - p,
                0 <= turn <= unit,
        ;
        assert(p * unit + (q - p) * unit == q * unit) by (nonlinear_arith);
    } else if 3 * unit <= turn < 4 * unit {
        assert(0 <= (q - p) * (4 * unit - turn) <= (q - p) * unit) by (nonlinear_arith)
            requires
                0 <= q - p,
                0 <= 4 * unit - turn <= unit,
        ;
        assert(p * unit + (q - p) * unit == q * unit) by (nonlinear_arith);
    }
}

} // verus!
