//! What holds of the conversions between the colour models: every component
//! stays in its range, and the way to hue, saturation and lightness and back
//! loses nothing.

use crate::model::color::{Color, HSL};
use crate::model::hsl_to_rgb::{level_of, lower_of, rounded_byte, upper_of, wrapped};
use vstd::prelude::*;

verus! {

/// For a colour with smallest channel `low`, largest channel `high` and the
/// saturation denominator `sd` that goes with them, the largest level is the
/// largest channel and the smallest level the smallest channel, both as
/// fractions of 255.
proof fn lemma_extreme_levels(low: int, high: int, sd: int)
    requires
        0 <= low < high <= 255,
        sd == if low + high <= 255 {
            low + high
        } else {
            510 - (low + high)
        },
    ensures
        upper_of(low + high, 510, high - low, sd) == 2 * high * sd,
        lower_of(low + high, 510, high - low, sd) == 2 * low * sd,
{
    let sum = low + high;
    let d = high - low;
    if 2 * sum < 510 {
        assert(sum * (sd + d) == 2 * high * sd) by (nonlinear_arith)
            requires
                sd == sum,
                sum + d == 2 * high,
        ;
    } else {
        assert(sum * sd + d * (510 - sum) == 2 * high * sd) by (nonlinear_arith)
            requires
                sd == 510 - sum,
                sum + d == 2 * high,
        ;
    }
    assert(2 * sum * sd - 2 * high * sd == 2 * low * sd) by (nonlinear_arith)
        requires
            sum - high == low,
    ;
}

/// Where a channel stands on the colour circle in relation to its value:
/// on the rising line, at the top, on the falling line or at the bottom.
spec fn stands_at(low: int, high: int, turn: int, channel: int) -> bool {
    let d = high - low;
    ||| 0 <= turn < 60 * d && turn == 60 * (channel - low)
    ||| 60 * d <= turn < 180 * d && channel == high
    ||| 180 * d <= turn < 240 * d && 240 * d - turn == 60 * (channel - low)
    ||| 240 * d <= turn && channel == low
}

/// The level of a channel that stands where its value says is that value,
/// as a fraction of 255.
proof fn lemma_level_is_channel(low: int, high: int, sd: int, turn: int, channel: int)
    requires
        0 <= low < high,
        0 < sd,
        stands_at(low, high, turn, channel),
    ensures
        level_of(2 * low * sd, 2 * high * sd, 60 * (high - low), turn) == (2 * sd * (60 * (high
            - low))) * channel,
{
    let d = high - low;
    let p = 2 * low * sd;
    let q = 2 * high * sd;
    let unit = 60 * d;
    if turn < unit {
        assert(p * unit + (q - p) * turn == (2 * sd * unit) * channel) by (nonlinear_arith)
            requires
                p == 2 * low * sd,
                q == 2 * high * sd,
                unit == 60 * (high - low),
                turn == 60 * (channel - low),
        ;
    } else if turn < 3 * unit {
        assert(q * unit == (2 * sd * unit) * channel) by (nonlinear_arith)
            requires
                q == 2 * high * sd,
                channel == high,
        ;
    } else if turn < 4 * unit {
        assert(p * unit + (q - p) * (4 * unit - turn) == (2 * sd * unit) * channel)
            by (nonlinear_arith)
            requires
                p == 2 * low * sd,
                q == 2 * high * sd,
                unit == 60 * (high - low),
                4 * unit - turn == 60 * (channel - low),
        ;
    } else {
        assert(p * unit == (2 * sd * unit) * channel) by (nonlinear_arith)
            requires
                p == 2 * low * sd,
                channel == low,
        ;
    }
}

/// A level that is exactly `channel / 255` rounds to `channel`.
proof fn lemma_exact_level_rounds(scale: int, channel: int)
    requires
        0 < scale,
        0 <= channel,
    ensures
        rounded_byte(scale * channel, 255 * scale) == channel,
{
    assert((510 * (scale * channel) + 255 * scale) / (2 * (255 * scale)) == channel)
        by (nonlinear_arith)
        requires
            0 < scale,
            0 <= channel,
    ;
}

/// The byte that `rgb` gives a channel of the lightness form of a colour is
/// the channel itself, provided the channel stands where its value says.
proof fn lemma_channel_returns(c: Color, turn: int, channel: int)
    requires
        c.chroma() > 0,
        0 <= channel <= 255,
        stands_at(
            c.min_channel(),
            c.max_channel(),
            wrapped(turn, 360 * c.hsl().h.den),
            channel,
        ),
    ensures
        c.hsl().channel(turn) == channel,
{
    let low = c.min_channel();
    let high = c.max_channel();
    let d = high - low;
    let hsl = c.hsl();
    let sd = hsl.s.den as int;
    let unit = 60 * d;
    let scale = 2 * sd * unit;
    lemma_extreme_levels(low, high, sd);
    lemma_level_is_channel(low, high, sd, wrapped(turn, 360 * d), channel);
    assert(0 < scale) by (nonlinear_arith)
        requires
            scale == 2 * sd * unit,
            0 < sd,
            0 < unit,
    ;
    assert(510 * sd * unit == 255 * scale) by (nonlinear_arith)
        requires
            scale == 2 * sd * unit,
    ;
    assert(0 <= scale * channel <= 255 * scale) by (nonlinear_arith)
        requires
            0 < scale,
            0 <= channel <= 255,
    ;
    lemma_exact_level_rounds(scale, channel);
}

impl Color {
    /// Both forms of every colour lie in their ranges: the hue in `[0, 360)`,
    /// the other components in `[0, 1]`. A grey has neither hue nor
    /// saturation.
    pub proof fn lemma_components_in_range(self)
        ensures
            self.hsl().wf() && self.hsl().h.below(360),
            self.hsv().wf() && self.hsv().h.below(360),
            self.chroma() == 0 ==> self.hue().is_zero() && self.hsl_saturation().is_zero()
                && self.hsv_saturation().is_zero(),
    {
    }

    /// Turning a colour into hue, saturation and lightness and back gives
    /// the colour itself.
    pub proof fn lemma_hsl_round_trip(self)
        ensures
            self.hsl().wf(),
            self.hsl().rgb() == self,
    {
        let hsl = self.hsl();
        let low = self.min_channel();
        let high = self.max_channel();
        let d = high - low;
        if d == 0 {
            lemma_exact_level_rounds(2, high);
        } else {
            let hn = hsl.h.num as int;
            assert(hsl.h.den == d);
            assert(hsl.s.num == d);
            lemma_channel_returns(self, hn + 120 * d, self.r as int);
            lemma_channel_returns(self, hn, self.g as int);
            lemma_channel_returns(self, hn - 120 * d, self.b as int);
        }
    }
}

impl HSL {
    /// What `rgb` gives does not change when it is turned into hue,
    /// saturation and lightness and back once more: nothing is lost to
    /// rounding a second time.
    pub proof fn lemma_rgb_is_stable(self)
        ensures
            self.rgb().hsl().rgb() == self.rgb(),
    {
        self.rgb().lemma_hsl_round_trip();
    }
}

} // verus!
