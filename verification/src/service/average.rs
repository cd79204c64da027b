//! The picked colour: the mean of a square block of a pixel grid.

use crate::model::color::Color;
use crate::model::sample_config::{half_of, side_of, SampleConfig};
use vstd::prelude::*;

verus! {

/// The red channel of a colour, as a number.
pub open spec fn red(color: Color) -> int {
    color.r as int
}

/// The green channel of a colour, as a number.
pub open spec fn green(color: Color) -> int {
    color.g as int
}

/// The blue channel of a colour, as a number.
pub open spec fn blue(color: Color) -> int {
    color.b as int
}

/// The sum of one channel over the cells `from..to` of the row that starts
/// at index `base` of the grid.
pub open spec fn row_sum(
    grid: Seq<Color>,
    base: int,
    from: int,
    to: int,
    channel: spec_fn(Color) -> int,
) -> int
    decreases to - from,
{
    if to <= from {
        0
    } else {
        row_sum(grid, base, from, to - 1, channel) + channel(grid[base + to - 1])
    }
}

/// The sum of one channel over the columns `from..to` of the rows
/// `from..rows_to` of a row-major grid with `side` cells per row.
pub open spec fn block_sum(
    grid: Seq<Color>,
    side: int,
    from: int,
    to: int,
    rows_to: int,
    channel: spec_fn(Color) -> int,
) -> int
    decreases rows_to - from,
{
    if rows_to <= from {
        0
    } else {
        block_sum(grid, side, from, to, rows_to - 1, channel) + row_sum(
            grid,
            (rows_to - 1) * side,
            from,
            to,
            channel,
        )
    }
}

/// The mean colour of the square block of rows and columns `from..to` of a
/// row-major grid with `side` cells per row: each channel is the sum over
/// the block divided by the number of its cells, rounded down.
pub open spec fn mean_color(grid: Seq<Color>, side: int, from: int, to: int) -> Color {
    let count = (to - from) * (to - from);
    Color {
        r: (block_sum(grid, side, from, to, to, |c: Color| red(c)) / count) as u8,
        g: (block_sum(grid, side, from, to, to, |c: Color| green(c)) / count) as u8,
        b: (block_sum(grid, side, from, to, to, |c: Color| blue(c)) / count) as u8,
    }
}

/// How many cells the averaging window reaches from the centre cell to each
/// side: half of the requested window, but no further than the preview goes.
pub open spec fn window_reach(tex_size: usize, sample_size: usize) -> int {
    if half_of(sample_size) <= half_of(tex_size) {
        half_of(sample_size)
    } else {
        half_of(tex_size)
    }
}

/// The picked colour of a preview grid of side `side_of(tex_size)`: the mean
/// of the averaging window around the centre cell.
pub open spec fn picked_color(grid: Seq<Color>, tex_size: usize, sample_size: usize) -> Color {
    mean_color(
        grid,
        side_of(tex_size),
        half_of(tex_size) - window_reach(tex_size, sample_size),
        half_of(tex_size) + window_reach(tex_size, sample_size) + 1,
    )
}

/// With an averaging window of a single cell the picked colour is the colour
/// of the centre cell of the preview, the one under the cursor.
pub proof fn lemma_single_cell_is_centre(grid: Seq<Color>, tex_size: usize, sample_size: usize)
    requires
        sample_size <= 1,
    ensures
        picked_color(grid, tex_size, sample_size) == grid[half_of(tex_size) * side_of(tex_size)
            + half_of(tex_size)],
{
    let half = half_of(tex_size);
    let side = side_of(tex_size);
    let centre = grid[half * side + half];
    assert forall|channel: spec_fn(Color) -> int|
        block_sum(grid, side, half, half + 1, half + 1, channel) == #[trigger] channel(
            centre,
        ) by {
        reveal_with_fuel(block_sum, 2);
        reveal_with_fuel(row_sum, 2);
    }
    let from = half - window_reach(tex_size, sample_size);
    let to = half + window_reach(tex_size, sample_size) + 1;
    assert((to - from) * (to - from) == 1) by (nonlinear_arith)
        requires
            to - from == 1,
    ;
    assert(block_sum(grid, side, from, to, to, |c: Color| red(c)) == red(centre));
    assert(block_sum(grid, side, from, to, to, |c: Color| green(c)) == green(centre));
    assert(block_sum(grid, side, from, to, to, |c: Color| blue(c)) == blue(centre));
}

/// A channel is at most 255, so a row sums to at most 255 per cell.
proof fn lemma_row_sum_bounds(
    grid: Seq<Color>,
    base: int,
    from: int,
    to: int,
    channel: spec_fn(Color) -> int,
)
    requires
        from <= to,
        forall|c: Color| 0 <= #[trigger] channel(c) <= 255,
    ensures
        0 <= row_sum(grid, base, from, to, channel) <= 255 * (to - from),
    decreases to - from,
{
    if from < to {
        lemma_row_sum_bounds(grid, base, from, to - 1, channel);
    }
}

/// A block sums to at most 255 per cell.
proof fn lemma_block_sum_bounds(
    grid: Seq<Color>,
    side: int,
    from: int,
    to: int,
    rows_to: int,
    channel: spec_fn(Color) -> int,
)
    requires
        from <= to,
        from <= rows_to,
        forall|c: Color| 0 <= #[trigger] channel(c) <= 255,
    ensures
        0 <= block_sum(grid, side, from, to, rows_to, channel) <= 255 * ((rows_to - from) * (to
            - from)),
    decreases rows_to - from,
{
    if from < rows_to {
        lemma_block_sum_bounds(grid, side, from, to, rows_to - 1, channel);
        lemma_row_sum_bounds(grid, (rows_to - 1) * side, from, to, channel);
        assert((rows_to - from) * (to - from) == (rows_to - 1 - from) * (to - from) + (to - from))
            by (nonlinear_arith);
    } else {
        assert((rows_to - from) * (to - from) == 0) by (nonlinear_arith)
            requires
                rows_to - from == 0,
        ;
    }
}

/// A sum of at most 255 per cell has a mean of at most 255.
proof fn lemma_mean_fits(sum: int, count: int)
    requires
        0 <= sum <= 255 * count,
        0 < count,
    ensures
        0 <= sum / count <= 255,
{
    assert(0 <= sum / count <= 255) by (nonlinear_arith)
        requires
            0 <= sum <= 255 * count,
            0 < count,
    ;
}

/// Facts about the cells of a block that lies inside a square grid.
proof fn lemma_block_inside(side: int, from: int, to: int, row: int)
    requires
        0 <= from <= to <= side,
        from <= row < to,
    ensures
        0 <= row * side,
        row * side + side <= side * side,
        (row - from) * (to - from) + (to - from) == (row + 1 - from) * (to - from),
        0 <= (row - from) * (to - from),
        (row + 1 - from) * (to - from) <= side * side,
        (to - from) * (to - from) <= side * side,
{
    assert(0 <= row * side) by (nonlinear_arith)
        requires
            0 <= row,
            0 <= side,
    ;
    assert(row * side + side <= side * side) by (nonlinear_arith)
        requires
            0 <= row,
            row + 1 <= side,
    ;
    assert((row - from) * (to - from) + (to - from) == (row + 1 - from) * (to - from))
        by (nonlinear_arith);
    assert(0 <= (row - from) * (to - from)) by (nonlinear_arith)
        requires
            0 <= row - from,
            0 <= to - from,
    ;
    assert((row + 1 - from) * (to - from) <= side * side) by (nonlinear_arith)
        requires
            0 <= row + 1 - from <= side,
            0 <= to - from <= side,
    ;
    assert((to - from) * (to - from) <= side * side) by (nonlinear_arith)
        requires
            0 <= to - from <= side,
    ;
}

/// The mean colour of the square block of rows and columns `from..to` of a
/// square row-major grid with `side` cells per row.
pub fn block_average(grid: &Vec<Color>, side: usize, from: usize, to: usize) -> (color: Color)
    requires
        from < to <= side,
        grid@.len() == side * side,
    ensures
        color == mean_color(grid@, side as int, from as int, to as int),
{
    let ghost reds = |c: Color| red(c);
    let ghost greens = |c: Color| green(c);
    let ghost blues = |c: Color| blue(c);
    let cells: usize = grid.len();
    assert(cells == side * side);
    let width: usize = to - from;
    let mut sum_r: u128 = 0;
    let mut sum_g: u128 = 0;
    let mut sum_b: u128 = 0;
    let mut row: usize = from;
    while row < to
        invariant
            from <= row <= to <= side,
            from < to,
            width == to - from,
            grid@.len() == side * side,
            side * side <= usize::MAX,
            reds == (|c: Color| red(c)),
            greens == (|c: Color| green(c)),
            blues == (|c: Color| blue(c)),
            sum_r == block_sum(grid@, side as int, from as int, to as int, row as int, reds),
            sum_g == block_sum(grid@, side as int, from as int, to as int, row as int, greens),
            sum_b == block_sum(grid@, side as int, from as int, to as int, row as int, blues),
        decreases to - row,
    {
        proof {
            lemma_block_inside(side as int, from as int, to as int, row as int);
            lemma_block_sum_bounds(grid@, side as int, from as int, to as int, row as int, reds);
            lemma_block_sum_bounds(grid@, side as int, from as int, to as int, row as int, greens);
            lemma_block_sum_bounds(grid@, side as int, from as int, to as int, row as int, blues);
        }
        let base: usize = row * side;
        let mut row_r: u128 = 0;
        let mut row_g: u128 = 0;
        let mut row_b: u128 = 0;
        let mut column: usize = from;
        while column < to
            invariant
                from <= column <= to <= side,
                base == row * side,
                base + side <= side * side,
                grid@.len() == side * side,
                side * side <= usize::MAX,
                reds == (|c: Color| red(c)),
                greens == (|c: Color| green(c)),
                blues == (|c: Color| blue(c)),
                row_r == row_sum(grid@, base as int, from as int, column as int, reds),
                row_g == row_sum(grid@, base as int, from as int, column as int, greens),
                row_b == row_sum(grid@, base as int, from as int, column as int, blues),
            decreases to - column,
        {
            proof {
                lemma_row_sum_bounds(grid@, base as int, from as int, column as int, reds);
                lemma_row_sum_bounds(grid@, base as int, from as int, column as int, greens);
                lemma_row_sum_bounds(grid@, base as int, from as int, column as int, blues);
            }
            let cell: Color = grid[base + column];
            row_r = row_r + cell.r as u128;
            row_g = row_g + cell.g as u128;
            row_b = row_b + cell.b as u128;
            column += 1;
        }
        proof {
            lemma_row_sum_bounds(grid@, base as int, from as int, to as int, reds);
            lemma_row_sum_bounds(grid@, base as int, from as int, to as int, greens);
            lemma_row_sum_bounds(grid@, base as int, from as int, to as int, blues);
        }
        sum_r = sum_r + row_r;
        sum_g = sum_g + row_g;
        sum_b = sum_b + row_b;
        row += 1;
    }
    proof {
        lemma_block_inside(side as int, from as int, to as int, from as int);
        lemma_block_sum_bounds(grid@, side as int, from as int, to as int, to as int, reds);
        lemma_block_sum_bounds(grid@, side as int, from as int, to as int, to as int, greens);
        lemma_block_sum_bounds(grid@, side as int, from as int, to as int, to as int, blues);
        assert(0 < (to - from) * (to - from)) by (nonlinear_arith)
            requires
                0 < to - from,
        ;
        lemma_mean_fits(sum_r as int, (to - from) * (to - from));
        lemma_mean_fits(sum_g as int, (to - from) * (to - from));
        lemma_mean_fits(sum_b as int, (to - from) * (to - from));
    }
    let count: u128 = (width as u128) * (width as u128);
    Color { r: (sum_r / count) as u8, g: (sum_g / count) as u8, b: (sum_b / count) as u8 }
}

/// The picked colour of a square grid: the mean of the averaging window of
/// the configuration, which shares its centre cell with the grid.
pub fn average_color(grid: &Vec<Color>, config: &SampleConfig) -> (color: Color)
    requires
        grid@.len() == config.preview() * config.preview(),
    ensures
        color == mean_color(grid@, config.preview(), config.window_from(), config.window_to()),
{
    let side: usize = config.preview_size();
    let from: usize = config.window_start();
    let to: usize = config.window_end();
    proof {
        config.lemma_window_is_centred();
    }
    block_average(grid, side, from, to)
}

} // verus!
