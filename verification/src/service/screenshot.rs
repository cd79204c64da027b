//! A captured piece of the screen, held as an `image::RgbaImage`.
//!
//! The image buffer belongs to the `image` crate and is opaque to the
//! verifier. Its contents are described by two uninterpreted functions, and
//! the three calls the crate makes into it are trusted to behave as stated
//! below. Everything else in the crate is proved on top of these statements.

use crate::model::color::Color;
use crate::service::cursor_color::GetCursorColorError;
use vstd::prelude::*;

verus! {

/// A captured image: `width * height` pixels of four samples each (red,
/// green, blue, alpha), stored row by row.
///
/// Trusted: the field is an `image::RgbaImage`, which the verifier does not
/// look into.
#[verifier::external_body]
pub struct Screenshot {
    image: image::RgbaImage,
}

/// The raw samples of a screenshot, as `image::ImageBuffer::as_raw` would
/// return them.
pub uninterp spec fn screenshot_samples(shot: Screenshot) -> Seq<u8>;

/// The width and height of a screenshot in pixels, as
/// `image::ImageBuffer::dimensions` returns them.
pub uninterp spec fn screenshot_dimensions(shot: Screenshot) -> (u32, u32);

/// Trusted wrapper of `image::ImageBuffer::from_raw`.
///
/// The call succeeds exactly when the buffer holds at least four samples for
/// each of the `width * height` pixels (and that count can be computed in a
/// `usize`); the image then has the given dimensions and keeps the buffer as
/// it is.
#[verifier::external_body]
fn image_from_raw(width: u32, height: u32, samples: Vec<u8>) -> (r: Option<Screenshot>)
    ensures
        r is Some <==> (4 * width <= usize::MAX && 4 * width * height <= samples@.len()),
        r matches Some(shot) ==> screenshot_dimensions(shot) == (width, height)
            && screenshot_samples(shot) == samples@,
{
    match image::RgbaImage::from_raw(width, height, samples) {
        Some(image) => Some(Screenshot { image }),
        None => None,
    }
}

/// Trusted wrapper of `image::ImageBuffer::dimensions`.
///
/// Returns the width and height the image was made with. Every image buffer
/// is made with a sample buffer that covers all of its pixels, so four times
/// their product is at most the length of the buffer.
#[verifier::external_body]
fn image_dimensions(shot: &Screenshot) -> (d: (u32, u32))
    ensures
        d == screenshot_dimensions(*shot),
        4 * d.0 * d.1 <= screenshot_samples(*shot).len() <= usize::MAX,
{
    shot.image.dimensions()
}

/// Trusted wrapper of `image::ImageBuffer::get_pixel`.
///
/// For a position inside the image (outside of it the call panics) the pixel
/// is the four samples that start at index `4 * (y * width + x)`; the first
/// three of them are returned as a colour.
#[verifier::external_body]
fn image_get_pixel(shot: &Screenshot, x: u32, y: u32) -> (c: Color)
    requires
        x < screenshot_dimensions(*shot).0,
        y < screenshot_dimensions(*shot).1,
    ensures
        c == color_at(screenshot_samples(*shot), y * screenshot_dimensions(*shot).0 + x),
{
    let pixel = shot.image.get_pixel(x, y);
    Color { r: pixel.0[0], g: pixel.0[1], b: pixel.0[2] }
}

/// The colour of the `index`-th pixel of a sample buffer: its red, green and
/// blue samples, the alpha sample left out.
pub open spec fn color_at(samples: Seq<u8>, index: int) -> Color {
    Color { r: samples[4 * index], g: samples[4 * index + 1], b: samples[4 * index + 2] }
}

/// The colours of the first `count` pixels of a sample buffer.
pub open spec fn colors_of(samples: Seq<u8>, count: int) -> Seq<Color> {
    Seq::new(count as nat, |i: int| color_at(samples, i))
}

impl Screenshot {
    /// The width of the image in pixels.
    pub open spec fn width(&self) -> int {
        screenshot_dimensions(*self).0 as int
    }

    /// The height of the image in pixels.
    pub open spec fn height(&self) -> int {
        screenshot_dimensions(*self).1 as int
    }

    /// The colours of the image, row by row. The view holds neither the
    /// alpha samples, which nothing here reads, nor the dimensions, which
    /// `width` and `height` give.
    pub open spec fn view(&self) -> Seq<Color> {
        colors_of(screenshot_samples(*self), self.width() * self.height())
    }

    /// Makes a screenshot of `width * height` pixels from raw samples, four
    /// per pixel, row by row. Fails with `UnableGetBuffer` when the buffer is
    /// too short for that many pixels, or when a row alone has more samples
    /// than a `usize` can count.
    pub fn new(width: u32, height: u32, samples: Vec<u8>) -> (r: Result<
        Screenshot,
        GetCursorColorError,
    >)
        ensures
            r is Ok <==> (4 * width <= usize::MAX && 4 * width * height <= samples@.len()),
            r matches Ok(shot) ==> shot.width() == width && shot.height() == height
                && shot@ == colors_of(samples@, width * height),
            r matches Err(e) ==> e == GetCursorColorError::UnableGetBuffer,
    {
        match image_from_raw(width, height, samples) {
            Some(shot) => Ok(shot),
            None => Err(GetCursorColorError::UnableGetBuffer),
        }
    }

    /// The screenshot that a capture yielded. `captured` holds the width,
    /// the height and the samples that the system handed over, or nothing
    /// where it handed over none; that, like samples that do not make an
    /// image, is answered with `UnableGetBuffer`.
    pub fn from_capture(captured: Option<(u32, u32, Vec<u8>)>) -> (r: Result<
        Screenshot,
        GetCursorColorError,
    >)
        ensures
            r is Ok <==> (captured matches Some(given) && 4 * given.0 <= usize::MAX && 4 * given.0
                * given.1 <= given.2@.len()),
            r matches Ok(shot) ==> captured matches Some(given) && shot.width() == given.0
                && shot.height() == given.1 && shot@ == colors_of(given.2@, given.0 * given.1),
            r matches Err(e) ==> e == GetCursorColorError::UnableGetBuffer,
    {
        match captured {
            Some((width, height, samples)) => Screenshot::new(width, height, samples),
            None => Err(GetCursorColorError::UnableGetBuffer),
        }
    }

    /// The width and height of the image.
    pub fn size(&self) -> (d: (u32, u32))
        ensures
            d.0 == self.width(),
            d.1 == self.height(),
            self.width() * self.height() <= usize::MAX,
    {
        let d = image_dimensions(self);
        proof {
            lemma_area_fits(d.0 as int, d.1 as int);
        }
        d
    }

    /// All colours of the image, row by row.
    pub fn colors(&self) -> (grid: Vec<Color>)
        ensures
            grid@ == self@,
    {
        let d = image_dimensions(self);
        let width: u32 = d.0;
        let height: u32 = d.1;
        let ghost samples = screenshot_samples(*self);
        let mut grid: Vec<Color> = Vec::new();
        let mut y: u32 = 0;
        while y < height
            invariant
                y <= height,
                width == self.width(),
                height == self.height(),
                samples == screenshot_samples(*self),
                grid@ == colors_of(samples, y * width),
            decreases height - y,
        {
            let mut x: u32 = 0;
            while x < width
                invariant
                    x <= width,
                    y < height,
                    width == self.width(),
                    height == self.height(),
                    samples == screenshot_samples(*self),
                    grid@ == colors_of(samples, y * width + x),
                decreases width - x,
            {
                proof {
                    lemma_index_in_area(x as int, y as int, width as int, height as int);
                }
                let color = image_get_pixel(self, x, y);
                grid.push(color);
                x += 1;
                assert(grid@ =~= colors_of(samples, y * width + x));
            }
            y += 1;
            assert(y * width == (y - 1) * width + width) by (nonlinear_arith);
        }
        assert(height * width == width * height) by (nonlinear_arith);
        grid
    }

    /// The colour of the pixel in column `x` of row `y`, or `None` outside of
    /// the image.
    pub fn pixel(&self, x: u32, y: u32) -> (c: Option<Color>)
        ensures
            c is Some <==> x < self.width() && y < self.height(),
            c matches Some(color) ==> color == self@[y * self.width() + x],
    {
        let d = image_dimensions(self);
        if x < d.0 && y < d.1 {
            proof {
                lemma_index_in_area(x as int, y as int, d.0 as int, d.1 as int);
            }
            Some(image_get_pixel(self, x, y))
        } else {
            None
        }
    }
}

/// The pixel count of an image is at most a quarter of its sample count.
proof fn lemma_area_fits(width: int, height: int)
    requires
        0 <= width,
        0 <= height,
    ensures
        width * height <= 4 * width * height,
        4 * width * height == 4 * (width * height),
{
    assert(0 <= width * height) by (nonlinear_arith)
        requires
            0 <= width,
            0 <= height,
    ;
    assert(4 * width * height == 4 * (width * height)) by (nonlinear_arith);
}

/// The row-major index of a position inside an image lies inside its area.
pub proof fn lemma_index_in_area(x: int, y: int, width: int, height: int)
    requires
        0 <= x < width,
        0 <= y < height,
    ensures
        0 <= y * width + x < width * height,
{
    assert(0 <= y * width) by (nonlinear_arith)
        requires
            0 <= y,
            0 <= width,
    ;
    assert(y * width + width <= height * width) by (nonlinear_arith)
        requires
            y + 1 <= height,
            0 <= width,
    ;
    assert(height * width == width * height) by (nonlinear_arith);
}

} // verus!
