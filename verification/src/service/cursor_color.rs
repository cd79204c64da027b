//! Locating the display under the cursor and reducing a capture to the
//! picked colour.

use crate::model::color::Color;
use crate::model::position::Position;
use crate::model::sample_config::{half_of, side_of, SampleConfig};
use crate::service::average::{average_color, picked_color};
use crate::service::screenshot::Screenshot;
use vstd::prelude::*;

verus! {

/// Why a sample of the screen could not be taken.
#[derive(Debug, Clone, Copy, PartialEq, Eq, Structural)]
pub enum GetCursorColorError {
    /// The system did not report where the cursor is.
    UnableGetMousePosition,
    /// The system did not list its displays.
    UnableGetScreens,
    /// The display could not be captured.
    UnableGetBuffer,
    /// No display contains the cursor.
    ScreenCountIsZero,
}

impl GetCursorColorError {
    /// A short description of the failure.
    pub fn message(&self) -> (text: &'static str)
        ensures
            *self == GetCursorColorError::UnableGetMousePosition ==> text@
                == "unable to get mouse position"@,
            *self == GetCursorColorError::UnableGetScreens ==> text@ == "unable to get screens"@,
            *self == GetCursorColorError::UnableGetBuffer ==> text@
                == "unable to get screen buffer"@,
            *self == GetCursorColorError::ScreenCountIsZero ==> text@ == "screen count is zero"@,
    {
        match self {
            GetCursorColorError::UnableGetMousePosition => "unable to get mouse position",
            GetCursorColorError::UnableGetScreens => "unable to get screens",
            GetCursorColorError::UnableGetBuffer => "unable to get screen buffer",
            GetCursorColorError::ScreenCountIsZero => "screen count is zero",
        }
    }
}

/// The position of the cursor, from what the system reported: the two
/// coordinates, or nothing where the query failed, which is answered with
/// `UnableGetMousePosition`.
pub fn get_mouse_position(reported: Option<(i32, i32)>) -> (r: Result<
    Position,
    GetCursorColorError,
>)
    ensures
        r is Ok <==> reported is Some,
        r matches Ok(position) ==> reported == Some((position.x, position.y)),
        r matches Err(e) ==> e == GetCursorColorError::UnableGetMousePosition,
{
    match reported {
        Some((x, y)) => Ok(Position { x, y }),
        None => Err(GetCursorColorError::UnableGetMousePosition),
    }
}

/// The bounds of one display on the desktop, in device pixels.
#[derive(Debug, Clone, Copy, PartialEq, Eq, Structural)]
pub struct ScreenBounds {
    pub x: i32,
    pub y: i32,
    pub width: i32,
    pub height: i32,
}

impl ScreenBounds {
    /// The display with the given top-left corner and size.
    pub fn new(x: i32, y: i32, width: i32, height: i32) -> (s: ScreenBounds)
        ensures
            s == (ScreenBounds { x, y, width, height }),
    {
        ScreenBounds { x, y, width, height }
    }

    /// The first column to the right of the display.
    pub open spec fn right(self) -> int {
        self.x + self.width
    }

    /// The first row below the display.
    pub open spec fn bottom(self) -> int {
        self.y + self.height
    }

    /// Whether the point lies on the display: at or after its left and top
    /// edges, before its right and bottom ones.
    pub open spec fn covers(self, position: Position) -> bool {
        self.x <= position.x < self.right() && self.y <= position.y < self.bottom()
    }

    /// Whether the point lies on the display.
    pub fn contains(&self, position: Position) -> (inside: bool)
        ensures
            inside == self.covers(position),
    {
        let px: i64 = position.x as i64;
        let py: i64 = position.y as i64;
        let left: i64 = self.x as i64;
        let top: i64 = self.y as i64;
        left <= px && px < left + self.width as i64 && top <= py && py < top + self.height as i64
    }
}

/// Whether no display of the list contains the point.
pub open spec fn no_cover(screens: Seq<ScreenBounds>, position: Position) -> bool {
    forall|j: int| 0 <= j < screens.len() ==> !(#[trigger] screens[j]).covers(position)
}

/// Whether `index` is the place of the first display of the list that
/// contains the point.
pub open spec fn is_first_cover(screens: Seq<ScreenBounds>, position: Position, index: int) -> bool {
    &&& 0 <= index < screens.len()
    &&& screens[index].covers(position)
    &&& forall|j: int| 0 <= j < index ==> !(#[trigger] screens[j]).covers(position)
}

/// The index of the first display that contains the point, or
/// `ScreenCountIsZero` when none does.
pub fn find_screen(screens: &Vec<ScreenBounds>, position: Position) -> (r: Result<
    usize,
    GetCursorColorError,
>)
    ensures
        r is Err <==> no_cover(screens@, position),
        r matches Ok(index) ==> is_first_cover(screens@, position, index as int),
        r matches Err(e) ==> e == GetCursorColorError::ScreenCountIsZero,
{
    let mut index: usize = 0;
    while index < screens.len()
        invariant
            index <= screens@.len(),
            forall|j: int| 0 <= j < index ==> !(#[trigger] screens@[j]).covers(position),
        decreases screens@.len() - index,
    {
        if screens[index].contains(position) {
            return Ok(index);
        }
        index += 1;
    }
    Err(GetCursorColorError::ScreenCountIsZero)
}

/// A square area of a display to capture: its top-left corner, relative to
/// the display's own corner, and its size.
#[derive(Debug, Clone, Copy, PartialEq, Eq, Structural)]
pub struct CaptureRegion {
    pub x: i32,
    pub y: i32,
    pub width: u32,
    pub height: u32,
}

/// Whether the region around the cursor can be written down: both
/// coordinates of its corner in an `i32`, its side in a `u32`.
pub open spec fn region_fits(position: Position, screen: ScreenBounds, tex_size: usize) -> bool {
    &&& side_of(tex_size) <= u32::MAX
    &&& i32::MIN <= position.x - screen.x - half_of(tex_size) <= i32::MAX
    &&& i32::MIN <= position.y - screen.y - half_of(tex_size) <= i32::MAX
}

/// The square of side `side_of(tex_size)` centred on the cursor, relative to
/// the corner of the display.
pub open spec fn region_of(position: Position, screen: ScreenBounds, tex_size: usize) -> CaptureRegion {
    CaptureRegion {
        x: (position.x - screen.x - half_of(tex_size)) as i32,
        y: (position.y - screen.y - half_of(tex_size)) as i32,
        width: side_of(tex_size) as u32,
        height: side_of(tex_size) as u32,
    }
}

/// The square of side `side_of(tex_size)` centred on the cursor, relative to
/// the corner of the display. Fails with `UnableGetBuffer` when the region
/// cannot be written down in the coordinate types.
pub fn capture_region(position: Position, screen: &ScreenBounds, tex_size: usize) -> (r: Result<
    CaptureRegion,
    GetCursorColorError,
>)
    ensures
        r is Ok <==> region_fits(position, *screen, tex_size),
        r matches Ok(region) ==> region == region_of(position, *screen, tex_size),
        r matches Ok(region) ==> region.x + half_of(tex_size) == position.x - screen.x && region.y
            + half_of(tex_size) == position.y - screen.y && region.width == side_of(tex_size)
            && region.height == side_of(tex_size),
        r matches Err(e) ==> e == GetCursorColorError::UnableGetBuffer,
{
    let half: usize = tex_size / 2;
    if half > 0x7fff_ffff {
        return Err(GetCursorColorError::UnableGetBuffer);
    }
    let side: u32 = 2 * (half as u32) + 1;
    let x: i64 = position.x as i64 - screen.x as i64 - half as i64;
    let y: i64 = position.y as i64 - screen.y as i64 - half as i64;
    if x < -0x8000_0000 || x > 0x7fff_ffff || y < -0x8000_0000 || y > 0x7fff_ffff {
        return Err(GetCursorColorError::UnableGetBuffer);
    }
    Ok(CaptureRegion { x: x as i32, y: y as i32, width: side, height: side })
}

/// What has to be captured for one sample: which display, and which area
/// of it.
#[derive(Debug, Clone, Copy, PartialEq, Eq, Structural)]
pub struct CapturePlan {
    /// The index of the display that contains the cursor.
    pub screen: usize,
    /// The bounds of that display.
    pub bounds: ScreenBounds,
    /// The area to capture, relative to that display.
    pub region: CaptureRegion,
}

/// Decides what to capture for a cursor position: the square around the
/// cursor, on the first display that contains the cursor.
///
/// `screens` is the list of displays as the system reported it, or nothing
/// where it reported none. Fails with `UnableGetScreens` without a list,
/// with `ScreenCountIsZero` when no display of the list contains the cursor,
/// and with `UnableGetBuffer` when one does but the square cannot be written
/// down.
pub fn plan_capture(position: Position, screens: &Option<Vec<ScreenBounds>>, tex_size: usize) -> (r:
    Result<CapturePlan, GetCursorColorError>)
    ensures
        r matches Ok(plan) ==> screens matches Some(list) && is_first_cover(
            list@,
            position,
            plan.screen as int,
        ) && plan.bounds == list@[plan.screen as int] && region_fits(
            position,
            plan.bounds,
            tex_size,
        ) && plan.region == region_of(position, plan.bounds, tex_size),
        r matches Err(e) ==> match *screens {
            None => e == GetCursorColorError::UnableGetScreens,
            Some(list) => (e == GetCursorColorError::ScreenCountIsZero && no_cover(list@, position))
                || (e == GetCursorColorError::UnableGetBuffer && exists|i: int|
                #![auto]
                is_first_cover(list@, position, i) && !region_fits(position, list@[i], tex_size)),
        },
{
    let list = match screens {
        Some(list) => list,
        None => {
            return Err(GetCursorColorError::UnableGetScreens);
        },
    };
    let screen = match find_screen(list, position) {
        Ok(index) => index,
        Err(e) => {
            return Err(e);
        },
    };
    match capture_region(position, &list[screen], tex_size) {
        Ok(region) => Ok(CapturePlan { screen, bounds: list[screen], region }),
        Err(e) => Err(e),
    }
}

/// What one look at the screen yields: the picked colour and the colours of
/// the previewed square, row by row.
#[derive(Debug, PartialEq, Eq)]
pub struct ScreenData {
    pub cursor_pixel_color: Color,
    pub screen_pixel_colors: Vec<Color>,
}

/// Reduces a capture to the data that is shown.
///
/// The capture must be the square that `capture_region` asks for, with side
/// `side_of(screen_tex_size)`; any other image is answered with
/// `UnableGetBuffer`. The colours of the capture are handed on as they are,
/// and the picked colour is the mean of the averaging window around the
/// centre, the window being cut down to the capture where it is larger.
pub fn get_screen_data(shot: &Screenshot, screen_tex_size: usize, screen_sample_size: usize) -> (r:
    Result<ScreenData, GetCursorColorError>)
    ensures
        r is Ok <==> (shot.width() == side_of(screen_tex_size) && shot.height()
            == side_of(screen_tex_size)),
        r matches Ok(data) ==> data.screen_pixel_colors@ == shot@ && data.cursor_pixel_color
            == picked_color(shot@, screen_tex_size, screen_sample_size),
        r matches Err(e) ==> e == GetCursorColorError::UnableGetBuffer,
{
    let config = SampleConfig::clamped(screen_tex_size, screen_sample_size);
    let side: usize = config.preview_size();
    let size = shot.size();
    if size.0 as usize != side || size.1 as usize != side {
        return Err(GetCursorColorError::UnableGetBuffer);
    }
    let grid = shot.colors();
    proof {
        config.lemma_window_is_centred();
    }
    let color = average_color(&grid, &config);
    Ok(ScreenData { cursor_pixel_color: color, screen_pixel_colors: grid })
}

} // verus!
