//! Where the floating tip window goes: beside the cursor, on the side that
//! is away from the near edges of the display, and moved there smoothly.

use crate::model::color::Color;
use crate::model::position::Position;
use crate::service::cursor_color::{GetCursorColorError, ScreenBounds};
use crate::service::screenshot::Screenshot;
use vstd::prelude::*;

verus! {

/// How close to the right or bottom edge of its display the cursor must be
/// for the tip to flip to the other side, in pixels.
pub const EDGE_LIMIT: i32 = 250;

/// The horizontal offset of the tip when it opens to the right of the cursor.
pub const OFFSET_RIGHT: i32 = 60;

/// The horizontal offset of the tip when it opens to the left of the cursor.
pub const OFFSET_LEFT: i32 = -250;

/// The vertical offset of the tip when it opens below the cursor.
pub const OFFSET_DOWN: i32 = 30;

/// The vertical offset of the tip when it opens above the cursor.
pub const OFFSET_UP: i32 = -140;

/// Whether the cursor is within the limit of the right edge of the display.
pub open spec fn near_right(position: Position, screen: ScreenBounds) -> bool {
    position.x > screen.right() - EDGE_LIMIT
}

/// Whether the cursor is within the limit of the bottom edge of the display.
pub open spec fn near_bottom(position: Position, screen: ScreenBounds) -> bool {
    position.y > screen.bottom() - EDGE_LIMIT
}

/// The offset of the tip from the cursor: to the left of it near the right
/// edge and to the right of it elsewhere, above it near the bottom edge and
/// below it elsewhere.
pub open spec fn offset_of(position: Position, screen: ScreenBounds) -> Position {
    Position {
        x: if near_right(position, screen) {
            OFFSET_LEFT
        } else {
            OFFSET_RIGHT
        },
        y: if near_bottom(position, screen) {
            OFFSET_UP
        } else {
            OFFSET_DOWN
        },
    }
}

/// The offset of the tip from the cursor.
pub fn tip_offset(position: Position, screen: &ScreenBounds) -> (offset: Position)
    ensures
        offset == offset_of(position, *screen),
{
    let right: i64 = screen.x as i64 + screen.width as i64;
    let bottom: i64 = screen.y as i64 + screen.height as i64;
    let x: i32 = if position.x as i64 > right - EDGE_LIMIT as i64 {
        OFFSET_LEFT
    } else {
        OFFSET_RIGHT
    };
    let y: i32 = if position.y as i64 > bottom - EDGE_LIMIT as i64 {
        OFFSET_UP
    } else {
        OFFSET_DOWN
    };
    Position { x, y }
}

/// Whether a number can be a coordinate.
pub open spec fn is_coordinate(value: int) -> bool {
    i32::MIN <= value <= i32::MAX
}

/// The place the tip is heading for: the cursor moved by the offset, where
/// that is a point that can be written down.
pub open spec fn target_of(position: Position, screen: ScreenBounds) -> Option<Position> {
    let x = position.x + offset_of(position, screen).x;
    let y = position.y + offset_of(position, screen).y;
    if is_coordinate(x) && is_coordinate(y) {
        Some(Position { x: x as i32, y: y as i32 })
    } else {
        None
    }
}

/// The place the tip is heading for, or `None` where the cursor is so close
/// to the end of the coordinate range that the place has no coordinates.
pub fn tip_target(position: Position, screen: &ScreenBounds) -> (target: Option<Position>)
    ensures
        target == target_of(position, *screen),
{
    let offset = tip_offset(position, screen);
    let x: i64 = position.x as i64 + offset.x as i64;
    let y: i64 = position.y as i64 + offset.y as i64;
    if x < -0x8000_0000 || x > 0x7fff_ffff || y < -0x8000_0000 || y > 0x7fff_ffff {
        None
    } else {
        Some(Position { x: x as i32, y: y as i32 })
    }
}

/// The tip opens away from the edges and beside the cursor.
///
/// For a cursor on its display, the place the tip is heading for is at
/// least 190 pixels left of the right edge and 141 pixels above the bottom
/// edge of the display, and the cursor is either at least 60 pixels to the
/// left of it or at least 250 pixels to the right of it. A tip window of up
/// to that size therefore never crosses these two edges and never covers the
/// cursor.
pub proof fn lemma_target_keeps_clear(position: Position, screen: ScreenBounds)
    requires
        screen.covers(position),
    ensures
        target_of(position, screen) matches Some(target) ==> {
            &&& target.x + 190 <= screen.right()
            &&& target.y + 141 <= screen.bottom()
            &&& (position.x + 60 <= target.x || target.x + 250 <= position.x)
            &&& (position.y + 30 <= target.y || target.y + 140 <= position.y)
        },
{
}

/// One step of a coordinate towards its target: seven parts of the old
/// value and three parts of the target, the fraction cut off towards zero.
pub open spec fn damped(old_value: int, target: int) -> int {
    let mix = 7 * old_value + 3 * target;
    if mix >= 0 {
        mix / 10
    } else {
        -((-mix) / 10)
    }
}

/// One step of a coordinate towards its target.
pub fn damp(old_value: i32, target: i32) -> (next: i32)
    ensures
        next == damped(old_value as int, target as int),
{
    let mix: i64 = 7 * (old_value as i64) + 3 * (target as i64);
    if mix >= 0 {
        ((mix as u64) / 10) as i32
    } else {
        let rest: u64 = ((-mix) as u64) / 10;
        (-(rest as i64)) as i32
    }
}

/// A step never leaves the range between the old value and the target, and
/// a coordinate that has arrived stays.
pub proof fn lemma_damped_stays_between(old_value: int, target: int)
    ensures
        old_value <= target ==> old_value <= damped(old_value, target) <= target,
        target <= old_value ==> target <= damped(old_value, target) <= old_value,
        damped(target, target) == target,
{
}

/// A step closes at least three tenths of the distance to the target, but
/// for the fraction that is cut off.
pub proof fn lemma_damped_closes_in(old_value: int, target: int)
    ensures
        old_value <= target ==> 10 * (target - damped(old_value, target)) <= 7 * (target
            - old_value) + 9,
        target <= old_value ==> 10 * (damped(old_value, target) - target) <= 7 * (old_value
            - target) + 9,
{
}

/// The tip after one step from `old_tip` towards its target. Where the
/// target has no coordinates the tip stays.
pub open spec fn next_tip_of(position: Position, screen: ScreenBounds, old_tip: Position) -> Position {
    match target_of(position, screen) {
        Some(target) => Position {
            x: damped(old_tip.x as int, target.x as int) as i32,
            y: damped(old_tip.y as int, target.y as int) as i32,
        },
        None => old_tip,
    }
}

/// The tip after one step from `old_tip` towards its target.
pub fn next_tip_position(position: Position, screen: &ScreenBounds, old_tip: Position) -> (tip:
    Position)
    ensures
        tip == next_tip_of(position, *screen, old_tip),
{
    match tip_target(position, screen) {
        Some(target) => Position { x: damp(old_tip.x, target.x), y: damp(old_tip.y, target.y) },
        None => old_tip,
    }
}

/// The colour under the cursor and the next place of the tip.
///
/// `shot` is the capture of the single pixel under the cursor, `screen` the
/// display that contains the cursor. The colour is the first pixel of the
/// capture; a capture without pixels is answered with `UnableGetBuffer`.
pub fn get_pixel_color_and_tip_position(
    shot: &Screenshot,
    position: Position,
    screen: &ScreenBounds,
    old_tip_position: Position,
) -> (r: Result<(Color, Position), GetCursorColorError>)
    ensures
        r is Ok <==> (shot.width() > 0 && shot.height() > 0),
        r matches Ok(found) ==> found.0 == shot@[0] && found.1 == next_tip_of(
            position,
            *screen,
            old_tip_position,
        ),
        r matches Err(e) ==> e == GetCursorColorError::UnableGetBuffer,
{
    match shot.pixel(0, 0) {
        Some(color) => Ok((color, next_tip_position(position, screen, old_tip_position))),
        None => Err(GetCursorColorError::UnableGetBuffer),
    }
}

} // verus!
