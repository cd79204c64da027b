use colorose::model::color::Color;
use colorose::model::position::Position;
use colorose::service::cursor_color::{
    capture_region, find_screen, get_mouse_position, get_screen_data, plan_capture, CaptureRegion,
    GetCursorColorError, ScreenBounds,
};
use colorose::service::screenshot::Screenshot;

/// A square image of the given side whose pixel number i (row by row) has the channels that
/// `channels(i)` gives.
fn square(side: u32, channels: impl Fn(u32) -> (u8, u8, u8)) -> Screenshot {
    let mut samples = Vec::new();
    for i in 0..side * side {
        let (r, g, b) = channels(i);
        samples.extend_from_slice(&[r, g, b, 255]);
    }
    Screenshot::new(side, side, samples).unwrap()
}

#[test]
fn error_messages() {
    assert_eq!(
        GetCursorColorError::UnableGetMousePosition.message(),
        "unable to get mouse position"
    );
    assert_eq!(GetCursorColorError::UnableGetScreens.message(), "unable to get screens");
    assert_eq!(GetCursorColorError::UnableGetBuffer.message(), "unable to get screen buffer");
    assert_eq!(GetCursorColorError::ScreenCountIsZero.message(), "screen count is zero");
}

#[test]
fn reported_cursor_becomes_a_position() {
    assert_eq!(get_mouse_position(Some((12, -7))), Ok(Position::new(12, -7)));
}

#[test]
fn missing_cursor_is_an_error() {
    assert_eq!(get_mouse_position(None), Err(GetCursorColorError::UnableGetMousePosition));
}

#[test]
fn screen_contains_its_left_and_top_edge_but_not_its_right_and_bottom() {
    let screen = ScreenBounds::new(100, 50, 1920, 1080);
    assert!(screen.contains(Position::new(100, 50)));
    assert!(screen.contains(Position::new(2019, 1129)));
    assert!(!screen.contains(Position::new(99, 50)));
    assert!(!screen.contains(Position::new(100, 49)));
    assert!(!screen.contains(Position::new(2020, 1129)));
    assert!(!screen.contains(Position::new(2019, 1130)));
}

#[test]
fn screen_at_the_end_of_the_coordinate_range() {
    let screen = ScreenBounds::new(i32::MAX - 10, i32::MAX - 10, i32::MAX, i32::MAX);
    assert!(screen.contains(Position::new(i32::MAX, i32::MAX)));
    let empty = ScreenBounds::new(0, 0, 0, 0);
    assert!(!empty.contains(Position::new(0, 0)));
    let inverted = ScreenBounds::new(0, 0, -5, -5);
    assert!(!inverted.contains(Position::new(-1, -1)));
}

#[test]
fn first_covering_screen_is_found() {
    let screens = vec![
        ScreenBounds::new(0, 0, 1920, 1080),
        ScreenBounds::new(1920, 0, 1280, 1024),
        ScreenBounds::new(1000, 0, 3000, 2000),
    ];
    assert_eq!(find_screen(&screens, Position::new(500, 500)), Ok(0));
    assert_eq!(find_screen(&screens, Position::new(1920, 10)), Ok(1));
    assert_eq!(find_screen(&screens, Position::new(1500, 500)), Ok(0));
    assert_eq!(find_screen(&screens, Position::new(1500, 1500)), Ok(2));
}

#[test]
fn cursor_on_no_screen_is_an_error() {
    let screens = vec![ScreenBounds::new(0, 0, 1920, 1080)];
    assert_eq!(
        find_screen(&screens, Position::new(-1, 5)),
        Err(GetCursorColorError::ScreenCountIsZero)
    );
    assert_eq!(
        find_screen(&Vec::new(), Position::new(0, 0)),
        Err(GetCursorColorError::ScreenCountIsZero)
    );
}

#[test]
fn capture_region_for_default_preview() {
    let screen = ScreenBounds::new(0, 0, 1920, 1080);
    assert_eq!(
        capture_region(Position::new(500, 500), &screen, 21),
        Ok(CaptureRegion { x: 490, y: 490, width: 21, height: 21 })
    );
}

#[test]
fn capture_region_is_relative_to_the_screen() {
    let screen = ScreenBounds::new(1920, -200, 1280, 1024);
    assert_eq!(
        capture_region(Position::new(2000, 0), &screen, 5),
        Ok(CaptureRegion { x: 78, y: 198, width: 5, height: 5 })
    );
}

#[test]
fn capture_region_may_start_before_the_screen() {
    let screen = ScreenBounds::new(0, 0, 1920, 1080);
    assert_eq!(
        capture_region(Position::new(3, 0), &screen, 21),
        Ok(CaptureRegion { x: -7, y: -10, width: 21, height: 21 })
    );
}

#[test]
fn capture_region_of_one_pixel() {
    let screen = ScreenBounds::new(10, 20, 100, 100);
    assert_eq!(
        capture_region(Position::new(15, 25), &screen, 1),
        Ok(CaptureRegion { x: 5, y: 5, width: 1, height: 1 })
    );
    assert_eq!(
        capture_region(Position::new(15, 25), &screen, 0),
        Ok(CaptureRegion { x: 5, y: 5, width: 1, height: 1 })
    );
}

#[test]
fn capture_region_makes_even_sizes_odd() {
    let screen = ScreenBounds::new(0, 0, 1920, 1080);
    assert_eq!(
        capture_region(Position::new(500, 500), &screen, 20),
        Ok(CaptureRegion { x: 490, y: 490, width: 21, height: 21 })
    );
}

#[test]
fn capture_region_that_cannot_be_written_down() {
    let screen = ScreenBounds::new(i32::MAX, 0, 10, 10);
    assert_eq!(
        capture_region(Position::new(i32::MIN, 0), &screen, 21),
        Err(GetCursorColorError::UnableGetBuffer)
    );
    let screen = ScreenBounds::new(0, 0, 1920, 1080);
    assert_eq!(
        capture_region(Position::new(0, 0), &screen, usize::MAX),
        Err(GetCursorColorError::UnableGetBuffer)
    );
}

#[test]
fn capture_region_with_the_largest_side() {
    let screen = ScreenBounds::new(0, 0, 1920, 1080);
    let r = capture_region(Position::new(0, 0), &screen, u32::MAX as usize);
    assert_eq!(
        r,
        Ok(CaptureRegion { x: -i32::MAX, y: -i32::MAX, width: u32::MAX, height: u32::MAX })
    );
}

#[test]
fn plan_names_screen_and_region() {
    let screens = Some(vec![
        ScreenBounds::new(0, 0, 1920, 1080),
        ScreenBounds::new(1920, 0, 1280, 1024),
    ]);
    let plan = plan_capture(Position::new(2000, 100), &screens, 21).unwrap();
    assert_eq!(plan.screen, 1);
    assert_eq!(plan.bounds, ScreenBounds::new(1920, 0, 1280, 1024));
    assert_eq!(plan.region, CaptureRegion { x: 70, y: 90, width: 21, height: 21 });
}

#[test]
fn plan_without_a_screen_list() {
    assert_eq!(
        plan_capture(Position::new(0, 0), &None, 21),
        Err(GetCursorColorError::UnableGetScreens)
    );
}

#[test]
fn plan_for_a_cursor_on_no_screen() {
    let screens = Some(vec![ScreenBounds::new(0, 0, 1920, 1080)]);
    assert_eq!(
        plan_capture(Position::new(5000, 0), &screens, 21),
        Err(GetCursorColorError::ScreenCountIsZero)
    );
    assert_eq!(
        plan_capture(Position::new(0, 0), &Some(Vec::new()), 21),
        Err(GetCursorColorError::ScreenCountIsZero)
    );
}

#[test]
fn plan_for_a_region_that_cannot_be_written_down() {
    let screens = Some(vec![ScreenBounds::new(0, 0, 1920, 1080)]);
    assert_eq!(
        plan_capture(Position::new(5, 5), &screens, usize::MAX),
        Err(GetCursorColorError::UnableGetBuffer)
    );
}

#[test]
fn screen_data_averages_the_window() {
    // Nine samples whose channels sum to 30, 60 and 90.
    let reds = [0u8, 1, 2, 3, 4, 5, 6, 7, 2];
    let greens = [5u8, 5, 5, 5, 10, 10, 10, 5, 5];
    let blues = [10u8; 9];
    let shot = square(3, |i| (reds[i as usize], greens[i as usize], blues[i as usize]));
    let data = get_screen_data(&shot, 3, 3).unwrap();
    assert_eq!(data.cursor_pixel_color, Color::new(3, 6, 10));
    assert_eq!(data.screen_pixel_colors.len(), 9);
    assert_eq!(data.screen_pixel_colors[7], Color::new(7, 5, 10));
}

#[test]
fn screen_data_with_a_window_of_one_is_the_centre_pixel() {
    let shot = square(5, |i| (i as u8, 2 * i as u8, 100 + i as u8));
    let data = get_screen_data(&shot, 5, 1).unwrap();
    assert_eq!(data.cursor_pixel_color, Color::new(12, 24, 112));
    assert_eq!(data.screen_pixel_colors, shot.colors());
}

#[test]
fn screen_data_window_inside_a_larger_preview() {
    // 5 x 5, window 3: rows and columns 1..4, the cells 6 7 8, 11 12 13, 16 17 18.
    let shot = square(5, |i| (i as u8, 0, 10 * (i % 5) as u8));
    let data = get_screen_data(&shot, 5, 3).unwrap();
    assert_eq!(data.cursor_pixel_color, Color::new(12, 0, 20));
}

#[test]
fn screen_data_rounds_the_average_down() {
    // Eight of nine samples are 1: the sum 8 divided by 9 is 0.
    let shot = square(3, |i| if i == 4 { (0, 255, 2) } else { (1, 255, 1) });
    let data = get_screen_data(&shot, 3, 3).unwrap();
    assert_eq!(data.cursor_pixel_color, Color::new(0, 255, 1));
}

#[test]
fn screen_data_cuts_the_window_down_to_the_preview() {
    let shot = square(3, |i| (10 * i as u8, 7, 0));
    let wide = get_screen_data(&shot, 3, 21).unwrap();
    let full = get_screen_data(&shot, 3, 3).unwrap();
    assert_eq!(wide.cursor_pixel_color, full.cursor_pixel_color);
    assert_eq!(wide.cursor_pixel_color, Color::new(40, 7, 0));
}

#[test]
fn screen_data_treats_even_sizes_as_the_next_odd_ones() {
    let shot = square(3, |i| (i as u8, i as u8, i as u8));
    let even = get_screen_data(&shot, 2, 2).unwrap();
    assert_eq!(even.cursor_pixel_color, Color::new(4, 4, 4));
    let none = get_screen_data(&shot, 2, 0).unwrap();
    assert_eq!(none.cursor_pixel_color, Color::new(4, 4, 4));
}

#[test]
fn screen_data_of_a_capture_of_the_wrong_size() {
    let shot = square(3, |_| (0, 0, 0));
    assert_eq!(get_screen_data(&shot, 5, 1), Err(GetCursorColorError::UnableGetBuffer));
    assert_eq!(get_screen_data(&shot, 1, 1), Err(GetCursorColorError::UnableGetBuffer));
    assert_eq!(get_screen_data(&shot, usize::MAX, 1), Err(GetCursorColorError::UnableGetBuffer));
    let flat = Screenshot::new(3, 1, vec![0u8; 12]).unwrap();
    assert_eq!(get_screen_data(&flat, 3, 1), Err(GetCursorColorError::UnableGetBuffer));
}

#[test]
fn screen_data_of_the_default_preview() {
    let shot = square(21, |i| ((i % 251) as u8, (i / 21) as u8, (i % 21) as u8));
    let data = get_screen_data(&shot, 21, 1).unwrap();
    // The centre is cell 10 of row 10.
    assert_eq!(data.cursor_pixel_color, Color::new(220, 10, 10));
    assert_eq!(data.screen_pixel_colors.len(), 441);
}
