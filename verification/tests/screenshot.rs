use colorose::model::color::Color;
use colorose::service::cursor_color::GetCursorColorError;
use colorose::service::screenshot::Screenshot;

/// A 3 x 2 image whose pixel in column x of row y is (10 x + y, 100 + 10 x + y, 200 + x + y, 255).
fn sample() -> Screenshot {
    let mut samples = Vec::new();
    for y in 0..2u8 {
        for x in 0..3u8 {
            samples.push(10 * x + y);
            samples.push(100 + 10 * x + y);
            samples.push(200 + x + y);
            samples.push(255);
        }
    }
    Screenshot::new(3, 2, samples).unwrap()
}

#[test]
fn screenshot_keeps_its_dimensions() {
    assert_eq!(sample().size(), (3, 2));
}

#[test]
fn screenshot_of_nothing_is_accepted() {
    let empty = Screenshot::new(0, 0, Vec::new()).unwrap();
    assert_eq!(empty.size(), (0, 0));
    assert_eq!(empty.colors(), Vec::new());
    assert_eq!(empty.pixel(0, 0), None);
}

#[test]
fn short_buffer_is_refused() {
    let r = Screenshot::new(3, 2, vec![0u8; 23]);
    assert!(matches!(r, Err(GetCursorColorError::UnableGetBuffer)));
    let r = Screenshot::new(1, 1, vec![1, 2, 3]);
    assert!(matches!(r, Err(GetCursorColorError::UnableGetBuffer)));
}

#[test]
fn huge_dimensions_are_refused() {
    let r = Screenshot::new(u32::MAX, u32::MAX, vec![0u8; 16]);
    assert!(matches!(r, Err(GetCursorColorError::UnableGetBuffer)));
}

#[test]
fn longer_buffer_is_accepted_and_its_tail_ignored() {
    let shot = Screenshot::new(1, 1, vec![1, 2, 3, 4, 5, 6, 7, 8]).unwrap();
    assert_eq!(shot.size(), (1, 1));
    assert_eq!(shot.colors(), vec![Color::new(1, 2, 3)]);
}

#[test]
fn pixel_reads_column_then_row() {
    let shot = sample();
    assert_eq!(shot.pixel(0, 0), Some(Color::new(0, 100, 200)));
    assert_eq!(shot.pixel(2, 0), Some(Color::new(20, 120, 202)));
    assert_eq!(shot.pixel(0, 1), Some(Color::new(1, 101, 201)));
    assert_eq!(shot.pixel(2, 1), Some(Color::new(21, 121, 203)));
}

#[test]
fn pixel_outside_of_the_image_is_none() {
    let shot = sample();
    assert_eq!(shot.pixel(3, 0), None);
    assert_eq!(shot.pixel(0, 2), None);
    assert_eq!(shot.pixel(u32::MAX, u32::MAX), None);
}

#[test]
fn colors_come_row_by_row_without_alpha() {
    let shot = sample();
    assert_eq!(
        shot.colors(),
        vec![
            Color::new(0, 100, 200),
            Color::new(10, 110, 201),
            Color::new(20, 120, 202),
            Color::new(1, 101, 201),
            Color::new(11, 111, 202),
            Color::new(21, 121, 203),
        ]
    );
}

#[test]
fn capture_that_yielded_nothing_is_an_error() {
    assert!(matches!(
        Screenshot::from_capture(None),
        Err(GetCursorColorError::UnableGetBuffer)
    ));
}

#[test]
fn capture_that_yielded_samples_becomes_a_screenshot() {
    let shot = Screenshot::from_capture(Some((2, 1, vec![1, 2, 3, 255, 4, 5, 6, 255]))).unwrap();
    assert_eq!(shot.size(), (2, 1));
    assert_eq!(shot.colors(), vec![Color::new(1, 2, 3), Color::new(4, 5, 6)]);
}

#[test]
fn capture_that_yielded_too_few_samples_is_an_error() {
    assert!(matches!(
        Screenshot::from_capture(Some((2, 2, vec![0u8; 15]))),
        Err(GetCursorColorError::UnableGetBuffer)
    ));
}
