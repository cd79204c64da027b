use colorose::model::color::Color;
use colorose::model::sample_config::SampleConfig;
use colorose::service::average::{average_color, block_average};

fn grid(side: usize) -> Vec<Color> {
    (0..side * side).map(|i| Color::new(i as u8, (2 * i) as u8, 255 - i as u8)).collect()
}

#[test]
fn block_of_one_cell_is_that_cell() {
    let g = grid(3);
    assert_eq!(block_average(&g, 3, 0, 1), g[0]);
    assert_eq!(block_average(&g, 3, 2, 3), g[8]);
    assert_eq!(block_average(&g, 3, 1, 2), g[4]);
}

#[test]
fn block_of_the_whole_grid() {
    let g = grid(3);
    // Reds 0..=8 sum to 36, greens to 72, blues to 9 * 255 - 36.
    assert_eq!(block_average(&g, 3, 0, 3), Color::new(4, 8, 251));
}

#[test]
fn block_in_a_corner() {
    let g = grid(4);
    // Rows and columns 2..4: cells 10, 11, 14, 15.
    assert_eq!(block_average(&g, 4, 2, 4), Color::new(12, 25, 242));
}

#[test]
fn block_average_of_full_channels_does_not_overflow() {
    let g = vec![Color::new(255, 255, 255); 25 * 25];
    assert_eq!(block_average(&g, 25, 0, 25), Color::new(255, 255, 255));
}

#[test]
fn average_color_uses_the_window_of_the_configuration() {
    let g = grid(5);
    let centre = SampleConfig::clamped(5, 1);
    assert_eq!(average_color(&g, &centre), g[12]);
    let three = SampleConfig::clamped(5, 3);
    assert_eq!(average_color(&g, &three), Color::new(12, 24, 243));
    let all = SampleConfig::clamped(5, 77);
    assert_eq!(average_color(&g, &all), Color::new(12, 24, 243));
}
