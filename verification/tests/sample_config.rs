use colorose::model::sample_config::SampleConfig;

fn sizes(preview: usize, window: usize) -> (usize, usize) {
    let config = SampleConfig::clamped(preview, window);
    (config.preview_size(), config.averaging_window())
}

#[test]
fn valid_sizes_are_kept() {
    assert_eq!(sizes(21, 1), (21, 1));
    assert_eq!(sizes(25, 25), (25, 25));
    assert_eq!(sizes(1, 1), (1, 1));
}

#[test]
fn even_sizes_become_the_next_odd_number() {
    assert_eq!(sizes(20, 4), (21, 5));
    assert_eq!(sizes(2, 2), (3, 3));
}

#[test]
fn zero_becomes_one() {
    assert_eq!(sizes(0, 0), (1, 1));
    assert_eq!(sizes(5, 0), (5, 1));
}

#[test]
fn window_larger_than_preview_is_cut_down_to_it() {
    assert_eq!(sizes(3, 9), (3, 3));
    assert_eq!(sizes(21, 23), (21, 21));
    assert_eq!(sizes(21, 22), (21, 21));
    assert_eq!(sizes(0, usize::MAX), (1, 1));
}

#[test]
fn largest_sizes_do_not_overflow() {
    assert_eq!(sizes(usize::MAX, usize::MAX), (usize::MAX, usize::MAX));
    assert_eq!(sizes(usize::MAX - 1, 3), (usize::MAX, 3));
}

#[test]
fn window_sits_in_the_middle_of_the_preview() {
    let config = SampleConfig::clamped(21, 1);
    assert_eq!((config.window_start(), config.window_end()), (10, 11));
    let config = SampleConfig::clamped(21, 5);
    assert_eq!((config.window_start(), config.window_end()), (8, 13));
    let config = SampleConfig::clamped(21, 21);
    assert_eq!((config.window_start(), config.window_end()), (0, 21));
    let config = SampleConfig::clamped(3, 99);
    assert_eq!((config.window_start(), config.window_end()), (0, 3));
}
