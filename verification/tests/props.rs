use tomo::get_progress_bar;
use tomo::DisplayConfig;

fn complete_glyphs(s: &str) -> usize {
    s.chars().filter(|c| *c == '\u{25aa}').count()
}

#[test]
fn completed_blocks_never_decrease_with_elapsed_time() {
    let config = DisplayConfig::default();
    let mut previous: usize = 0;
    for elapsed in [-300, 0, 1, 149, 150, 151, 600, 900, 1200, 1499] {
        let bar = get_progress_bar(elapsed, &config);
        let done = complete_glyphs(&bar);
        assert!(done >= previous, "bar lost progress at {elapsed}s");
        previous = done;
    }
}

#[test]
fn negative_elapsed_time_renders_a_fully_pending_bar() {
    let config = DisplayConfig::default();
    assert_eq!(get_progress_bar(-300, &config), get_progress_bar(0, &config));
}

#[test]
fn empty_delimiter_adds_no_separator_characters() {
    let config = DisplayConfig::default();
    let bar = get_progress_bar(600, &config);
    // two pads of one character each, ten single-character glyphs
    assert_eq!(bar.chars().count(), 12);
}

#[test]
fn non_empty_delimiter_appears_once_between_each_pair_of_glyphs() {
    let default_config = DisplayConfig::default();
    let config = DisplayConfig { delimiter: String::from("--"), ..default_config };
    let bar = get_progress_bar(600, &config);
    assert_eq!(bar.matches("--").count(), 9);
}

#[test]
fn every_block_count_in_range_renders_that_many_pending_glyphs() {
    for num_blocks in 3..=100u8 {
        let default_config = DisplayConfig::default();
        let config = DisplayConfig { num_blocks, ..default_config };
        let bar = get_progress_bar(0, &config);
        let pending = bar.chars().filter(|c| *c == '\u{25ab}').count();
        assert_eq!(pending, num_blocks as usize);
        assert_eq!(complete_glyphs(&bar), 0);
    }
}

#[test]
fn finishing_is_exact_at_the_interval_for_every_block_count() {
    for num_blocks in 3..=100u8 {
        let default_config = DisplayConfig::default();
        let config = DisplayConfig { num_blocks, ..default_config };
        assert_eq!(get_progress_bar(1500, &config), " done ");
        assert_eq!(get_progress_bar(100_000, &config), " done ");
    }
}
