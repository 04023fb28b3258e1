use tomo::get_progress_bar;
use tomo::DisplayConfig;

#[test]
fn lib_get_progress_works_with_defaults() {
    // GIVEN
    let config = DisplayConfig::default();

    // WHEN
    let got = get_progress_bar(10 * 60, &config);

    // THEN
    let expected = String::from(" \u{25aa}\u{25aa}\u{25aa}\u{25aa}\u{25ab}\u{25ab}\u{25ab}\u{25ab}\u{25ab}\u{25ab} ");

    assert_eq!(got, expected);
}

#[test]
fn lib_get_progress_respects_custom_padding() {
    // GIVEN
    let default_config = DisplayConfig::default();
    let config = DisplayConfig {
        left_pad: String::from("["),
        right_pad: String::from("]"),
        ..default_config
    };

    // WHEN
    let got = get_progress_bar(0, &config);

    // THEN
    let expected = String::from("[\u{25ab}\u{25ab}\u{25ab}\u{25ab}\u{25ab}\u{25ab}\u{25ab}\u{25ab}\u{25ab}\u{25ab}]");

    assert_eq!(got, expected);
}

#[test]
fn lib_get_progress_respects_custom_blocks() {
    // GIVEN
    let default_config = DisplayConfig::default();
    let config = DisplayConfig {
        pending_block: String::from("-"),
        complete_block: String::from("+"),
        ..default_config
    };

    // WHEN
    let got = get_progress_bar(18 * 60, &config);

    // THEN
    let expected = String::from(" +++++++--- ");

    assert_eq!(got, expected);
}

#[test]
fn lib_get_progress_respects_num_blocks() {
    // GIVEN
    let default_config = DisplayConfig::default();
    let config = DisplayConfig { num_blocks: 5, ..default_config };

    // WHEN
    let got = get_progress_bar(10 * 60, &config);

    // THEN
    let expected = String::from(" \u{25aa}\u{25aa}\u{25ab}\u{25ab}\u{25ab} ");

    assert_eq!(got, expected);
}

#[test]
fn lib_get_progress_respects_custom_delimiter() {
    // GIVEN
    let default_config = DisplayConfig::default();
    let config = DisplayConfig { delimiter: String::from(" "), ..default_config };

    // WHEN
    let got = get_progress_bar(10 * 60, &config);

    // THEN
    let expected = String::from(" \u{25aa} \u{25aa} \u{25aa} \u{25aa} \u{25ab} \u{25ab} \u{25ab} \u{25ab} \u{25ab} \u{25ab} ");

    assert_eq!(got, expected);
}

#[test]
fn lib_get_progress_shows_empty_progress_bar() {
    // GIVEN
    let config = DisplayConfig::default();

    // WHEN
    let got_at_start = get_progress_bar(0, &config);
    let got_at_min_one = get_progress_bar(60, &config);

    // THEN
    let expected = String::from(" \u{25ab}\u{25ab}\u{25ab}\u{25ab}\u{25ab}\u{25ab}\u{25ab}\u{25ab}\u{25ab}\u{25ab} ");

    assert_eq!(got_at_start, expected);
    assert_eq!(got_at_min_one, expected);
}

#[test]
fn lib_get_progress_shows_finished_msg_when_timer_is_finished() {
    // GIVEN
    let default_config = DisplayConfig::default();
    let config = DisplayConfig {
        left_pad: String::from("[["),
        right_pad: String::from("]]"),
        finished_msg: String::from("fertig"),
        ..default_config
    };

    // WHEN
    let got_at_min_25 = get_progress_bar(25 * 60, &config);
    let got_at_min_26 = get_progress_bar(26 * 60, &config);

    // THEN
    let expected = String::from("[[fertig]]");

    assert_eq!(got_at_min_25, expected);
    assert_eq!(got_at_min_26, expected);
}

#[test]
fn track_get_progress_works_with_defaults() {
    // GIVEN
    let config = tomo::config::DisplayConfig::default();

    // WHEN
    let got = tomo::track::get_progress_bar(10 * 60, &config);

    // THEN
    let expected = String::from(" \u{25aa}\u{25aa}\u{25aa}\u{25aa}\u{25ab}\u{25ab}\u{25ab}\u{25ab}\u{25ab}\u{25ab} ");

    assert_eq!(got, expected);
}

#[test]
fn track_get_progress_respects_custom_padding() {
    // GIVEN
    let default_config = tomo::config::DisplayConfig::default();
    let config = tomo::config::DisplayConfig {
        left_pad: String::from("["),
        right_pad: String::from("]"),
        ..default_config
    };

    // WHEN
    let got = tomo::track::get_progress_bar(0, &config);

    // THEN
    let expected = String::from("[\u{25ab}\u{25ab}\u{25ab}\u{25ab}\u{25ab}\u{25ab}\u{25ab}\u{25ab}\u{25ab}\u{25ab}]");

    assert_eq!(got, expected);
}

#[test]
fn track_get_progress_respects_custom_blocks() {
    // GIVEN
    let default_config = tomo::config::DisplayConfig::default();
    let config = tomo::config::DisplayConfig {
        pending_block: String::from("-"),
        complete_block: String::from("+"),
        ..default_config
    };

    // WHEN
    let got = tomo::track::get_progress_bar(18 * 60, &config);

    // THEN
    let expected = String::from(" +++++++--- ");

    assert_eq!(got, expected);
}

#[test]
fn track_get_progress_respects_num_blocks() {
    // GIVEN
    let default_config = tomo::config::DisplayConfig::default();
    let config = tomo::config::DisplayConfig { num_blocks: 5, ..default_config };

    // WHEN
    let got = tomo::track::get_progress_bar(10 * 60, &config);

    // THEN
    let expected = String::from(" \u{25aa}\u{25aa}\u{25ab}\u{25ab}\u{25ab} ");

    assert_eq!(got, expected);
}

#[test]
fn track_get_progress_respects_custom_delimiter() {
    // GIVEN
    let default_config = tomo::config::DisplayConfig::default();
    let config = tomo::config::DisplayConfig { delimiter: String::from(" "), ..default_config };

    // WHEN
    let got = tomo::track::get_progress_bar(10 * 60, &config);

    // THEN
    let expected = String::from(" \u{25aa} \u{25aa} \u{25aa} \u{25aa} \u{25ab} \u{25ab} \u{25ab} \u{25ab} \u{25ab} \u{25ab} ");

    assert_eq!(got, expected);
}

#[test]
fn track_get_progress_shows_empty_progress_bar() {
    // GIVEN
    let config = tomo::config::DisplayConfig::default();

    // WHEN
    let got_at_start = tomo::track::get_progress_bar(0, &config);
    let got_at_min_one = tomo::track::get_progress_bar(60, &config);

    // THEN
    let expected = String::from(" \u{25ab}\u{25ab}\u{25ab}\u{25ab}\u{25ab}\u{25ab}\u{25ab}\u{25ab}\u{25ab}\u{25ab} ");

    assert_eq!(got_at_start, expected);
    assert_eq!(got_at_min_one, expected);
}

#[test]
fn track_get_progress_shows_finished_msg_when_timer_is_finished() {
    // GIVEN
    let default_config = tomo::config::DisplayConfig::default();
    let config = tomo::config::DisplayConfig {
        left_pad: String::from("[["),
        right_pad: String::from("]]"),
        finished_msg: String::from("fertig"),
        ..default_config
    };

    // WHEN
    let got_at_min_25 = tomo::track::get_progress_bar(25 * 60, &config);
    let got_at_min_26 = tomo::track::get_progress_bar(26 * 60, &config);

    // THEN
    let expected = String::from("[[fertig]]");

    assert_eq!(got_at_min_25, expected);
    assert_eq!(got_at_min_26, expected);
}
