use particl_indexer::logger::{log_line, log_line_at, TIMESTAMP_LIMIT};

#[test]
fn a_line_shows_time_level_and_message() {
    assert_eq!(
        log_line("2018-02-14T00:28:07Z", "\u{1b}[31mERROR\u{1b}[0m", "Database is unreachable"),
        "[ 2018-02-14 00:28:07 \u{1b}[31mERROR\u{1b}[0m ] Database is unreachable"
    );
}

#[test]
fn a_level_of_thirteen_bytes_is_padded() {
    let info = "\u{1b}[32mINFO\u{1b}[0m";
    assert_eq!(info.len(), 13);
    assert_eq!(
        log_line("2018-02-14T00:28:07Z", info, "Starting up ..."),
        "[ 2018-02-14 00:28:07 \u{1b}[32mINFO\u{1b}[0m  ] Starting up ..."
    );
    assert_eq!(log_line("", "thirteen char", ""), "[  thirteen char  ] ");
}

#[test]
fn a_level_of_another_length_is_left_alone() {
    assert_eq!(log_line("12:00", "INFO", "m"), "[ 12:00 INFO ] m");
    assert_eq!(log_line("12:00", "", "m"), "[ 12:00  ] m");
    assert_eq!(log_line("12:00", "äöüäöü1", "m"), "[ 12:00 äöüäöü1  ] m");
    assert_eq!(log_line("12:00", "thirteen chär", "m"), "[ 12:00 thirteen chär ] m");
}

#[test]
fn every_marker_of_the_timestamp_is_replaced() {
    assert_eq!(log_line("TZTZ", "L", "TZ"), "[    L ] TZ");
}

#[test]
fn a_line_is_stamped_with_its_moment() {
    assert_eq!(log_line_at(0, "INFO", "m"), Some("[ 1970-01-01 00:00:00 INFO ] m".to_string()));
    assert_eq!(
        log_line_at(1518568087, "WARN", "Retrying"),
        Some("[ 2018-02-14 00:28:07 WARN ] Retrying".to_string())
    );
    assert_eq!(log_line_at(1793218320, "E", ""), Some("[ 2026-10-28 20:12:00 E ] ".to_string()));
}

#[test]
fn the_last_moment_that_can_be_stamped() {
    assert_eq!(TIMESTAMP_LIMIT, 253402300800);
    assert_eq!(
        log_line_at(TIMESTAMP_LIMIT - 1, "L", "m"),
        Some("[ 9999-12-31 23:59:59 L ] m".to_string())
    );
    assert_eq!(log_line_at(TIMESTAMP_LIMIT, "L", "m"), None);
    assert_eq!(log_line_at(u64::MAX, "L", "m"), None);
}
