//! Merge semantics: precedence, idempotence, unset-fill-only, defaulting,
//! and the parsing of environment readings.

use aldm::{parse_bool, parse_level_filter, Config, EnvReading, LevelFilter};

fn partial_level(level: LevelFilter) -> Config {
    Config::from_fields(None, Some(level), None)
}

#[test]
fn precedence_higher_source_wins() {
    // Two sources define the same field; the one merged first wins,
    // whatever the later one says.
    let mut acc = Config::new();
    acc.config(partial_level(LevelFilter::Debug));
    acc.config(partial_level(LevelFilter::Warn));
    assert_eq!(acc.log_level_filter, Some(LevelFilter::Debug));

    let mut other_order = Config::new();
    other_order.config(partial_level(LevelFilter::Warn));
    other_order.config(partial_level(LevelFilter::Debug));
    assert_eq!(other_order.log_level_filter, Some(LevelFilter::Warn));
}

#[test]
fn merge_is_idempotent() {
    let partial = Config::from_fields(
        Some(String::from("/var/log/here")),
        Some(LevelFilter::Trace),
        None,
    );
    let mut once = Config::new();
    once.config(partial.clone());
    let mut twice = Config::new();
    twice.config(partial.clone());
    twice.config(partial);
    assert_eq!(once.log_dirpath, twice.log_dirpath);
    assert_eq!(once.log_level_filter, twice.log_level_filter);
    assert_eq!(once.no_color, twice.no_color);
    assert_eq!(once.is_loaded(), twice.is_loaded());
}

#[test]
fn merge_fills_only_unset_fields() {
    let mut acc = Config::new();
    acc.config(Config::from_fields(None, Some(LevelFilter::Error), Some(true)));
    acc.config(Config::from_fields(
        Some(String::from("/elsewhere")),
        Some(LevelFilter::Trace),
        Some(false),
    ));
    // The already-set fields kept their values; only the unset one filled.
    assert_eq!(acc.log_level_filter, Some(LevelFilter::Error));
    assert_eq!(acc.no_color, Some(true));
    assert_eq!(acc.log_dirpath, Some(String::from("/elsewhere")));
}

#[test]
fn merge_with_no_change_does_not_mark_loaded() {
    let mut acc = Config::new();
    acc.config(Config::from_fields(None, None, None));
    assert!(!acc.is_loaded());
    acc.config(partial_level(LevelFilter::Info));
    assert!(acc.is_loaded());
}

#[test]
fn optional_config_absent_is_no_op() {
    let mut acc = Config::new();
    acc.optional_config(None);
    assert!(!acc.is_loaded());
    assert_eq!(acc.log_level_filter, None);
    acc.optional_config(Some(partial_level(LevelFilter::Off)));
    assert_eq!(acc.log_level_filter, Some(LevelFilter::Off));
}

#[test]
fn ensure_loaded_substitutes_default_wholesale() {
    let mut acc = Config::new();
    acc.ensure_loaded();
    let default = Config::default();
    assert_eq!(acc.log_dirpath, default.log_dirpath);
    assert_eq!(acc.log_level_filter, default.log_level_filter);
    assert_eq!(acc.no_color, default.no_color);
    assert!(acc.is_loaded());
    assert_eq!(default.log_level_filter, Some(LevelFilter::Info));
    assert_eq!(default.no_color, Some(false));
    assert_eq!(default.log_dirpath, None);
}

#[test]
fn ensure_loaded_keeps_partially_loaded_accumulator() {
    let mut acc = Config::new();
    acc.config(Config::from_fields(None, None, Some(true)));
    acc.ensure_loaded();
    // One contributed field is enough: no wholesale defaulting.
    assert_eq!(acc.no_color, Some(true));
    assert_eq!(acc.log_level_filter, None);
    assert_eq!(acc.log_dirpath, None);
}

#[test]
fn set_loaded_marks_the_accumulator() {
    let mut acc = Config::new();
    assert!(!acc.is_loaded());
    acc.set_loaded();
    assert!(acc.is_loaded());
    acc.ensure_loaded();
    // Marked loaded, so defaulting does not replace the fields.
    assert_eq!(acc.log_level_filter, None);
}

#[test]
fn env_reading_parses_each_variable_independently() {
    let mut acc = Config::new();
    let env = EnvReading {
        log_dirpath: Some(String::from("/var/log/mine")),
        log_level_filter: Some(String::from("debug")),
        no_color: Some(String::from("true")),
    };
    acc.env(&env);
    assert_eq!(acc.log_dirpath, Some(String::from("/var/log/mine")));
    assert_eq!(acc.log_level_filter, Some(LevelFilter::Debug));
    assert_eq!(acc.no_color, Some(true));
    assert!(acc.is_loaded());
}

#[test]
fn env_reading_unparsable_variable_contributes_nothing() {
    let mut acc = Config::new();
    let env = EnvReading {
        log_dirpath: None,
        log_level_filter: Some(String::from("chatty")),
        no_color: Some(String::from("yes")),
    };
    acc.env(&env);
    assert_eq!(acc.log_level_filter, None);
    assert_eq!(acc.no_color, None);
    assert!(!acc.is_loaded());
}

#[test]
fn env_reading_unset_contributes_nothing() {
    let mut acc = Config::new();
    acc.env(&EnvReading::unset());
    assert!(!acc.is_loaded());
}

#[test]
fn level_filter_parses_all_names_ascii_case_ignored() {
    assert_eq!(parse_level_filter("off"), Some(LevelFilter::Off));
    assert_eq!(parse_level_filter("ERROR"), Some(LevelFilter::Error));
    assert_eq!(parse_level_filter("Warn"), Some(LevelFilter::Warn));
    assert_eq!(parse_level_filter("info"), Some(LevelFilter::Info));
    assert_eq!(parse_level_filter("DeBuG"), Some(LevelFilter::Debug));
    assert_eq!(parse_level_filter("trace"), Some(LevelFilter::Trace));
    assert_eq!(parse_level_filter("verbose"), None);
    assert_eq!(parse_level_filter(""), None);
}

#[test]
fn bool_parses_exactly_true_and_false() {
    assert_eq!(parse_bool("true"), Some(true));
    assert_eq!(parse_bool("false"), Some(false));
    assert_eq!(parse_bool("True"), None);
    assert_eq!(parse_bool("1"), None);
    assert_eq!(parse_bool(""), None);
}
