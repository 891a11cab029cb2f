//! The log-level filter that configuration sources may set, and its parser.

use vstd::prelude::*;

use crate::text::{eq_ignore_ascii_case, seq_case_eq};

verus! {

/// A verbosity threshold for the logging sinks.  It is one of the values a
/// configuration source may contribute.
#[derive(Copy, Clone, Debug, PartialEq, Eq, Structural)]
pub enum LevelFilter {
    Off,
    Error,
    Warn,
    Info,
    Debug,
    Trace,
}

/// What parsing a level filter accepts: the six level names, ASCII case
/// ignored; anything else is rejected.
pub open spec fn spec_parse_level_filter(s: Seq<char>) -> Option<LevelFilter> {
    if seq_case_eq(s, "off"@) {
        Some(LevelFilter::Off)
    } else if seq_case_eq(s, "error"@) {
        Some(LevelFilter::Error)
    } else if seq_case_eq(s, "warn"@) {
        Some(LevelFilter::Warn)
    } else if seq_case_eq(s, "info"@) {
        Some(LevelFilter::Info)
    } else if seq_case_eq(s, "debug"@) {
        Some(LevelFilter::Debug)
    } else if seq_case_eq(s, "trace"@) {
        Some(LevelFilter::Trace)
    } else {
        None
    }
}

/// Parses a level filter from its name, ASCII case ignored.
pub fn parse_level_filter(s: &str) -> (r: Option<LevelFilter>)
    ensures
        r == spec_parse_level_filter(s@),
{
    if eq_ignore_ascii_case(s, "off") {
        Some(LevelFilter::Off)
    } else if eq_ignore_ascii_case(s, "error") {
        Some(LevelFilter::Error)
    } else if eq_ignore_ascii_case(s, "warn") {
        Some(LevelFilter::Warn)
    } else if eq_ignore_ascii_case(s, "info") {
        Some(LevelFilter::Info)
    } else if eq_ignore_ascii_case(s, "debug") {
        Some(LevelFilter::Debug)
    } else if eq_ignore_ascii_case(s, "trace") {
        Some(LevelFilter::Trace)
    } else {
        None
    }
}

} // verus!
