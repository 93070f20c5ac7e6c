use std::cmp::Ordering;

use speck_logger::LogLevel;

fn all_levels() -> [LogLevel; 5] {
    [
        LogLevel::ALL,
        LogLevel::DEBUG,
        LogLevel::INFO,
        LogLevel::WARNING,
        LogLevel::ERROR,
    ]
}

#[test]
fn ranks_follow_declaration_order() {
    assert_eq!(LogLevel::ALL.rank_value(), 0);
    assert_eq!(LogLevel::DEBUG.rank_value(), 10);
    assert_eq!(LogLevel::INFO.rank_value(), 20);
    assert_eq!(LogLevel::WARNING.rank_value(), 30);
    assert_eq!(LogLevel::ERROR.rank_value(), 40);
}

#[test]
fn compare_is_total_and_consistent_with_ranks() {
    let levels = all_levels();
    for &a in levels.iter() {
        for &b in levels.iter() {
            let expected = if a.rank_value() < b.rank_value() {
                Ordering::Less
            } else if a.rank_value() == b.rank_value() {
                Ordering::Equal
            } else {
                Ordering::Greater
            };
            assert_eq!(a.partial_cmp(&b), Some(expected));
            assert_eq!(a < b, a.rank_value() < b.rank_value());
            assert_eq!(a <= b, a.rank_value() <= b.rank_value());
            assert_eq!(a == b, a.rank_value() == b.rank_value());
        }
    }
    assert!(LogLevel::ALL < LogLevel::DEBUG);
    assert!(LogLevel::DEBUG < LogLevel::INFO);
    assert!(LogLevel::INFO < LogLevel::WARNING);
    assert!(LogLevel::WARNING < LogLevel::ERROR);
}

#[test]
fn from_string_is_case_insensitive() {
    assert_eq!(LogLevel::from_string("debug"), LogLevel::DEBUG);
    assert_eq!(LogLevel::from_string("Debug"), LogLevel::DEBUG);
    assert_eq!(LogLevel::from_string("DEBUG"), LogLevel::DEBUG);
    assert_eq!(LogLevel::from_string("warning"), LogLevel::WARNING);
    assert_eq!(LogLevel::from_string("Warning"), LogLevel::WARNING);
    assert_eq!(LogLevel::from_string("WARNING"), LogLevel::WARNING);
    assert_eq!(LogLevel::from_string("error"), LogLevel::ERROR);
    assert_eq!(LogLevel::from_string("ErRoR"), LogLevel::ERROR);
    assert_eq!(LogLevel::from_string("ERROR"), LogLevel::ERROR);
}

#[test]
fn from_string_info_falls_through_to_all() {
    assert_eq!(LogLevel::from_string("info"), LogLevel::ALL);
    assert_eq!(LogLevel::from_string("Info"), LogLevel::ALL);
    assert_eq!(LogLevel::from_string("INFO"), LogLevel::ALL);
}

#[test]
fn from_string_matches_the_misspelt_pattern() {
    assert_eq!(LogLevel::from_string("onfo"), LogLevel::INFO);
    assert_eq!(LogLevel::from_string("ONFO"), LogLevel::INFO);
}

#[test]
fn from_string_uppercases_dotless_i() {
    // dotless i (U+0131) uppercases to ASCII `I`
    assert_eq!(LogLevel::from_string("warn\u{131}ng"), LogLevel::WARNING);
    assert_eq!(LogLevel::from_string("WARN\u{131}NG"), LogLevel::WARNING);
    // its uppercase form matches the same pattern
    assert_eq!(
        LogLevel::from_string(&"warn\u{131}ng".to_uppercase()),
        LogLevel::WARNING
    );
}

#[test]
fn from_string_other_non_ascii_yields_all() {
    // long s (U+017F) uppercases to `S`, which no pattern holds
    assert_eq!(LogLevel::from_string("\u{17f}"), LogLevel::ALL);
    // sharp s (U+00DF) uppercases to `SS`: two characters, no pattern holds them
    assert_eq!(LogLevel::from_string("\u{df}"), LogLevel::ALL);
    assert_eq!(LogLevel::from_string("d\u{e9}bug"), LogLevel::ALL);
}

#[test]
fn from_string_unknown_yields_all() {
    assert_eq!(LogLevel::from_string("bogus"), LogLevel::ALL);
    assert_eq!(LogLevel::from_string(""), LogLevel::ALL);
    assert_eq!(LogLevel::from_string("all"), LogLevel::ALL);
    assert_eq!(LogLevel::from_string("warn"), LogLevel::ALL);
    assert_eq!(LogLevel::from_string("DEBUG "), LogLevel::ALL);
}

#[test]
fn display_returns_canonical_names() {
    assert_eq!(LogLevel::ALL.display(), "ALL");
    assert_eq!(LogLevel::DEBUG.display(), "DEBUG");
    assert_eq!(LogLevel::INFO.display(), "INFO");
    assert_eq!(LogLevel::WARNING.display(), "WARNING");
    assert_eq!(LogLevel::ERROR.display(), "ERROR");
}

#[test]
fn from_string_of_display_round_trips_except_info() {
    assert_eq!(
        LogLevel::from_string(LogLevel::ALL.display().as_str()),
        LogLevel::ALL
    );
    assert_eq!(
        LogLevel::from_string(LogLevel::DEBUG.display().as_str()),
        LogLevel::DEBUG
    );
    assert_eq!(
        LogLevel::from_string(LogLevel::WARNING.display().as_str()),
        LogLevel::WARNING
    );
    assert_eq!(
        LogLevel::from_string(LogLevel::ERROR.display().as_str()),
        LogLevel::ERROR
    );
    assert_eq!(
        LogLevel::from_string(LogLevel::INFO.display().as_str()),
        LogLevel::ALL
    );
}
