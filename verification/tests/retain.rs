use tokio_console::duration::{DurationError, TimeSpan};
use tokio_console::retain::RetainFor;
use tokio_console::scan::is_readable;

fn span(secs: u64, nanos: u32) -> Option<Result<RetainFor, DurationError>> {
    Some(Ok(RetainFor(Some(TimeSpan { secs, nanos }))))
}

fn read(s: &str) -> Option<Result<RetainFor, DurationError>> {
    RetainFor::checked_from_str(s)
}

#[test]
fn none_in_any_case() {
    for s in ["none", "None", "NONE", "nOnE"] {
        assert_eq!(RetainFor::from_str(s), Ok(RetainFor(None)));
    }
}

#[test]
fn default_retention() {
    assert_eq!(RetainFor::from_str("6s"), Ok(RetainFor(Some(TimeSpan { secs: 6, nanos: 0 }))));
}

#[test]
fn combined_spans() {
    assert_eq!(read("5days 2min 2s"), span(5 * 86_400 + 122, 0));
    assert_eq!(read("2h 37min"), span(9_420, 0));
    assert_eq!(read("1s500ms600ms"), span(2, 100_000_000));
    assert_eq!(read(" 1 2 s"), span(12, 0));
    assert_eq!(read(" 5 days\t2 min2s"), span(5 * 86_400 + 122, 0));
    assert_eq!(read("18446744072709551614ns 1ms"), span(18_446_744_072, 710_551_614));
}

#[test]
fn spans_add_up() {
    assert_eq!(read("1h"), span(3_600, 0));
    assert_eq!(read("2min 3ms"), span(120, 3_000_000));
    for gap in ["", " ", "\u{2003}\n"] {
        assert_eq!(read(&format!("1h{}2min 3ms", gap)), span(3_720, 3_000_000));
    }
}

#[test]
fn all_suffixes() {
    for unit in ["nanos", "nsec", "ns"] {
        assert_eq!(read(&format!("3{}", unit)), span(0, 3));
    }
    for unit in ["usec", "us"] {
        assert_eq!(read(&format!("3{}", unit)), span(0, 3_000));
    }
    for unit in ["millis", "msec", "ms"] {
        assert_eq!(read(&format!("3{}", unit)), span(0, 3_000_000));
    }
    let seconds: [(&[&str], u64); 7] = [
        (&["seconds", "second", "secs", "sec", "s"], 1),
        (&["minutes", "minute", "mins", "min", "m"], 60),
        (&["hours", "hour", "hrs", "hr", "h"], 3_600),
        (&["days", "day", "d"], 86_400),
        (&["weeks", "week", "w"], 604_800),
        (&["months", "month", "M"], 2_630_016),
        (&["years", "year", "y"], 31_557_600),
    ];
    for (units, length) in seconds {
        for unit in units {
            assert_eq!(read(&format!("3{}", unit)), span(3 * length, 0));
        }
    }
}

#[test]
fn errors() {
    assert_eq!(read(""), Some(Err(DurationError::Empty)));
    assert_eq!(read("5s x"), Some(Err(DurationError::NumberExpected(3))));
    assert_eq!(read("1.5s"), Some(Err(DurationError::InvalidCharacter(1))));
    assert_eq!(read("18446744073709551617s"), Some(Err(DurationError::NumberOverflow)));
    assert_eq!(
        read("7 fortnights"),
        Some(Err(DurationError::UnknownUnit {
            start: 2,
            end: 12,
            unit: "fortnights".to_string(),
            value: 7,
        }))
    );
    assert_eq!(read("5ns 18446744073709551615ns"), Some(Err(DurationError::NumberOverflow)));
    assert_eq!(read("none 5s"), Some(Err(DurationError::NumberExpected(0))));
    assert_eq!(read(" none"), Some(Err(DurationError::NumberExpected(0))));
    assert_eq!(read(" \t\n"), Some(Err(DurationError::Empty)));
    assert_eq!(
        read("10"),
        Some(Err(DurationError::UnknownUnit { start: 2, end: 2, unit: String::new(), value: 10 }))
    );
    assert_eq!(
        read("5S"),
        Some(Err(DurationError::UnknownUnit { start: 1, end: 2, unit: "S".to_string(), value: 5 }))
    );
}

#[test]
fn white_space_behind_the_spans() {
    assert_eq!(read("5s "), span(5, 0));
    assert_eq!(read("1m 5s\u{3000}\n"), span(65, 0));
}

#[test]
fn lengths_that_overflow() {
    for s in [
        "18446744073709551616s",
        "18446744073709551614s 2000ms",
        "18446744073709551615s 1001ms",
        "307445734561825861min",
        "18446744073709551616ns",
        "18446744073709552ms",
        "584554531000y",
    ] {
        assert!(is_readable(s));
        assert_eq!(read(s), Some(Err(DurationError::NumberOverflow)));
    }
    assert_eq!(read("18446744073709551615ns"), span(18_446_744_073, 709_551_615));
    assert_eq!(read("1000000000ns"), span(1, 0));
    assert_eq!(read("18446744073709551614s 1000ms"), span(u64::MAX, 0));
}

#[test]
fn largest_spans() {
    assert_eq!(read("18446744073709551615s"), span(u64::MAX, 0));
    assert_eq!(read("18446744073709551615s 999ms"), span(u64::MAX, 999_000_000));
    assert!(is_readable("18446744073709551615s"));
    assert!(is_readable("99999999999999999999999999999999999999999999999999y"));
    assert!(!is_readable("18446744073709551615s 1000ms"));
    assert!(!is_readable("18446744073709551614s1s500ms500ms"));
    assert_eq!(read("18446744073709551615s 1000ms"), None);
    assert_eq!(read("18446744073709551614s1s500ms500ms"), None);
}

#[test]
fn retains_what_was_read() {
    let time = TimeSpan { secs: 1, nanos: 2 };
    assert_eq!(RetainFor::from_duration(Ok(time)), Ok(RetainFor(Some(time))));
    assert_eq!(
        RetainFor::from_duration(Err(DurationError::Empty)),
        Err(DurationError::Empty)
    );
}
