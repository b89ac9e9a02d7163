use elapsed::text::same_text;
use elapsed::{Abbreviate, TimeFrame, UnrecognizedUnit};
use std::convert::TryFrom;

const ALL: [TimeFrame; 8] = [
    TimeFrame::MilliSecond,
    TimeFrame::Second,
    TimeFrame::Minute,
    TimeFrame::Hour,
    TimeFrame::Day,
    TimeFrame::Week,
    TimeFrame::Month,
    TimeFrame::Year,
];

#[test]
fn units_are_ordered_from_fine_to_coarse() {
    for pair in ALL.windows(2) {
        assert!(pair[0] < pair[1]);
        assert!(pair[0].ordinal() + 1 == pair[1].ordinal());
    }
    assert_eq!(TimeFrame::MilliSecond.ordinal(), 0);
    assert_eq!(TimeFrame::Year.ordinal(), 7);
}

#[test]
fn labels_are_long_plural_forms() {
    let expected = [
        "millisecond(s)",
        "second(s)",
        "minute(s)",
        "hour(s)",
        "day(s)",
        "week(s)",
        "month(s)",
        "year(s)",
    ];
    for (unit, want) in ALL.iter().zip(expected.iter()) {
        assert_eq!(unit.label(), *want);
        assert_eq!(String::from(*unit), *want);
    }
}

#[test]
fn abbreviations_are_as_listed() {
    let medium = ["ms", "sec", "min", "hr", "d", "w", "m", "y"];
    let short = ["ms", "s", "min", "h", "d", "w", "m", "y"];
    for i in 0..8 {
        assert_eq!(ALL[i].abbrev(), medium[i]);
        assert_eq!(ALL[i].abbrev_short(), short[i]);
    }
}

#[test]
fn initials_are_shared_by_the_three_m_units() {
    let initials = ['m', 's', 'm', 'h', 'd', 'w', 'm', 'y'];
    for i in 0..8 {
        assert_eq!(char::from(ALL[i]), initials[i]);
    }
}

#[test]
fn every_synonym_is_read() {
    let table: [(&str, TimeFrame); 20] = [
        ("millisecond", TimeFrame::MilliSecond),
        ("ms", TimeFrame::MilliSecond),
        ("second", TimeFrame::Second),
        ("sec", TimeFrame::Second),
        ("s", TimeFrame::Second),
        ("minute", TimeFrame::Minute),
        ("min", TimeFrame::Minute),
        ("hour", TimeFrame::Hour),
        ("hr", TimeFrame::Hour),
        ("h", TimeFrame::Hour),
        ("day", TimeFrame::Day),
        ("d", TimeFrame::Day),
        ("week", TimeFrame::Week),
        ("wk", TimeFrame::Week),
        ("w", TimeFrame::Week),
        ("month", TimeFrame::Month),
        ("mon", TimeFrame::Month),
        ("year", TimeFrame::Year),
        ("yr", TimeFrame::Year),
        ("y", TimeFrame::Year),
    ];
    for (text, unit) in table.iter() {
        assert_eq!(TimeFrame::parse_normalized(text), Ok(*unit));
        assert_eq!(TimeFrame::parse_long(text), Ok(*unit));
        assert_eq!(TimeFrame::try_from(*text), Ok(*unit));
    }
}

#[test]
fn parsing_ignores_case() {
    assert_eq!(TimeFrame::parse_long("YR"), Ok(TimeFrame::Year));
    assert_eq!(TimeFrame::parse_long("Minute"), Ok(TimeFrame::Minute));
    assert_eq!(TimeFrame::parse_long("MilliSecond"), Ok(TimeFrame::MilliSecond));
    // The Kelvin sign is a capital letter whose lowercase form is a plain `k`.
    assert_eq!(TimeFrame::parse_long("w\u{212A}"), Ok(TimeFrame::Week));
}

#[test]
fn parsing_ignores_surrounding_whitespace() {
    assert_eq!(TimeFrame::parse_long("  sec "), Ok(TimeFrame::Second));
    assert_eq!(TimeFrame::parse_long("\tHour\n"), Ok(TimeFrame::Hour));
    assert_eq!(TimeFrame::parse_long("\u{2003}day\u{2003}"), Ok(TimeFrame::Day));
    assert_eq!(TimeFrame::parse_long("d ay"), Err(UnrecognizedUnit));
}

#[test]
fn normalized_parsing_is_exact() {
    assert_eq!(TimeFrame::parse_normalized("YR"), Err(UnrecognizedUnit));
    assert_eq!(TimeFrame::parse_normalized(" yr"), Err(UnrecognizedUnit));
    assert_eq!(TimeFrame::parse_normalized("yr"), Ok(TimeFrame::Year));
}

#[test]
fn unknown_texts_are_rejected() {
    for text in ["", "m", "mo", "years", "seconds", "fortnight", "1", "yr."] {
        assert_eq!(TimeFrame::parse_long(text), Err(UnrecognizedUnit));
        assert_eq!(TimeFrame::try_from(text), Err(UnrecognizedUnit));
    }
}

#[test]
fn ambiguous_character_is_rejected() {
    assert_eq!(TimeFrame::parse_char('m'), Err(UnrecognizedUnit));
    assert_eq!(TimeFrame::parse_char('M'), Err(UnrecognizedUnit));
    assert_eq!(TimeFrame::try_from('m'), Err(UnrecognizedUnit));
    assert_eq!(TimeFrame::parse_char('y'), Ok(TimeFrame::Year));
    assert_eq!(TimeFrame::try_from('y'), Ok(TimeFrame::Year));
}

#[test]
fn unambiguous_characters_are_read_in_either_case() {
    let table = [
        ('s', TimeFrame::Second),
        ('h', TimeFrame::Hour),
        ('d', TimeFrame::Day),
        ('w', TimeFrame::Week),
        ('y', TimeFrame::Year),
    ];
    for (c, unit) in table.iter() {
        assert_eq!(TimeFrame::parse_char(*c), Ok(*unit));
        assert_eq!(TimeFrame::parse_char(c.to_ascii_uppercase()), Ok(*unit));
    }
    for c in ['x', ' ', '1', '\u{e9}', '\u{212A}'] {
        assert_eq!(TimeFrame::parse_char(c), Err(UnrecognizedUnit));
    }
}

#[test]
fn abbreviation_of_a_synonym_reads_back() {
    assert_eq!(TimeFrame::parse_long("yr").map(|u| u.abbrev()), Ok("y"));
    for unit in ALL.iter() {
        let read = TimeFrame::parse_long(unit.abbrev());
        if *unit == TimeFrame::Month {
            assert_eq!(read, Err(UnrecognizedUnit));
        } else {
            assert_eq!(read, Ok(*unit));
        }
    }
}

#[test]
fn texts_compare_by_their_characters() {
    assert!(same_text("", ""));
    assert!(same_text("week", "week"));
    assert!(!same_text("week", "weak"));
    assert!(!same_text("week", "weeks"));
    assert!(!same_text("\u{e9}", "e"));
    assert!(same_text("\u{e9}t\u{e9}", "\u{e9}t\u{e9}"));
}
