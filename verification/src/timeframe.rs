//! The units in which a distance in time is expressed.

use vstd::prelude::*;
use vstd::string::*;
use crate::text::{lowercased, same_text, to_lowercase, trim, trimmed};

verus! {

/// A unit of time, ordered from the finest to the coarsest.
#[derive(Debug, Clone, Copy, PartialEq, Eq, PartialOrd, Ord, Hash, Structural)]
pub enum TimeFrame {
    MilliSecond,
    Second,
    Minute,
    Hour,
    Day,
    Week,
    Month,
    Year,
}

/// The failure of both parsers: the input names no unit, or more than one.
#[derive(Debug, Clone, Copy, PartialEq, Eq, Structural)]
pub struct UnrecognizedUnit;

/// Short forms of a unit's name.
pub trait Abbreviate {
    /// The characters of [`Abbreviate::abbrev`].
    spec fn abbrev_text(&self) -> Seq<char>;

    /// The characters of [`Abbreviate::abbrev_short`].
    spec fn abbrev_short_text(&self) -> Seq<char>;

    /// A reasonably short form, such as `min` or `hr`.
    fn abbrev(&self) -> (s: &'static str)
        ensures
            s@ == self.abbrev_text(),
    ;

    /// The shortest form that names no other unit: one character wherever that is
    /// possible.
    fn abbrev_short(&self) -> (s: &'static str)
        ensures
            s@ == self.abbrev_short_text(),
    ;
}

impl Abbreviate for TimeFrame {
    open spec fn abbrev_text(&self) -> Seq<char> {
        match self {
            TimeFrame::MilliSecond => "ms"@,
            TimeFrame::Second => "sec"@,
            TimeFrame::Minute => "min"@,
            TimeFrame::Hour => "hr"@,
            TimeFrame::Day => "d"@,
            TimeFrame::Week => "w"@,
            TimeFrame::Month => "m"@,
            TimeFrame::Year => "y"@,
        }
    }

    open spec fn abbrev_short_text(&self) -> Seq<char> {
        match self {
            TimeFrame::MilliSecond => "ms"@,
            TimeFrame::Second => "s"@,
            TimeFrame::Minute => "min"@,
            TimeFrame::Hour => "h"@,
            TimeFrame::Day => "d"@,
            TimeFrame::Week => "w"@,
            TimeFrame::Month => "m"@,
            TimeFrame::Year => "y"@,
        }
    }

    fn abbrev(&self) -> (s: &'static str) {
        match self {
            TimeFrame::MilliSecond => "ms",
            TimeFrame::Second => "sec",
            TimeFrame::Minute => "min",
            TimeFrame::Hour => "hr",
            TimeFrame::Day => "d",
            TimeFrame::Week => "w",
            TimeFrame::Month => "m",
            TimeFrame::Year => "y",
        }
    }

    fn abbrev_short(&self) -> (s: &'static str) {
        match self {
            TimeFrame::MilliSecond => "ms",
            TimeFrame::Second => "s",
            TimeFrame::Minute => "min",
            TimeFrame::Hour => "h",
            TimeFrame::Day => "d",
            TimeFrame::Week => "w",
            TimeFrame::Month => "m",
            TimeFrame::Year => "y",
        }
    }
}

impl TimeFrame {
    /// The unit's place in the order, counted from the finest unit.
    pub open spec fn index(self) -> nat {
        match self {
            TimeFrame::MilliSecond => 0,
            TimeFrame::Second => 1,
            TimeFrame::Minute => 2,
            TimeFrame::Hour => 3,
            TimeFrame::Day => 4,
            TimeFrame::Week => 5,
            TimeFrame::Month => 6,
            TimeFrame::Year => 7,
        }
    }

    /// The unit's place in the order, counted from the finest unit.
    pub fn ordinal(self) -> (i: usize)
        ensures
            i == self.index(),
            i < 8,
    {
        match self {
            TimeFrame::MilliSecond => 0,
            TimeFrame::Second => 1,
            TimeFrame::Minute => 2,
            TimeFrame::Hour => 3,
            TimeFrame::Day => 4,
            TimeFrame::Week => 5,
            TimeFrame::Month => 6,
            TimeFrame::Year => 7,
        }
    }

    /// The unit at a place in the order; the coarsest unit beyond the last place.
    pub open spec fn at(i: int) -> TimeFrame {
        if i <= 0 {
            TimeFrame::MilliSecond
        } else if i == 1 {
            TimeFrame::Second
        } else if i == 2 {
            TimeFrame::Minute
        } else if i == 3 {
            TimeFrame::Hour
        } else if i == 4 {
            TimeFrame::Day
        } else if i == 5 {
            TimeFrame::Week
        } else if i == 6 {
            TimeFrame::Month
        } else {
            TimeFrame::Year
        }
    }

    /// The characters of [`TimeFrame::label`].
    pub open spec fn label_text(self) -> Seq<char> {
        match self {
            TimeFrame::MilliSecond => "millisecond(s)"@,
            TimeFrame::Second => "second(s)"@,
            TimeFrame::Minute => "minute(s)"@,
            TimeFrame::Hour => "hour(s)"@,
            TimeFrame::Day => "day(s)"@,
            TimeFrame::Week => "week(s)"@,
            TimeFrame::Month => "month(s)"@,
            TimeFrame::Year => "year(s)"@,
        }
    }

    /// The unit's long name, in a form that serves one and many: `hour(s)`.
    pub fn label(self) -> (s: String)
        ensures
            s@ == self.label_text(),
    {
        match self {
            TimeFrame::MilliSecond => String::from_str("millisecond(s)"),
            TimeFrame::Second => String::from_str("second(s)"),
            TimeFrame::Minute => String::from_str("minute(s)"),
            TimeFrame::Hour => String::from_str("hour(s)"),
            TimeFrame::Day => String::from_str("day(s)"),
            TimeFrame::Week => String::from_str("week(s)"),
            TimeFrame::Month => String::from_str("month(s)"),
            TimeFrame::Year => String::from_str("year(s)"),
        }
    }

    /// The unit's initial. Three units share `m`.
    pub open spec fn initial(self) -> char {
        match self {
            TimeFrame::MilliSecond => 'm',
            TimeFrame::Second => 's',
            TimeFrame::Minute => 'm',
            TimeFrame::Hour => 'h',
            TimeFrame::Day => 'd',
            TimeFrame::Week => 'w',
            TimeFrame::Month => 'm',
            TimeFrame::Year => 'y',
        }
    }

    /// The unit that a single character names, in either case. A character that is
    /// the initial of several units names none.
    pub open spec fn of_char(c: char) -> Option<TimeFrame> {
        if c == 's' || c == 'S' {
            Some(TimeFrame::Second)
        } else if c == 'h' || c == 'H' {
            Some(TimeFrame::Hour)
        } else if c == 'd' || c == 'D' {
            Some(TimeFrame::Day)
        } else if c == 'w' || c == 'W' {
            Some(TimeFrame::Week)
        } else if c == 'y' || c == 'Y' {
            Some(TimeFrame::Year)
        } else {
            None
        }
    }

    /// The unit that a lowercase text without surrounding whitespace names.
    pub open spec fn of_normalized(s: Seq<char>) -> Option<TimeFrame> {
        if s == "millisecond"@ || s == "ms"@ {
            Some(TimeFrame::MilliSecond)
        } else if s == "second"@ || s == "sec"@ || s == "s"@ {
            Some(TimeFrame::Second)
        } else if s == "minute"@ || s == "min"@ {
            Some(TimeFrame::Minute)
        } else if s == "hour"@ || s == "hr"@ || s == "h"@ {
            Some(TimeFrame::Hour)
        } else if s == "day"@ || s == "d"@ {
            Some(TimeFrame::Day)
        } else if s == "week"@ || s == "wk"@ || s == "w"@ {
            Some(TimeFrame::Week)
        } else if s == "month"@ || s == "mon"@ {
            Some(TimeFrame::Month)
        } else if s == "year"@ || s == "yr"@ || s == "y"@ {
            Some(TimeFrame::Year)
        } else {
            None
        }
    }

    /// The unit that a text names once it is put in lowercase and its surrounding
    /// whitespace is removed.
    pub open spec fn of_text(s: Seq<char>) -> Option<TimeFrame> {
        Self::of_normalized(trimmed(lowercased(s)))
    }

    /// What a parser returns for a unit that was or was not found.
    pub open spec fn found(unit: Option<TimeFrame>) -> Result<TimeFrame, UnrecognizedUnit> {
        match unit {
            Some(u) => Ok(u),
            None => Err(UnrecognizedUnit),
        }
    }

    /// Reads a unit from a single character, in either case. Only `s`, `h`, `d`,
    /// `w` and `y` are accepted: `m` could be a minute, a month or a millisecond.
    pub fn parse_char(value: char) -> (r: Result<TimeFrame, UnrecognizedUnit>)
        ensures
            r == Self::found(Self::of_char(value)),
    {
        match value {
            's' | 'S' => Ok(TimeFrame::Second),
            'h' | 'H' => Ok(TimeFrame::Hour),
            'd' | 'D' => Ok(TimeFrame::Day),
            'w' | 'W' => Ok(TimeFrame::Week),
            'y' | 'Y' => Ok(TimeFrame::Year),
            _ => Err(UnrecognizedUnit),
        }
    }

    /// Reads a unit from a text that is already in lowercase and has no
    /// surrounding whitespace.
    pub fn parse_normalized(value: &str) -> (r: Result<TimeFrame, UnrecognizedUnit>)
        ensures
            r == Self::found(Self::of_normalized(value@)),
    {
        if same_text(value, "millisecond") || same_text(value, "ms") {
            Ok(TimeFrame::MilliSecond)
        } else if same_text(value, "second") || same_text(value, "sec") || same_text(value, "s") {
            Ok(TimeFrame::Second)
        } else if same_text(value, "minute") || same_text(value, "min") {
            Ok(TimeFrame::Minute)
        } else if same_text(value, "hour") || same_text(value, "hr") || same_text(value, "h") {
            Ok(TimeFrame::Hour)
        } else if same_text(value, "day") || same_text(value, "d") {
            Ok(TimeFrame::Day)
        } else if same_text(value, "week") || same_text(value, "wk") || same_text(value, "w") {
            Ok(TimeFrame::Week)
        } else if same_text(value, "month") || same_text(value, "mon") {
            Ok(TimeFrame::Month)
        } else if same_text(value, "year") || same_text(value, "yr") || same_text(value, "y") {
            Ok(TimeFrame::Year)
        } else {
            Err(UnrecognizedUnit)
        }
    }

    /// Reads a unit from free text: case and surrounding whitespace do not matter.
    pub fn parse_long(value: &str) -> (r: Result<TimeFrame, UnrecognizedUnit>)
        ensures
            r == Self::found(Self::of_text(value@)),
    {
        let lower = to_lowercase(value);
        Self::parse_normalized(trim(lower.as_str()))
    }
}

/// A unit's abbreviation reads back as that unit, for every unit but the month,
/// whose abbreviation `m` names no unit. So the abbreviation of what a text was
/// read as is read as the same unit again.
pub proof fn abbreviation_reads_back(unit: TimeFrame)
    requires
        unit != TimeFrame::Month,
    ensures
        TimeFrame::of_normalized(unit.abbrev_text()) == Some(unit),
        forall|s: Seq<char>|
            TimeFrame::of_normalized(s) == Some(unit) ==> TimeFrame::of_normalized(
                (#[trigger] TimeFrame::of_normalized(s)).unwrap().abbrev_text(),
            ) == TimeFrame::of_normalized(s),
{
    reveal_strlit("millisecond");
    reveal_strlit("ms");
    reveal_strlit("second");
    reveal_strlit("sec");
    reveal_strlit("s");
    reveal_strlit("minute");
    reveal_strlit("min");
    reveal_strlit("hour");
    reveal_strlit("hr");
    reveal_strlit("h");
    reveal_strlit("day");
    reveal_strlit("d");
    reveal_strlit("week");
    reveal_strlit("wk");
    reveal_strlit("w");
    reveal_strlit("month");
    reveal_strlit("mon");
    reveal_strlit("year");
    reveal_strlit("yr");
    reveal_strlit("y");
    let a = unit.abbrev_text();
    match unit {
        TimeFrame::MilliSecond => {
            assert(a.len() == 2);
        },
        TimeFrame::Second => {
            assert(a.len() == 3);
        },
        TimeFrame::Minute => {
            assert(a.len() == 3 && a[0] == 'm' && "sec"@[0] == 's');
        },
        TimeFrame::Hour => {
            assert(a.len() == 2 && a[0] == 'h' && "ms"@[0] == 'm');
        },
        TimeFrame::Day => {
            assert(a.len() == 1 && a[0] == 'd' && "s"@[0] == 's' && "h"@[0] == 'h');
        },
        TimeFrame::Week => {
            assert(a.len() == 1 && a[0] == 'w' && "s"@[0] == 's' && "h"@[0] == 'h' && "d"@[0]
                == 'd');
        },
        TimeFrame::Month => {},
        TimeFrame::Year => {
            assert(a.len() == 1 && a[0] == 'y' && "s"@[0] == 's' && "h"@[0] == 'h' && "d"@[0]
                == 'd' && "w"@[0] == 'w');
        },
    }
    assert(TimeFrame::of_normalized(a) == Some(unit));
}

impl From<TimeFrame> for char {
    fn from(tf: TimeFrame) -> (c: char)
        ensures
            c == tf.initial(),
    {
        match tf {
            TimeFrame::MilliSecond => 'm',
            TimeFrame::Second => 's',
            TimeFrame::Minute => 'm',
            TimeFrame::Hour => 'h',
            TimeFrame::Day => 'd',
            TimeFrame::Week => 'w',
            TimeFrame::Month => 'm',
            TimeFrame::Year => 'y',
        }
    }
}

impl vstd::std_specs::convert::FromSpecImpl<TimeFrame> for char {
    open spec fn obeys_from_spec() -> bool {
        true
    }

    open spec fn from_spec(tf: TimeFrame) -> char {
        tf.initial()
    }
}

impl From<TimeFrame> for String {
    fn from(tf: TimeFrame) -> (s: String)
        ensures
            s@ == tf.label_text(),
    {
        tf.label()
    }
}

// A specification cannot write a `String`, only its characters: the conversion
// is described by the clause on `from` above, and `from_spec` is left open.
impl vstd::std_specs::convert::FromSpecImpl<TimeFrame> for String {
    open spec fn obeys_from_spec() -> bool {
        false
    }

    open spec fn from_spec(tf: TimeFrame) -> String {
        arbitrary()
    }
}

impl TryFrom<char> for TimeFrame {
    type Error = UnrecognizedUnit;

    fn try_from(value: char) -> (r: Result<TimeFrame, UnrecognizedUnit>) {
        Self::parse_char(value)
    }
}

impl vstd::std_specs::convert::TryFromSpecImpl<char> for TimeFrame {
    open spec fn obeys_try_from_spec() -> bool {
        true
    }

    open spec fn try_from_spec(value: char) -> Result<TimeFrame, UnrecognizedUnit> {
        Self::found(Self::of_char(value))
    }
}

impl TryFrom<&str> for TimeFrame {
    type Error = UnrecognizedUnit;

    fn try_from(value: &str) -> (r: Result<TimeFrame, UnrecognizedUnit>) {
        Self::parse_long(value)
    }
}

impl vstd::std_specs::convert::TryFromSpecImpl<&str> for TimeFrame {
    open spec fn obeys_try_from_spec() -> bool {
        true
    }

    open spec fn try_from_spec(value: &str) -> Result<TimeFrame, UnrecognizedUnit> {
        Self::found(Self::of_text(value@))
    }
}

} // verus!
