//! Lengths of time, written as spans such as `5days 2min 2s`.

use vstd::prelude::*;

verus! {

/// A length of time.
#[derive(Clone, Copy, Debug, PartialEq, Eq, Structural)]
pub struct TimeSpan {
    /// Whole seconds.
    pub secs: u64,
    /// The nanoseconds beyond the whole seconds.
    pub nanos: u32,
}

/// Why a text is not a length of time. Offsets count bytes.
#[derive(Debug, PartialEq, Eq)]
pub enum DurationError {
    /// The character at this offset is none of digit, ASCII letter and white space.
    InvalidCharacter(usize),
    /// A number should stand at this offset.
    NumberExpected(usize),
    /// What follows a number is no unit of time.
    UnknownUnit {
        /// Where the unit starts.
        start: usize,
        /// Where the unit ends.
        end: usize,
        /// The unit.
        unit: String,
        /// The number before the unit.
        value: u64,
    },
    /// The number is too large.
    NumberOverflow,
    /// There is nothing but white space.
    Empty,
}

/// What a [`DurationError`] says.
pub enum DurationErrorModel {
    InvalidCharacter(usize),
    NumberExpected(usize),
    UnknownUnit { start: usize, end: usize, unit: Seq<char>, value: u64 },
    NumberOverflow,
    Empty,
}

impl View for DurationError {
    type V = DurationErrorModel;

    open spec fn view(&self) -> DurationErrorModel {
        match *self {
            DurationError::InvalidCharacter(at) => DurationErrorModel::InvalidCharacter(at),
            DurationError::NumberExpected(at) => DurationErrorModel::NumberExpected(at),
            DurationError::UnknownUnit { start, end, unit, value } => {
                DurationErrorModel::UnknownUnit { start, end, unit: unit@, value }
            },
            DurationError::NumberOverflow => DurationErrorModel::NumberOverflow,
            DurationError::Empty => DurationErrorModel::Empty,
        }
    }
}

impl TimeSpan {
    /// The nanoseconds make less than a second.
    pub open spec fn wf(self) -> bool {
        self.nanos < 1_000_000_000
    }

    /// The whole length in nanoseconds.
    pub open spec fn total(self) -> nat {
        (self.secs * 1_000_000_000 + self.nanos) as nat
    }
}

/// What `humantime` reads from a text: seconds and nanoseconds, or an error.
pub uninterp spec fn humantime_duration(s: Seq<char>) -> Result<(u64, u32), DurationErrorModel>;

/// The outcome of reading a length of time, as plain values.
pub open spec fn outcome(r: Result<TimeSpan, DurationError>) -> Result<
    (u64, u32),
    DurationErrorModel,
> {
    match r {
        Ok(span) => Ok((span.secs, span.nanos)),
        Err(error) => Err(error@),
    }
}

/// A unit of time in nanoseconds; 0 for what is no unit.
pub open spec fn unit_length(unit: Seq<char>) -> nat {
    if unit == "nanos"@ || unit == "nsec"@ || unit == "ns"@ {
        1
    } else if unit == "usec"@ || unit == "us"@ {
        1_000
    } else if unit == "millis"@ || unit == "msec"@ || unit == "ms"@ {
        1_000_000
    } else if unit == "seconds"@ || unit == "second"@ || unit == "secs"@ || unit == "sec"@ || unit
        == "s"@ {
        1_000_000_000
    } else if unit == "minutes"@ || unit == "minute"@ || unit == "mins"@ || unit == "min"@ || unit
        == "m"@ {
        60_000_000_000
    } else if unit == "hours"@ || unit == "hour"@ || unit == "hrs"@ || unit == "hr"@ || unit
        == "h"@ {
        3_600_000_000_000
    } else if unit == "days"@ || unit == "day"@ || unit == "d"@ {
        86_400_000_000_000
    } else if unit == "weeks"@ || unit == "week"@ || unit == "w"@ {
        604_800_000_000_000
    } else if unit == "months"@ || unit == "month"@ || unit == "M"@ {
        2_630_016_000_000_000
    } else if unit == "years"@ || unit == "year"@ || unit == "y"@ {
        31_557_600_000_000_000
    } else {
        0
    }
}

/// Whether `c` is an ASCII digit.
pub open spec fn digit(c: char) -> bool {
    '0' <= c <= '9'
}

/// Whether `c` is an ASCII letter.
pub open spec fn letter(c: char) -> bool {
    'a' <= c <= 'z' || 'A' <= c <= 'Z'
}

/// The number that decimal digits make, white space among them aside.
pub open spec fn number(digits: Seq<char>) -> nat
    decreases digits.len(),
{
    if digits.len() == 0 {
        0
    } else if digit(digits.last()) {
        10 * number(digits.drop_last()) + (digits.last() as nat - '0' as nat) as nat
    } else {
        number(digits.drop_last())
    }
}

/// A number as it is written: a digit, then digits and white space.
pub open spec fn written_number(digits: Seq<char>) -> bool {
    &&& digits.len() > 0
    &&& digit(digits[0])
    &&& forall|i: int|
        0 <= i < digits.len() ==> digit(#[trigger] digits[i]) || crate::text::white_space(digits[i])
}

/// A time span as it is written: a number, then a unit.
pub struct WrittenSpan {
    /// White space before the number.
    pub gap: Seq<char>,
    /// The number, in decimal digits.
    pub digits: Seq<char>,
    /// The unit.
    pub unit: Seq<char>,
}

impl WrittenSpan {
    /// The whole text of the span.
    pub open spec fn text(self) -> Seq<char> {
        self.gap + self.digits + self.unit
    }

    /// The span in nanoseconds.
    pub open spec fn length(self) -> nat {
        number(self.digits) * unit_length(self.unit)
    }

    /// There is a number, and a unit of time.
    pub open spec fn wf(self) -> bool {
        &&& crate::text::blank(self.gap)
        &&& written_number(self.digits)
        &&& unit_length(self.unit) > 0
    }
}

/// The text of a list of spans.
pub open spec fn list_text(list: Seq<WrittenSpan>) -> Seq<char>
    decreases list.len(),
{
    if list.len() == 0 {
        Seq::empty()
    } else {
        list_text(list.drop_last()) + list.last().text()
    }
}

/// The length of a list of spans in nanoseconds.
pub open spec fn list_length(list: Seq<WrittenSpan>) -> nat
    decreases list.len(),
{
    if list.len() == 0 {
        0
    } else {
        list_length(list.drop_last()) + list.last().length()
    }
}

/// `s` is a list of one or more time spans such as `5days 2min 2s`, with white space or nothing
/// behind it.
pub open spec fn written(s: Seq<char>, list: Seq<WrittenSpan>, tail: Seq<char>) -> bool {
    &&& list.len() > 0
    &&& forall|i: int| 0 <= i < list.len() ==> (#[trigger] list[i]).wf()
    &&& crate::text::blank(tail)
    &&& s == list_text(list) + tail
}

/// The seconds and nanoseconds `sum`, and `count` units of `unit` nanoseconds more. Nanoseconds
/// turn into seconds once they make more than a second. Neither may come to more than `u64::MAX` on
/// the way.
pub open spec fn added(sum: (nat, nat), count: nat, unit: nat) -> Option<(nat, nat)> {
    let secs = if unit < 1_000_000_000 {
        sum.0
    } else {
        sum.0 + count * (unit / 1_000_000_000)
    };
    let nanos = if unit < 1_000_000_000 {
        sum.1 + count * unit
    } else {
        sum.1
    };
    let (carried, left) = if nanos > 1_000_000_000 {
        (nanos / 1_000_000_000, nanos % 1_000_000_000)
    } else {
        (0, nanos)
    };
    if nanos <= u64::MAX && secs + carried <= u64::MAX {
        Some((secs + carried, left))
    } else {
        None
    }
}

/// The seconds and nanoseconds that a list of spans makes, added up one by one.
pub open spec fn tally(list: Seq<WrittenSpan>) -> Option<(nat, nat)>
    decreases list.len(),
{
    if list.len() == 0 {
        Some((0, 0))
    } else {
        match tally(list.drop_last()) {
            Some(sum) => added(sum, number(list.last().digits), unit_length(list.last().unit)),
            None => None,
        }
    }
}

/// `s` is a list of time spans that can be added up.
pub open spec fn reads(s: Seq<char>) -> bool {
    exists|list: Seq<WrittenSpan>, tail: Seq<char>| #[trigger]
        written(s, list, tail) && tally(list) is Some
}

/// `s` is no list of time spans that come to `u64::MAX` seconds and a whole second in nanoseconds
/// beyond.
pub open spec fn readable(s: Seq<char>) -> bool {
    forall|list: Seq<WrittenSpan>, tail: Seq<char>| #[trigger]
        written(s, list, tail) ==> tally(list) != Some((u64::MAX as nat, 1_000_000_000nat))
}

/// `length` is that of the time spans in `s`.
pub open spec fn has_length(s: Seq<char>, length: nat) -> bool {
    forall|list: Seq<WrittenSpan>, tail: Seq<char>| #[trigger]
        written(s, list, tail) ==> length == list_length(list)
}

/// Reads a length of time with the [`FromStr`](std::str::FromStr) of [`humantime::Duration`], that
/// is with [`humantime::parse_duration`].
///
/// What it reads depends on the text alone and goes by the name [`humantime_duration`]. It reads
/// the lists of time spans that can be added up, and nothing else; a length that it reads is that
/// of the spans, and its nanoseconds make less than a second. Which error comes for any other text
/// is left to the name.
///
/// It adds up seconds and nanoseconds apart, as [`added`] says, and panics where they end up as
/// `u64::MAX` seconds and one billion nanoseconds. No [`readable`] text comes to that, and every
/// other one does.
#[verifier::external_body]
pub(crate) fn parse_duration(s: &str) -> (r: Result<TimeSpan, DurationError>)
    requires
        readable(s@),
    ensures
        outcome(r) == humantime_duration(s@),
        r is Ok <==> reads(s@),
        r matches Ok(span) ==> span.wf() && has_length(s@, span.total()),
{
    match s.parse::<humantime::Duration>() {
        Ok(span) => Ok(TimeSpan { secs: span.as_secs(), nanos: span.subsec_nanos() }),
        Err(humantime::DurationError::InvalidCharacter(at)) => Err(DurationError::InvalidCharacter(at)),
        Err(humantime::DurationError::NumberExpected(at)) => Err(DurationError::NumberExpected(at)),
        Err(humantime::DurationError::UnknownUnit { start, end, unit, value }) => {
            Err(DurationError::UnknownUnit { start, end, unit, value })
        },
        Err(humantime::DurationError::NumberOverflow) => Err(DurationError::NumberOverflow),
        Err(humantime::DurationError::Empty) => Err(DurationError::Empty),
    }
}

} // verus!
