//! What comes of reading how long to retain, whatever the text.

use crate::duration::{DurationError, TimeSpan, WrittenSpan};
use crate::retain::RetainFor;
use crate::scan::is_readable;
use vstd::prelude::*;

verus! {

/// `unit` is a suffix of time spans, which stands for this many nanoseconds. A month
/// is 30.44 days, a year 365.25.
pub open spec fn suffix(unit: Seq<char>, nanos: nat) -> bool {
    ||| nanos == 1 && (unit == "nanos"@ || unit == "nsec"@ || unit == "ns"@)
    ||| nanos == 1_000 && (unit == "usec"@ || unit == "us"@)
    ||| nanos == 1_000_000 && (unit == "millis"@ || unit == "msec"@ || unit == "ms"@)
    ||| nanos == 1_000_000_000 && (unit == "seconds"@ || unit == "second"@ || unit == "secs"@ || unit
        == "sec"@ || unit == "s"@)
    ||| nanos == 60 * 1_000_000_000 && (unit == "minutes"@ || unit == "minute"@ || unit == "mins"@
        || unit == "min"@ || unit == "m"@)
    ||| nanos == 3_600 * 1_000_000_000 && (unit == "hours"@ || unit == "hour"@ || unit == "hrs"@
        || unit == "hr"@ || unit == "h"@)
    ||| nanos == 86_400 * 1_000_000_000 && (unit == "days"@ || unit == "day"@ || unit == "d"@)
    ||| nanos == 7 * 86_400_000_000_000 && (unit == "weeks"@ || unit == "week"@ || unit == "w"@)
    ||| 100 * nanos == 3_044 * 86_400_000_000_000 && (unit == "months"@ || unit == "month"@ || unit
        == "M"@)
    ||| 100 * nanos == 36_525 * 86_400_000_000_000 && (unit == "years"@ || unit == "year"@ || unit
        == "y"@)
}

/// `s` is a number: a decimal digit, then digits and white space.
pub open spec fn numeral(s: Seq<char>) -> bool {
    &&& s.len() > 0
    &&& '0' <= s[0] <= '9'
    &&& forall|i: int|
        0 <= i < s.len() ==> '0' <= #[trigger] s[i] <= '9' || crate::reading::space(s[i])
}

/// A length of this many nanoseconds can be written with the unit.
pub open spec fn fits(length: int, nanos: nat) -> bool {
    if nanos < 1_000_000_000 {
        length <= u64::MAX
    } else {
        length < 1_000_000_000 * (u64::MAX + 1)
    }
}

/// A text reads as a limit.
pub open spec fn limited(r: Option<Result<RetainFor, DurationError>>) -> bool {
    r matches Some(Ok(RetainFor(Some(_))))
}

/// The limit that a text reads as, in nanoseconds.
pub open spec fn limit(r: Option<Result<RetainFor, DurationError>>) -> int {
    match r {
        Some(Ok(RetainFor(Some(span)))) => span.secs * 1_000_000_000 + span.nanos,
        _ => 0,
    }
}

/// A text is refused.
pub open spec fn refused(r: Option<Result<RetainFor, DurationError>>) -> bool {
    r matches Some(Err(_))
}

/// The suffixes are the units of time.
proof fn lemma_suffix(unit: Seq<char>)
    ensures
        forall|nanos: nat| #[trigger]
            suffix(unit, nanos) ==> nanos == crate::duration::unit_length(unit) && nanos > 0,
        crate::duration::unit_length(unit) > 0 ==> suffix(unit, crate::duration::unit_length(unit)),
{
    reveal_strlit("nanos");
    reveal_strlit("nsec");
    reveal_strlit("ns");
    reveal_strlit("usec");
    reveal_strlit("us");
    reveal_strlit("millis");
    reveal_strlit("msec");
    reveal_strlit("ms");
    reveal_strlit("seconds");
    reveal_strlit("second");
    reveal_strlit("secs");
    reveal_strlit("sec");
    reveal_strlit("s");
    reveal_strlit("minutes");
    reveal_strlit("minute");
    reveal_strlit("mins");
    reveal_strlit("min");
    reveal_strlit("m");
    reveal_strlit("hours");
    reveal_strlit("hour");
    reveal_strlit("hrs");
    reveal_strlit("hr");
    reveal_strlit("h");
    reveal_strlit("days");
    reveal_strlit("day");
    reveal_strlit("d");
    reveal_strlit("weeks");
    reveal_strlit("week");
    reveal_strlit("w");
    reveal_strlit("months");
    reveal_strlit("month");
    reveal_strlit("M");
    reveal_strlit("years");
    reveal_strlit("year");
    reveal_strlit("y");
    assert("nanos"@.len() == 5 && "nanos"@[0] == 'n' && "nanos"@[1] == 'a' && "nanos"@[2] == 'n');
    assert("nsec"@.len() == 4 && "nsec"@[0] == 'n' && "nsec"@[1] == 's' && "nsec"@[2] == 'e');
    assert("ns"@.len() == 2 && "ns"@[0] == 'n' && "ns"@[1] == 's');
    assert("usec"@.len() == 4 && "usec"@[0] == 'u' && "usec"@[1] == 's' && "usec"@[2] == 'e');
    assert("us"@.len() == 2 && "us"@[0] == 'u' && "us"@[1] == 's');
    assert("millis"@.len() == 6 && "millis"@[0] == 'm'
        && "millis"@[1] == 'i' && "millis"@[2] == 'l');
    assert("msec"@.len() == 4 && "msec"@[0] == 'm' && "msec"@[1] == 's' && "msec"@[2] == 'e');
    assert("ms"@.len() == 2 && "ms"@[0] == 'm' && "ms"@[1] == 's');
    assert("seconds"@.len() == 7 && "seconds"@[0] == 's'
        && "seconds"@[1] == 'e' && "seconds"@[2] == 'c');
    assert("second"@.len() == 6 && "second"@[0] == 's'
        && "second"@[1] == 'e' && "second"@[2] == 'c');
    assert("secs"@.len() == 4 && "secs"@[0] == 's' && "secs"@[1] == 'e' && "secs"@[2] == 'c');
    assert("sec"@.len() == 3 && "sec"@[0] == 's' && "sec"@[1] == 'e' && "sec"@[2] == 'c');
    assert("s"@.len() == 1 && "s"@[0] == 's');
    assert("minutes"@.len() == 7 && "minutes"@[0] == 'm'
        && "minutes"@[1] == 'i' && "minutes"@[2] == 'n');
    assert("minute"@.len() == 6 && "minute"@[0] == 'm'
        && "minute"@[1] == 'i' && "minute"@[2] == 'n');
    assert("mins"@.len() == 4 && "mins"@[0] == 'm' && "mins"@[1] == 'i' && "mins"@[2] == 'n');
    assert("min"@.len() == 3 && "min"@[0] == 'm' && "min"@[1] == 'i' && "min"@[2] == 'n');
    assert("m"@.len() == 1 && "m"@[0] == 'm');
    assert("hours"@.len() == 5 && "hours"@[0] == 'h' && "hours"@[1] == 'o' && "hours"@[2] == 'u');
    assert("hour"@.len() == 4 && "hour"@[0] == 'h' && "hour"@[1] == 'o' && "hour"@[2] == 'u');
    assert("hrs"@.len() == 3 && "hrs"@[0] == 'h' && "hrs"@[1] == 'r' && "hrs"@[2] == 's');
    assert("hr"@.len() == 2 && "hr"@[0] == 'h' && "hr"@[1] == 'r');
    assert("h"@.len() == 1 && "h"@[0] == 'h');
    assert("days"@.len() == 4 && "days"@[0] == 'd' && "days"@[1] == 'a' && "days"@[2] == 'y');
    assert("day"@.len() == 3 && "day"@[0] == 'd' && "day"@[1] == 'a' && "day"@[2] == 'y');
    assert("d"@.len() == 1 && "d"@[0] == 'd');
    assert("weeks"@.len() == 5 && "weeks"@[0] == 'w' && "weeks"@[1] == 'e' && "weeks"@[2] == 'e');
    assert("week"@.len() == 4 && "week"@[0] == 'w' && "week"@[1] == 'e' && "week"@[2] == 'e');
    assert("w"@.len() == 1 && "w"@[0] == 'w');
    assert("months"@.len() == 6 && "months"@[0] == 'm'
        && "months"@[1] == 'o' && "months"@[2] == 'n');
    assert("month"@.len() == 5 && "month"@[0] == 'm' && "month"@[1] == 'o' && "month"@[2] == 'n');
    assert("M"@.len() == 1 && "M"@[0] == 'M');
    assert("years"@.len() == 5 && "years"@[0] == 'y' && "years"@[1] == 'e' && "years"@[2] == 'a');
    assert("year"@.len() == 4 && "year"@[0] == 'y' && "year"@[1] == 'e' && "year"@[2] == 'a');
    assert("y"@.len() == 1 && "y"@[0] == 'y');
}

/// A numeral is a number as it is written.
proof fn lemma_numeral(digits: Seq<char>)
    requires
        numeral(digits),
    ensures
        crate::duration::written_number(digits),
{
    assert forall|i: int| 0 <= i < digits.len() implies crate::duration::digit(#[trigger] digits[i])
        || crate::text::white_space(digits[i]) by {
        crate::reading::lemma_space(digits[i]);
    }
}

/// What a text that holds a digit reads as.
proof fn lemma_outcome(s: &str, at: int, r: Option<Result<RetainFor, DurationError>>)
    requires
        call_ensures(RetainFor::checked_from_str, (s,), r),
        0 <= at < s@.len(),
        '0' <= s@[at] <= '9',
    ensures
        r is Some <==> crate::duration::readable(s@),
        crate::duration::readable(s@) ==> (limited(r) <==> crate::duration::reads(s@)),
        crate::duration::readable(s@) ==> (refused(r) <==> !crate::duration::reads(s@)),
        r matches Some(Ok(RetainFor(Some(span)))) ==> span.nanos < 1_000_000_000
            && crate::duration::has_length(s@, limit(r) as nat),
{
    if crate::text::same_ignoring_case(s@, "none"@) {
        crate::retain::lemma_none_no_digits(s@);
        assert(!crate::duration::digit(s@[at]));
    }
}

/// A number with a suffix is one span.
proof fn lemma_single(
    digits: Seq<char>,
    unit: Seq<char>,
    s: &str,
    r: Option<Result<RetainFor, DurationError>>,
)
    requires
        call_ensures(RetainFor::checked_from_str, (s,), r),
        numeral(digits),
        crate::duration::unit_length(unit) > 0,
        s@ == digits + unit,
    ensures
        ({
            let nanos = crate::duration::unit_length(unit);
            let length = crate::duration::number(digits) * nanos;
            &&& fits(length as int, nanos) ==> limited(r) && limit(r) == length
            &&& !fits(length as int, nanos) ==> refused(r)
        }),
        r matches Some(Ok(RetainFor(Some(span)))) ==> span.nanos < 1_000_000_000,
{
    lemma_numeral(digits);
    let none: Seq<char> = Seq::empty();
    let span = WrittenSpan { gap: none, digits, unit };
    let list = seq![span];
    let nothing: Seq<WrittenSpan> = Seq::empty();
    let (count, nanos) = (crate::duration::number(digits), crate::duration::unit_length(unit));
    assert(list.drop_last() =~= nothing);
    assert(crate::duration::list_text(nothing) =~= none);
    assert(crate::duration::tally(nothing) == Some((0nat, 0nat)));
    assert(crate::duration::list_length(nothing) == 0);
    assert(s@ =~= crate::duration::list_text(list) + none);
    assert(crate::duration::written(s@, list, none));
    assert(crate::duration::tally(list) == crate::duration::added((0, 0), count, nanos));
    assert(s@[0] == digits[0]);
    lemma_outcome(s, 0, r);
    crate::laws::lemma_unit_secs(unit);
    let length = count * nanos;
    if nanos >= 1_000_000_000 {
        let secs = nanos / 1_000_000_000;
        assert(length == count * secs * 1_000_000_000) by (nonlinear_arith)
            requires
                nanos == secs * 1_000_000_000,
                length == count * nanos,
        ;
        assert(fits(length as int, nanos) <==> count * secs <= u64::MAX);
    }
    assert(crate::duration::tally(list) is Some <==> fits(length as int, nanos));
    assert(crate::duration::tally(list) != Some((u64::MAX as nat, 1_000_000_000nat)));
    assert forall|other: Seq<WrittenSpan>, end: Seq<char>| #[trigger]
        crate::duration::written(s@, other, end) implies crate::duration::tally(other)
        == crate::duration::tally(list) by {
        crate::scan::lemma_scan_written(s@, list, none);
        crate::scan::lemma_scan_written(s@, other, end);
    }
}

/// `none`, in capital or small letters, and nothing else sets no limit.
pub proof fn law_none(s: &str, r: Option<Result<RetainFor, DurationError>>)
    requires
        call_ensures(RetainFor::checked_from_str, (s,), r),
    ensures
        (r matches Some(Ok(RetainFor(None)))) <==> crate::reading::spelled(
            s@,
            seq!['n', 'o', 'n', 'e'],
        ),
{
    reveal_strlit("none");
    assert("none"@ =~= seq!['n', 'o', 'n', 'e']);
    crate::reading::lemma_spelled(s@, "none"@);
    if crate::text::same_ignoring_case(s@, "none"@) {
        crate::laws::law_none_readable(s@);
    }
}

/// A digit with a suffix sets that many units as the limit.
pub proof fn law_one_digit(
    digit: char,
    unit: Seq<char>,
    nanos: nat,
    s: &str,
    r: Option<Result<RetainFor, DurationError>>,
)
    requires
        call_ensures(RetainFor::checked_from_str, (s,), r),
        '0' <= digit <= '9',
        suffix(unit, nanos),
        s@ == seq![digit] + unit,
    ensures
        limited(r),
        limit(r) == (digit as int - '0' as int) * nanos,
        r matches Some(Ok(RetainFor(Some(span)))) ==> span.nanos < 1_000_000_000,
{
    lemma_suffix(unit);
    let digits = seq![digit];
    assert(digits.drop_last() =~= Seq::<char>::empty());
    assert(crate::duration::number(digits.drop_last()) == 0);
    let count = crate::duration::number(digits);
    assert(count == digit as int - '0' as int);
    assert(nanos <= 31_557_600_000_000_000);
    assert(count * nanos <= 9 * nanos) by (nonlinear_arith)
        requires
            count <= 9,
    ;
    lemma_single(digits, unit, s, r);
}

/// A further digit makes a number ten times as large, and adds its own value. A number too large
/// for its unit is refused, and stays so with more digits.
pub proof fn law_further_digit(
    digits: Seq<char>,
    digit: char,
    unit: Seq<char>,
    nanos: nat,
    s: &str,
    t: &str,
    of_s: Option<Result<RetainFor, DurationError>>,
    of_t: Option<Result<RetainFor, DurationError>>,
)
    requires
        call_ensures(RetainFor::checked_from_str, (s,), of_s),
        call_ensures(RetainFor::checked_from_str, (t,), of_t),
        numeral(digits),
        '0' <= digit <= '9',
        suffix(unit, nanos),
        s@ == digits + unit,
        t@ == digits + seq![digit] + unit,
    ensures
        limited(of_s) || refused(of_s),
        limited(of_s) ==> ({
            let length = 10 * limit(of_s) + (digit as int - '0' as int) * nanos;
            &&& fits(length, nanos) ==> limited(of_t) && limit(of_t) == length
            &&& !fits(length, nanos) ==> refused(of_t)
        }),
        refused(of_s) ==> refused(of_t),
{
    lemma_suffix(unit);
    lemma_single(digits, unit, s, of_s);
    let longer = digits + seq![digit];
    assert(longer.drop_last() =~= digits);
    assert(longer.last() == digit);
    lemma_single(longer, unit, t, of_t);
    let (count, value) = (crate::duration::number(digits), (digit as int - '0' as int) as nat);
    assert(crate::duration::number(longer) == 10 * count + value);
    assert((10 * count + value) * nanos == 10 * (count * nanos) + value * nanos
        && (10 * count + value) * nanos >= count * nanos) by (nonlinear_arith);
}

/// White space within a number, or between it and its suffix, does not count.
pub proof fn law_space_in_number(
    digits: Seq<char>,
    gap: Seq<char>,
    more: Seq<char>,
    unit: Seq<char>,
    nanos: nat,
    s: &str,
    t: &str,
    of_s: Option<Result<RetainFor, DurationError>>,
    of_t: Option<Result<RetainFor, DurationError>>,
)
    requires
        call_ensures(RetainFor::checked_from_str, (s,), of_s),
        call_ensures(RetainFor::checked_from_str, (t,), of_t),
        numeral(digits + more),
        digits.len() > 0,
        forall|i: int| 0 <= i < gap.len() ==> crate::reading::space(#[trigger] gap[i]),
        suffix(unit, nanos),
        s@ == digits + more + unit,
        t@ == digits + gap + more + unit,
    ensures
        limited(of_s) <==> limited(of_t),
        refused(of_s) <==> refused(of_t),
        limit(of_s) == limit(of_t),
{
    lemma_suffix(unit);
    let (plain, spaced) = (digits + more, digits + gap + more);
    assert(spaced[0] == plain[0]);
    assert forall|i: int| 0 <= i < spaced.len() implies '0' <= #[trigger] spaced[i] <= '9'
        || crate::reading::space(spaced[i]) by {
        if i < digits.len() {
            assert(spaced[i] == plain[i]);
        } else if i >= digits.len() + gap.len() {
            assert(spaced[i] == plain[i - gap.len()]);
        } else {
            assert(spaced[i] == gap[i - digits.len()]);
        }
    }
    lemma_spaced_number(digits, gap, more);
    lemma_single(plain, unit, s, of_s);
    lemma_single(spaced, unit, t, of_t);
}

/// White space in a number does not change it.
proof fn lemma_spaced_number(digits: Seq<char>, gap: Seq<char>, more: Seq<char>)
    requires
        forall|i: int| 0 <= i < gap.len() ==> crate::reading::space(#[trigger] gap[i]),
    ensures
        crate::duration::number(digits + gap + more) == crate::duration::number(digits + more),
    decreases gap.len() + more.len(),
{
    let (plain, spaced) = (digits + more, digits + gap + more);
    if more.len() > 0 {
        lemma_spaced_number(digits, gap, more.drop_last());
        assert(plain.drop_last() =~= digits + more.drop_last());
        assert(spaced.drop_last() =~= digits + gap + more.drop_last());
        assert(plain.last() == more.last() && spaced.last() == more.last());
    } else if gap.len() > 0 {
        lemma_spaced_number(digits, gap.drop_last(), more);
        assert(spaced.drop_last() =~= digits + gap.drop_last() + more);
        assert(spaced.last() == gap[gap.len() - 1]);
        assert(crate::reading::space(spaced.last()));
    } else {
        assert(spaced =~= plain);
    }
}

/// White space around the spans does not count.
pub proof fn law_space_around(
    before: Seq<char>,
    after: Seq<char>,
    s: &str,
    t: &str,
    of_s: Option<Result<RetainFor, DurationError>>,
    of_t: Option<Result<RetainFor, DurationError>>,
)
    requires
        call_ensures(RetainFor::checked_from_str, (s,), of_s),
        call_ensures(RetainFor::checked_from_str, (t,), of_t),
        forall|i: int| 0 <= i < before.len() ==> crate::reading::space(#[trigger] before[i]),
        forall|i: int| 0 <= i < after.len() ==> crate::reading::space(#[trigger] after[i]),
        t@ == before + s@ + after,
        limited(of_s),
    ensures
        limited(of_t),
        limit(of_t) == limit(of_s),
{
    let (list, tail) = choose|list: Seq<WrittenSpan>, tail: Seq<char>| #[trigger]
        crate::duration::written(s@, list, tail) && crate::duration::tally(list) is Some;
    crate::laws::lemma_list_start(list);
    assert(list[0].wf());
    crate::reading::lemma_spaces(before);
    crate::reading::lemma_spaces(after);
    let first = WrittenSpan { gap: before + list[0].gap, ..list[0] };
    let moved = list.update(0, first);
    crate::laws::lemma_gap_before(before, list);
    assert(t@ =~= crate::duration::list_text(moved) + (tail + after));
    assert forall|i: int| 0 <= i < moved.len() implies (#[trigger] moved[i]).wf() by {
        if i > 0 {
            assert(moved[i] == list[i]);
        }
    }
    assert(crate::duration::written(t@, moved, tail + after));
    let at = list[0].gap.len() as int;
    assert(s@[at] == crate::duration::list_text(list)[at]);
    lemma_outcome(s, at, of_s);
    assert(t@[before.len() + at] == s@[at]);
    lemma_outcome(t, before.len() + at, of_t);
    assert forall|other: Seq<WrittenSpan>, end: Seq<char>| #[trigger]
        crate::duration::written(t@, other, end) implies crate::duration::tally(other)
        == crate::duration::tally(list) by {
        crate::scan::lemma_scan_written(t@, moved, tail + after);
        crate::scan::lemma_scan_written(t@, other, end);
    }
}

/// A list of spans of no more than `u64::MAX` nanoseconds can be added up.
proof fn lemma_short(list: Seq<WrittenSpan>)
    requires
        crate::duration::list_length(list) <= u64::MAX,
    ensures
        crate::duration::tally(list) is Some,
        crate::duration::tally(list) != Some((u64::MAX as nat, 1_000_000_000nat)),
    decreases list.len(),
{
    if list.len() > 0 {
        let before = list.drop_last();
        lemma_short(before);
        crate::laws::lemma_tally(before);
        crate::laws::lemma_unit_secs(list.last().unit);
        let sum = crate::duration::tally(before)->0;
        let (count, nanos) = (
            crate::duration::number(list.last().digits),
            crate::duration::unit_length(list.last().unit),
        );
        crate::laws::lemma_added(sum, count, nanos);
        if nanos >= 1_000_000_000 {
            let secs = nanos / 1_000_000_000;
            assert(count * nanos == count * secs * 1_000_000_000) by (nonlinear_arith)
                requires
                    nanos == secs * 1_000_000_000,
            ;
        }
    }
    crate::laws::lemma_tally(list);
}

/// Texts in a row, with or without white space between them, set the sum of the limits that each
/// sets. Only a sum beyond `u64::MAX` nanoseconds may be refused, or not be taken.
pub proof fn law_limits_in_a_row(
    gap: Seq<char>,
    s: &str,
    t: &str,
    both: &str,
    of_s: Option<Result<RetainFor, DurationError>>,
    of_t: Option<Result<RetainFor, DurationError>>,
    of_both: Option<Result<RetainFor, DurationError>>,
)
    requires
        call_ensures(RetainFor::checked_from_str, (s,), of_s),
        call_ensures(RetainFor::checked_from_str, (t,), of_t),
        call_ensures(RetainFor::checked_from_str, (both,), of_both),
        forall|i: int| 0 <= i < gap.len() ==> crate::reading::space(#[trigger] gap[i]),
        both@ == s@ + gap + t@,
        limited(of_s),
        limited(of_t),
    ensures
        limited(of_both) ==> limit(of_both) == limit(of_s) + limit(of_t),
        limit(of_s) + limit(of_t) <= u64::MAX ==> limited(of_both),
        limited(of_both) || refused(of_both) || of_both is None,
{
    let (a, a_tail) = choose|list: Seq<WrittenSpan>, tail: Seq<char>| #[trigger]
        crate::duration::written(s@, list, tail) && crate::duration::tally(list) is Some;
    let (b, b_tail) = choose|list: Seq<WrittenSpan>, tail: Seq<char>| #[trigger]
        crate::duration::written(t@, list, tail) && crate::duration::tally(list) is Some;
    crate::reading::lemma_spaces(gap);
    let joined = crate::laws::lemma_joined(s@, a, a_tail, gap, t@, b, b_tail);
    crate::laws::lemma_list_start(a);
    let at = a[0].gap.len() as int;
    assert(s@[at] == crate::duration::list_text(a)[at]);
    assert(both@[at] == s@[at]);
    crate::laws::lemma_list_start(b);
    let later = b[0].gap.len() as int;
    assert(t@[later] == crate::duration::list_text(b)[later]);
    lemma_outcome(s, at, of_s);
    lemma_outcome(t, later, of_t);
    lemma_outcome(both, at, of_both);
    if limit(of_s) + limit(of_t) <= u64::MAX {
        lemma_short(joined);
        assert forall|other: Seq<WrittenSpan>, end: Seq<char>| #[trigger]
            crate::duration::written(both@, other, end) implies crate::duration::tally(other)
            == crate::duration::tally(joined) by {
            crate::scan::lemma_scan_written(both@, joined, b_tail);
            crate::scan::lemma_scan_written(both@, other, end);
        }
    }
}

/// A text that sets a limit consists of decimal digits, ASCII letters and white space, and white
/// space around it aside starts with a digit and ends in a letter.
pub proof fn law_limit_text(
    before: Seq<char>,
    core: Seq<char>,
    after: Seq<char>,
    s: &str,
    r: Option<Result<RetainFor, DurationError>>,
)
    requires
        call_ensures(RetainFor::checked_from_str, (s,), r),
        crate::reading::framed(s@, before, core, after),
        limited(r),
    ensures
        core.len() > 0,
        '0' <= core[0] <= '9',
        'a' <= core[core.len() - 1] <= 'z' || 'A' <= core[core.len() - 1] <= 'Z',
        forall|i: int|
            0 <= i < s@.len() ==> {
                ||| '0' <= #[trigger] s@[i] <= '9'
                ||| 'a' <= s@[i] <= 'z'
                ||| 'A' <= s@[i] <= 'Z'
                ||| crate::reading::space(s@[i])
            },
{
    crate::reading::lemma_framed(s@, before, core, after);
    crate::laws::law_read_text(s@);
    assert forall|i: int| 0 <= i < s@.len() implies {
        ||| '0' <= #[trigger] s@[i] <= '9'
        ||| 'a' <= s@[i] <= 'z'
        ||| 'A' <= s@[i] <= 'Z'
        ||| crate::reading::space(s@[i])
    } by {
        crate::reading::lemma_space(s@[i]);
    }
}

/// A number with letters that are no suffix is refused.
pub proof fn law_unknown_suffix(
    digits: Seq<char>,
    letters: Seq<char>,
    s: &str,
    r: Option<Result<RetainFor, DurationError>>,
)
    requires
        call_ensures(RetainFor::checked_from_str, (s,), r),
        numeral(digits),
        letters.len() > 0,
        forall|i: int|
            0 <= i < letters.len() ==> 'a' <= #[trigger] letters[i] <= 'z' || 'A' <= letters[i]
                <= 'Z',
        forall|nanos: nat| !#[trigger] suffix(letters, nanos),
        s@ == digits + letters,
    ensures
        refused(r),
{
    lemma_numeral(digits);
    lemma_suffix(letters);
    assert(crate::duration::unit_length(letters) == 0);
    crate::scan::lemma_no_unit(digits, letters);
    lemma_unread(s);
    assert(s@[0] == digits[0]);
    lemma_outcome(s, 0, r);
}

/// A text that is refused may be read.
proof fn lemma_unread(s: &str)
    requires
        !crate::duration::reads(s@),
    ensures
        crate::duration::readable(s@),
{
}

/// A suffix that white space breaks, or one without a number of its own, is refused.
pub proof fn law_broken_suffix(
    start: Seq<char>,
    x: char,
    gap: Seq<char>,
    y: char,
    end: Seq<char>,
    s: &str,
    r: Option<Result<RetainFor, DurationError>>,
)
    requires
        call_ensures(RetainFor::checked_from_str, (s,), r),
        'a' <= x <= 'z' || 'A' <= x <= 'Z',
        'a' <= y <= 'z' || 'A' <= y <= 'Z',
        gap.len() > 0,
        forall|i: int| 0 <= i < gap.len() ==> crate::reading::space(#[trigger] gap[i]),
        s@ == start + seq![x] + gap + seq![y] + end,
    ensures
        refused(r),
{
    crate::reading::lemma_spaces(gap);
    crate::scan::lemma_letters_apart(start, x, gap, y, end);
    lemma_unread(s);
    law_none(s, r);
    let at = start.len() as int + 1;
    assert(s@[at] == gap[0]);
    assert(crate::reading::space(s@[at]));
}

/// A list that can be added up holds no span in fractions of a second beyond `u64::MAX` nanoseconds.
proof fn lemma_spans_fit(list: Seq<WrittenSpan>, i: int)
    requires
        crate::duration::tally(list) is Some,
        0 <= i < list.len(),
        crate::duration::unit_length(list[i].unit) < 1_000_000_000,
    ensures
        list[i].length() <= u64::MAX,
    decreases list.len(),
{
    if i < list.len() - 1 {
        assert(list.drop_last()[i] == list[i]);
        lemma_spans_fit(list.drop_last(), i);
    } else {
        assert(list.last() == list[i]);
    }
}

/// What is counted in fractions of a second comes to no more than `u64::MAX` nanoseconds, span by
/// span, or the text is refused. Spans that stay a second below it set their length as the limit, as
/// long as all of them stay below 2^64 seconds.
pub proof fn law_fractions(
    list: Seq<WrittenSpan>,
    tail: Seq<char>,
    s: &str,
    r: Option<Result<RetainFor, DurationError>>,
)
    requires
        call_ensures(RetainFor::checked_from_str, (s,), r),
        crate::duration::written(s@, list, tail),
    ensures
        (exists|i: int|
            0 <= i < list.len() && crate::duration::unit_length((#[trigger] list[i]).unit)
                < 1_000_000_000 && list[i].length() > u64::MAX) ==> refused(r),
        (forall|i: int|
            0 <= i < list.len() && crate::duration::unit_length((#[trigger] list[i]).unit)
                < 1_000_000_000 ==> list[i].length() <= u64::MAX - 1_000_000_000)
            && crate::duration::list_length(list) < 1_000_000_000 * (u64::MAX + 1) ==> limited(r)
            && limit(r) == crate::duration::list_length(list),
{
    crate::laws::lemma_list_start(list);
    let at = list[0].gap.len() as int;
    assert(s@[at] == crate::duration::list_text(list)[at]);
    lemma_outcome(s, at, r);
    assert forall|other: Seq<WrittenSpan>, end: Seq<char>| #[trigger]
        crate::duration::written(s@, other, end) implies crate::duration::tally(other)
        == crate::duration::tally(list) by {
        crate::scan::lemma_scan_written(s@, list, tail);
        crate::scan::lemma_scan_written(s@, other, end);
    }
    if crate::duration::tally(list) is Some {
        assert forall|i: int|
            0 <= i < list.len() && crate::duration::unit_length((#[trigger] list[i]).unit)
                < 1_000_000_000 implies list[i].length() <= u64::MAX by {
            lemma_spans_fit(list, i);
        }
    }
    if crate::laws::moderate(list) {
        crate::laws::law_moderate_list_read(s@, list, tail);
    }
}

/// Only a list of spans that come to 2^64 seconds is not taken; a longer one is refused.
pub proof fn law_longest(
    list: Seq<WrittenSpan>,
    tail: Seq<char>,
    s: &str,
    r: Option<Result<RetainFor, DurationError>>,
)
    requires
        call_ensures(RetainFor::checked_from_str, (s,), r),
        crate::duration::written(s@, list, tail),
    ensures
        r is None ==> crate::duration::list_length(list) == 1_000_000_000 * (u64::MAX + 1),
        crate::duration::list_length(list) > 1_000_000_000 * (u64::MAX + 1) ==> refused(r),
        crate::duration::list_length(list) == 1_000_000_000 * (u64::MAX + 1) ==> r is None
            || refused(r),
        crate::duration::list_length(list) <= u64::MAX ==> limited(r) && limit(r)
            == crate::duration::list_length(list),
{
    crate::laws::lemma_list_start(list);
    let at = list[0].gap.len() as int;
    assert(s@[at] == crate::duration::list_text(list)[at]);
    lemma_outcome(s, at, r);
    crate::laws::lemma_tally(list);
    assert forall|other: Seq<WrittenSpan>, end: Seq<char>| #[trigger]
        crate::duration::written(s@, other, end) implies crate::duration::tally(other)
        == crate::duration::tally(list) by {
        crate::scan::lemma_scan_written(s@, list, tail);
        crate::scan::lemma_scan_written(s@, other, end);
    }
    if crate::duration::list_length(list) <= u64::MAX {
        lemma_short(list);
    }
}

/// A text is taken if and only if it may be given to the reader that does not test for it.
pub proof fn law_taken(s: &str, b: bool, r: Option<Result<RetainFor, DurationError>>)
    requires
        call_ensures(is_readable, (s,), b),
        call_ensures(RetainFor::checked_from_str, (s,), r),
    ensures
        b <==> r is Some,
{
}

/// Both readers read the same, where the text is taken.
pub proof fn law_readers_agree(
    s: &str,
    checked: Option<Result<RetainFor, DurationError>>,
    r: Result<RetainFor, DurationError>,
)
    requires
        call_ensures(RetainFor::checked_from_str, (s,), checked),
        call_ensures(RetainFor::from_str, (s,), r),
    ensures
        checked matches Some(Ok(retain_for)) ==> (r matches Ok(got) && got == retain_for),
        checked matches Some(Err(error)) ==> (r matches Err(got) && got@ == error@),
{
}

/// A length that was read is retained for, and an error that came of reading is handed on.
pub proof fn law_retains_what_was_read(
    read: Result<TimeSpan, DurationError>,
    r: Result<RetainFor, DurationError>,
)
    requires
        call_ensures(RetainFor::from_duration, (read,), r),
    ensures
        read matches Ok(span) ==> (r matches Ok(retain_for) && retain_for.0 == Some(span)),
        read is Err ==> r is Err,
        read matches Err(DurationError::InvalidCharacter(at)) ==> (r matches Err(
            DurationError::InvalidCharacter(got),
        ) && got == at),
        read matches Err(DurationError::NumberExpected(at)) ==> (r matches Err(
            DurationError::NumberExpected(got),
        ) && got == at),
        read matches Err(DurationError::UnknownUnit { start, end, unit, value }) ==> (r matches Err(
            DurationError::UnknownUnit { start: s, end: e, unit: u, value: v },
        ) && s == start && e == end && u@ == unit@ && v == value),
        read matches Err(DurationError::NumberOverflow) ==> (r matches Err(
            DurationError::NumberOverflow,
        )),
        read matches Err(DurationError::Empty) ==> (r matches Err(DurationError::Empty)),
{
}

} // verus!
