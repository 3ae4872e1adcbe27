//! Reading lists of time spans character by character, to tell those that cannot be given to
//! `humantime`.

use crate::duration::WrittenSpan;
use crate::text::{chars, is_white_space, same};
use vstd::prelude::*;

verus! {

/// How far a text has been read, with the seconds and nanoseconds of the spans that are complete.
enum Progress {
    /// A number or the end comes next; `any` span is complete.
    Gap { sum: (nat, nat), any: bool },
    /// A number has started.
    Number { sum: (nat, nat), count: nat },
    /// The unit of a number has started.
    Unit { sum: (nat, nat), count: nat, unit: Seq<char> },
    /// The text is no list of spans that can be added up.
    Refused,
}

/// The sum with a complete span, if there is such a unit and the sum can be had.
spec fn closed(sum: (nat, nat), count: nat, unit: Seq<char>) -> Option<(nat, nat)> {
    if crate::duration::unit_length(unit) == 0 {
        None
    } else {
        crate::duration::added(sum, count, crate::duration::unit_length(unit))
    }
}

/// The value of a digit.
spec fn value(c: char) -> nat {
    (c as nat - '0' as nat) as nat
}

/// The progress with one more character.
spec fn step(progress: Progress, c: char) -> Progress {
    match progress {
        Progress::Gap { sum, any } => if crate::duration::digit(c) {
            Progress::Number { sum, count: value(c) }
        } else if crate::text::white_space(c) {
            progress
        } else {
            Progress::Refused
        },
        Progress::Number { sum, count } => if crate::duration::digit(c) {
            Progress::Number { sum, count: 10 * count + value(c) }
        } else if crate::text::white_space(c) {
            progress
        } else if crate::duration::letter(c) {
            Progress::Unit { sum, count, unit: seq![c] }
        } else {
            Progress::Refused
        },
        Progress::Unit { sum, count, unit } => if crate::duration::letter(c) {
            Progress::Unit { sum, count, unit: unit.push(c) }
        } else if crate::duration::digit(c) {
            match closed(sum, count, unit) {
                Some(sum) => Progress::Number { sum, count: value(c) },
                None => Progress::Refused,
            }
        } else if crate::text::white_space(c) {
            match closed(sum, count, unit) {
                Some(sum) => Progress::Gap { sum, any: true },
                None => Progress::Refused,
            }
        } else {
            Progress::Refused
        },
        Progress::Refused => Progress::Refused,
    }
}

/// The progress with all of `s`.
spec fn progress(s: Seq<char>) -> Progress
    decreases s.len(),
{
    if s.len() == 0 {
        Progress::Gap { sum: (0, 0), any: false }
    } else {
        step(progress(s.drop_last()), s.last())
    }
}

/// The seconds and nanoseconds that a text makes which ends here.
spec fn ended(progress: Progress) -> Option<(nat, nat)> {
    match progress {
        Progress::Gap { sum, any } => if any {
            Some(sum)
        } else {
            None
        },
        Progress::Unit { sum, count, unit } => closed(sum, count, unit),
        _ => None,
    }
}

/// A new number may start, with this sum before it.
spec fn ready(progress: Progress, sum: (nat, nat)) -> bool {
    match progress {
        Progress::Gap { sum: before, .. } => before == sum,
        Progress::Unit { sum: before, count, unit } => closed(before, count, unit) == Some(sum),
        _ => false,
    }
}

/// No number may start any more, nor may there be white space.
spec fn stuck(progress: Progress) -> bool {
    match progress {
        Progress::Unit { sum, count, unit } => closed(sum, count, unit) is None,
        Progress::Refused => true,
        _ => false,
    }
}

/// A unit of time consists of letters.
pub(crate) proof fn lemma_unit_letters(unit: Seq<char>)
    requires
        crate::duration::unit_length(unit) > 0,
    ensures
        unit.len() > 0,
        forall|i: int| 0 <= i < unit.len() ==> crate::duration::letter(#[trigger] unit[i]),
{
    reveal_strlit("nanos");
    reveal_strlit("nsec");
    reveal_strlit("ns");
    reveal_strlit("usec");
    reveal_strlit("us");
    reveal_strlit("millis");
    reveal_strlit("msec");
    reveal_strlit("ms");
    reveal_strlit("seconds");
    reveal_strlit("second");
    reveal_strlit("secs");
    reveal_strlit("sec");
    reveal_strlit("s");
    reveal_strlit("minutes");
    reveal_strlit("minute");
    reveal_strlit("mins");
    reveal_strlit("min");
    reveal_strlit("m");
    reveal_strlit("hours");
    reveal_strlit("hour");
    reveal_strlit("hrs");
    reveal_strlit("hr");
    reveal_strlit("h");
    reveal_strlit("days");
    reveal_strlit("day");
    reveal_strlit("d");
    reveal_strlit("weeks");
    reveal_strlit("week");
    reveal_strlit("w");
    reveal_strlit("months");
    reveal_strlit("month");
    reveal_strlit("M");
    reveal_strlit("years");
    reveal_strlit("year");
    reveal_strlit("y");
}

/// The last character of `s + t`, where `t` has one.
proof fn lemma_last(s: Seq<char>, t: Seq<char>)
    requires
        t.len() > 0,
    ensures
        (s + t).last() == t.last(),
        (s + t).drop_last() == s + t.drop_last(),
        progress(s + t) == step(progress(s + t.drop_last()), t.last()),
{
    assert((s + t).drop_last() =~= s + t.drop_last());
}

/// Nothing mends a text that is refused.
proof fn lemma_refused(s: Seq<char>, t: Seq<char>)
    requires
        progress(s) is Refused,
    ensures
        progress(s + t) is Refused,
    decreases t.len(),
{
    if t.len() == 0 {
        assert(s + t =~= s);
    } else {
        lemma_last(s, t);
        lemma_refused(s, t.drop_last());
    }
}

/// Neither a number nor white space mends a text that is stuck.
proof fn lemma_stuck(s: Seq<char>, t: Seq<char>)
    requires
        stuck(progress(s)),
        t.len() > 0,
        crate::duration::digit(t[0]) || crate::text::white_space(t[0]),
    ensures
        progress(s + t) is Refused,
{
    let first = t.take(1);
    lemma_last(s, first);
    assert(s + first.drop_last() =~= s);
    lemma_refused(s + first, t.skip(1));
    assert(s + first + t.skip(1) =~= s + t);
}

/// White space leaves a text ready for a number.
proof fn lemma_gap(s: Seq<char>, sum: (nat, nat), gap: Seq<char>)
    requires
        ready(progress(s), sum),
        crate::text::blank(gap),
    ensures
        ready(progress(s + gap), sum),
        gap.len() > 0 && progress(s) is Unit ==> progress(s + gap) == (Progress::Gap {
            sum,
            any: true,
        }),
    decreases gap.len(),
{
    if gap.len() == 0 {
        assert(s + gap =~= s);
    } else {
        lemma_last(s, gap);
        assert(gap.last() == gap[gap.len() - 1]);
        assert(crate::text::blank(gap.drop_last()));
        lemma_gap(s, sum, gap.drop_last());
        if gap.len() == 1 {
            assert(s + gap.drop_last() =~= s);
        }
    }
}

/// A number is read.
proof fn lemma_number(s: Seq<char>, sum: (nat, nat), digits: Seq<char>)
    requires
        ready(progress(s), sum),
        crate::duration::written_number(digits),
    ensures
        progress(s + digits) == (Progress::Number {
            sum,
            count: crate::duration::number(digits),
        }),
    decreases digits.len(),
{
    lemma_last(s, digits);
    let before = digits.drop_last();
    assert(digits.last() == digits[digits.len() - 1]);
    if digits.len() == 1 {
        assert(s + before =~= s);
        assert(crate::duration::number(before) == 0);
    } else {
        assert forall|i: int| 0 <= i < before.len() implies crate::duration::digit(
            #[trigger] before[i],
        ) || crate::text::white_space(before[i]) by {
            assert(before[i] == digits[i]);
        }
        lemma_number(s, sum, before);
    }
}

/// A unit is read.
proof fn lemma_unit(s: Seq<char>, sum: (nat, nat), count: nat, unit: Seq<char>)
    requires
        progress(s) == (Progress::Number { sum, count }),
        unit.len() > 0,
        forall|i: int| 0 <= i < unit.len() ==> crate::duration::letter(#[trigger] unit[i]),
    ensures
        progress(s + unit) == (Progress::Unit { sum, count, unit }),
    decreases unit.len(),
{
    lemma_last(s, unit);
    let before = unit.drop_last();
    assert(unit.last() == unit[unit.len() - 1]);
    if unit.len() == 1 {
        assert(s + before =~= s);
        assert(seq![unit.last()] =~= unit);
    } else {
        assert forall|i: int| 0 <= i < before.len() implies crate::duration::letter(
            #[trigger] before[i],
        ) by {
            assert(before[i] == unit[i]);
        }
        lemma_unit(s, sum, count, before);
        assert(before.push(unit.last()) =~= unit);
    }
}

/// The progress with a list of spans: its last unit has been read, or the spans before it cannot be
/// added up.
proof fn lemma_list(list: Seq<WrittenSpan>)
    requires
        list.len() > 0,
        forall|i: int| 0 <= i < list.len() ==> (#[trigger] list[i]).wf(),
    ensures
        progress(crate::duration::list_text(list)) == (match crate::duration::tally(
            list.drop_last(),
        ) {
            Some(sum) => Progress::Unit {
                sum,
                count: crate::duration::number(list.last().digits),
                unit: list.last().unit,
            },
            None => Progress::Refused,
        }),
    decreases list.len(),
{
    let before = list.drop_last();
    let span = list.last();
    assert(span == list[list.len() - 1]);
    let s = crate::duration::list_text(before);
    if before.len() > 0 {
        assert forall|i: int| 0 <= i < before.len() implies (#[trigger] before[i]).wf() by {
            assert(before[i] == list[i]);
        }
        lemma_list(before);
        assert(before.last() == before[before.len() - 1]);
    }
    match crate::duration::tally(before) {
        Some(sum) => {
            lemma_gap(s, sum, span.gap);
            lemma_number(s + span.gap, sum, span.digits);
            lemma_unit_letters(span.unit);
            lemma_unit(
                s + span.gap + span.digits,
                sum,
                crate::duration::number(span.digits),
                span.unit,
            );
            assert(s + span.text() =~= s + span.gap + span.digits + span.unit);
        },
        None => {
            if span.gap.len() > 0 {
                assert(span.text()[0] == span.gap[0]);
            } else {
                assert(span.text()[0] == span.digits[0]);
            }
            lemma_stuck(s, span.text());
        },
    }
}

/// Reading a list of spans adds it up.
pub(crate) proof fn lemma_scan_written(s: Seq<char>, list: Seq<WrittenSpan>, tail: Seq<char>)
    requires
        crate::duration::written(s, list, tail),
    ensures
        sum(s) == crate::duration::tally(list),
{
    let text = crate::duration::list_text(list);
    lemma_list(list);
    assert(list.last() == list[list.len() - 1]);
    if tail.len() == 0 {
        assert(text + tail =~= text);
    } else {
        match crate::duration::tally(list) {
            Some(sum) => {
                lemma_gap(text, sum, tail);
            },
            None => {
                assert(crate::text::white_space(tail[0]));
                lemma_stuck(text, tail);
            },
        }
    }
}

/// Only a text that makes a sum is read.
proof fn lemma_reads_sum(s: Seq<char>)
    requires
        crate::duration::reads(s),
    ensures
        sum(s) is Some,
{
    let (list, tail) = choose|list: Seq<WrittenSpan>, tail: Seq<char>| #[trigger]
        crate::duration::written(s, list, tail) && crate::duration::tally(list) is Some;
    lemma_scan_written(s, list, tail);
}

/// A number with letters that are no unit is not read.
pub(crate) proof fn lemma_no_unit(digits: Seq<char>, letters: Seq<char>)
    requires
        crate::duration::written_number(digits),
        letters.len() > 0,
        forall|i: int| 0 <= i < letters.len() ==> crate::duration::letter(#[trigger] letters[i]),
        crate::duration::unit_length(letters) == 0,
    ensures
        !crate::duration::reads(digits + letters),
{
    let none: Seq<char> = Seq::empty();
    lemma_number(none, (0, 0), digits);
    assert(none + digits =~= digits);
    lemma_unit(digits, (0, 0), crate::duration::number(digits), letters);
    if crate::duration::reads(digits + letters) {
        lemma_reads_sum(digits + letters);
    }
}

/// A letter, white space and a letter again are in no text that is read.
pub(crate) proof fn lemma_letters_apart(
    a: Seq<char>,
    x: char,
    gap: Seq<char>,
    y: char,
    b: Seq<char>,
)
    requires
        crate::duration::letter(x),
        crate::text::blank(gap),
        gap.len() > 0,
        crate::duration::letter(y),
    ensures
        !crate::duration::reads(a + seq![x] + gap + seq![y] + b),
{
    let start = a + seq![x];
    lemma_last(a, seq![x]);
    lemma_after_letter(start, gap);
    lemma_last(start + gap, seq![y]);
    assert(start + gap + seq![y].drop_last() =~= start + gap);
    lemma_refused(start + gap + seq![y], b);
    if crate::duration::reads(start + gap + seq![y] + b) {
        lemma_reads_sum(start + gap + seq![y] + b);
    }
}

/// After a letter and white space a number or the end comes next, if anything.
proof fn lemma_after_letter(s: Seq<char>, gap: Seq<char>)
    requires
        progress(s) is Unit || progress(s) is Refused,
        crate::text::blank(gap),
        gap.len() > 0,
    ensures
        progress(s + gap) is Gap || progress(s + gap) is Refused,
    decreases gap.len(),
{
    lemma_last(s, gap);
    assert(gap.last() == gap[gap.len() - 1]);
    if gap.len() == 1 {
        assert(s + gap.drop_last() =~= s);
    } else {
        assert(crate::text::blank(gap.drop_last()));
        lemma_after_letter(s, gap.drop_last());
    }
}

/// The seconds and nanoseconds that a text makes.
pub(crate) closed spec fn sum(s: Seq<char>) -> Option<(nat, nat)> {
    ended(progress(s))
}

/// What has been read of a text that is not refused: complete spans, and the white space and the
/// number after them.
proof fn lemma_parts(s: Seq<char>) -> (parts: (Seq<WrittenSpan>, Seq<char>, Seq<char>))
    ensures
        !(progress(s) is Refused) ==> {
            &&& forall|i: int| 0 <= i < parts.0.len() ==> (#[trigger] parts.0[i]).wf()
            &&& crate::text::blank(parts.1)
        },
        match progress(s) {
            Progress::Gap { any, .. } => {
                &&& s == crate::duration::list_text(parts.0) + parts.1
                &&& any == (parts.0.len() > 0)
            },
            Progress::Number { .. } => {
                &&& s == crate::duration::list_text(parts.0) + parts.1 + parts.2
                &&& crate::duration::written_number(parts.2)
            },
            Progress::Unit { unit, .. } => {
                &&& s == crate::duration::list_text(parts.0) + parts.1 + parts.2 + unit
                &&& crate::duration::written_number(parts.2)
            },
            Progress::Refused => true,
        },
    decreases s.len(),
{
    let none: Seq<char> = Seq::empty();
    if s.len() == 0 {
        assert(s =~= crate::duration::list_text(Seq::empty()) + none);
        (Seq::empty(), none, none)
    } else {
        let before = s.drop_last();
        let c = s.last();
        let (list, gap, digits) = lemma_parts(before);
        let text = crate::duration::list_text(list);
        assert(s =~= before.push(c));
        match progress(before) {
            Progress::Gap { .. } => {
                if crate::duration::digit(c) {
                    assert(s =~= text + gap + seq![c]);
                    (list, gap, seq![c])
                } else {
                    assert(s =~= text + gap.push(c));
                    (list, gap.push(c), none)
                }
            },
            Progress::Number { .. } => {
                if crate::duration::digit(c) || crate::text::white_space(c) {
                    assert(s =~= text + gap + digits.push(c));
                    (list, gap, digits.push(c))
                } else {
                    assert(s =~= text + gap + digits + seq![c]);
                    (list, gap, digits)
                }
            },
            Progress::Unit { unit, .. } => {
                if crate::duration::letter(c) {
                    assert(s =~= text + gap + digits + unit.push(c));
                    (list, gap, digits)
                } else {
                    let span = WrittenSpan { gap, digits, unit };
                    let longer = list.push(span);
                    assert(longer.drop_last() =~= list);
                    assert(before =~= crate::duration::list_text(longer));
                    if crate::duration::digit(c) {
                        assert(s =~= crate::duration::list_text(longer) + none + seq![c]);
                        (longer, none, seq![c])
                    } else {
                        assert(s =~= crate::duration::list_text(longer) + seq![c]);
                        (longer, seq![c], none)
                    }
                }
            },
            Progress::Refused => (list, gap, digits),
        }
    }
}

/// A text that makes a sum is a list of spans.
pub(crate) proof fn lemma_scan_sum(s: Seq<char>) -> (parts: (Seq<WrittenSpan>, Seq<char>))
    requires
        sum(s) is Some,
    ensures
        crate::duration::written(s, parts.0, parts.1),
        crate::duration::tally(parts.0) == sum(s),
{
    let (list, gap, digits) = lemma_parts(s);
    let parts = match progress(s) {
        Progress::Unit { unit, .. } => {
            let span = WrittenSpan { gap, digits, unit };
            let longer = list.push(span);
            assert(longer.drop_last() =~= list);
            assert(s =~= crate::duration::list_text(longer) + Seq::<char>::empty());
            (longer, Seq::empty())
        },
        _ => (list, gap),
    };
    lemma_scan_written(s, parts.0, parts.1);
    parts
}

/// A unit of time in nanoseconds; 0 for what is no unit.
fn unit_nanos(unit: &Vec<char>) -> (r: u64)
    ensures
        r == crate::duration::unit_length(unit@),
        r <= 31_557_600_000_000_000,
{
    if same(unit, "nanos") || same(unit, "nsec") || same(unit, "ns") {
        1
    } else if same(unit, "usec") || same(unit, "us") {
        1_000
    } else if same(unit, "millis") || same(unit, "msec") || same(unit, "ms") {
        1_000_000
    } else if same(unit, "seconds") || same(unit, "second") || same(unit, "secs") || same(
        unit,
        "sec",
    ) || same(unit, "s") {
        1_000_000_000
    } else if same(unit, "minutes") || same(unit, "minute") || same(unit, "mins") || same(
        unit,
        "min",
    ) || same(unit, "m") {
        60_000_000_000
    } else if same(unit, "hours") || same(unit, "hour") || same(unit, "hrs") || same(unit, "hr")
        || same(unit, "h") {
        3_600_000_000_000
    } else if same(unit, "days") || same(unit, "day") || same(unit, "d") {
        86_400_000_000_000
    } else if same(unit, "weeks") || same(unit, "week") || same(unit, "w") {
        604_800_000_000_000
    } else if same(unit, "months") || same(unit, "month") || same(unit, "M") {
        2_630_016_000_000_000
    } else if same(unit, "years") || same(unit, "year") || same(unit, "y") {
        31_557_600_000_000_000
    } else {
        0
    }
}

/// A number of which no unit can be added up.
spec fn capped(count: nat) -> nat {
    if count <= u64::MAX {
        count
    } else {
        (u64::MAX + 1) as nat
    }
}

/// Numbers beyond `u64::MAX` cannot be added up.
proof fn lemma_too_many(sum: (nat, nat), count: nat, unit: nat)
    requires
        count > u64::MAX,
        unit > 0,
    ensures
        crate::duration::added(sum, count, unit) is None,
{
    if unit < 1_000_000_000 {
        assert(count * unit >= count) by (nonlinear_arith)
            requires
                unit >= 1,
        ;
    } else {
        let secs = unit / 1_000_000_000;
        assert(secs >= 1);
        assert(count * secs >= count) by (nonlinear_arith)
            requires
                secs >= 1,
        ;
    }
}

/// The sum with a complete span, if there is such a unit and the sum can be had. `count` is the
/// number of the span, capped.
fn close(secs: u64, nanos: u64, count: u128, unit: &Vec<char>) -> (r: Option<(u64, u64)>)
    requires
        nanos <= 1_000_000_000,
        count <= u64::MAX + 1,
    ensures
        match r {
            Some((s, n)) => n <= 1_000_000_000 && forall|whole: nat|
                capped(whole) == count ==> #[trigger] closed((secs as nat, nanos as nat), whole, unit@)
                    == Some((s as nat, n as nat)),
            None => forall|whole: nat|
                capped(whole) == count ==> #[trigger] closed((secs as nat, nanos as nat), whole, unit@)
                    is None,
        },
{
    let length = unit_nanos(unit);
    let ghost sum = (secs as nat, nanos as nat);
    if length == 0 {
        return None;
    }
    if count > u64::MAX as u128 {
        proof {
            assert forall|whole: nat| capped(whole) == count implies (#[trigger] closed(
                sum,
                whole,
                unit@,
            )) is None by {
                lemma_too_many(sum, whole, length as nat);
            }
        }
        return None;
    }
    let length = length as u128;
    let mut all_secs: u128 = secs as u128;
    let mut all_nanos: u128 = nanos as u128;
    if length < 1_000_000_000 {
        proof {
            assert(0 <= count * length <= 0x1_0000_0000_0000_0000 * 1_000_000_000)
                by (nonlinear_arith)
                requires
                    0 <= count <= 0x1_0000_0000_0000_0000,
                    0 <= length < 1_000_000_000,
            ;
        }
        all_nanos = all_nanos + count * length;
    } else {
        let unit_secs = length / 1_000_000_000;
        proof {
            assert(0 <= count * unit_secs <= 0x1_0000_0000_0000_0000 * 31_557_600)
                by (nonlinear_arith)
                requires
                    0 <= count <= 0x1_0000_0000_0000_0000,
                    0 <= unit_secs <= 31_557_600,
            ;
        }
        all_secs = all_secs + count * unit_secs;
    }
    if all_nanos > u64::MAX as u128 {
        return None;
    }
    if all_nanos > 1_000_000_000 {
        all_secs = all_secs + all_nanos / 1_000_000_000;
        all_nanos = all_nanos % 1_000_000_000;
    }
    if all_secs > u64::MAX as u128 {
        return None;
    }
    Some((all_secs as u64, all_nanos as u64))
}

/// Where in a list of spans a text has been read to.
#[derive(Clone, Copy, PartialEq, Eq, Structural)]
enum Place {
    Gap,
    Number,
    Unit,
    Refused,
}

/// Reading has come to `place`, with this sum, number and unit.
spec fn at(
    progress: Progress,
    place: Place,
    secs: u64,
    nanos: u64,
    any: bool,
    count: u128,
    unit: Seq<char>,
) -> bool {
    match progress {
        Progress::Gap { sum, any: complete } => {
            &&& place == Place::Gap
            &&& sum == (secs as nat, nanos as nat)
            &&& complete == any
        },
        Progress::Number { sum, count: whole } => {
            &&& place == Place::Number
            &&& sum == (secs as nat, nanos as nat)
            &&& capped(whole) == count
        },
        Progress::Unit { sum, count: whole, unit: letters } => {
            &&& place == Place::Unit
            &&& sum == (secs as nat, nanos as nat)
            &&& capped(whole) == count
            &&& letters == unit
        },
        Progress::Refused => place == Place::Refused,
    }
}

/// The seconds and nanoseconds that a text makes, if it is a list of spans that can be added up.
fn scan(s: &str) -> (r: Option<(u64, u64)>)
    ensures
        sum(s@) == (match r {
            Some((secs, nanos)) => Some((secs as nat, nanos as nat)),
            None => None,
        }),
{
    let text = chars(s);
    let mut place = Place::Gap;
    let mut secs: u64 = 0;
    let mut nanos: u64 = 0;
    let mut any = false;
    let mut count: u128 = 0;
    let mut unit: Vec<char> = Vec::new();
    let mut i: usize = 0;
    proof {
        assert(text@.take(0) =~= Seq::<char>::empty());
    }
    while i < text.len()
        invariant
            i <= text.len(),
            nanos <= 1_000_000_000,
            count <= u64::MAX + 1,
            at(progress(text@.take(i as int)), place, secs, nanos, any, count, unit@),
        decreases text.len() - i,
    {
        let c = text[i];
        proof {
            assert(text@.take(i + 1).drop_last() =~= text@.take(i as int));
            assert(text@.take(i + 1).last() == c);
        }
        let is_digit = '0' <= c && c <= '9';
        let is_letter = ('a' <= c && c <= 'z') || ('A' <= c && c <= 'Z');
        let digit_value: u128 = if is_digit {
            c as u128 - '0' as u128
        } else {
            0
        };
        let is_blank = is_white_space(c);
        match place {
            Place::Gap => {
                if is_digit {
                    place = Place::Number;
                    count = digit_value;
                } else if !is_blank {
                    place = Place::Refused;
                }
            },
            Place::Number => {
                if is_digit {
                    let extended: u128 = 10 * count + digit_value;
                    count = if extended > u64::MAX as u128 {
                        u64::MAX as u128 + 1
                    } else {
                        extended
                    };
                } else if is_blank {
                } else if is_letter {
                    place = Place::Unit;
                    unit = Vec::new();
                    unit.push(c);
                    proof {
                        assert(unit@ =~= seq![c]);
                    }
                } else {
                    place = Place::Refused;
                }
            },
            Place::Unit => {
                if is_letter {
                    unit.push(c);
                } else if is_digit || is_blank {
                    match close(secs, nanos, count, &unit) {
                        Some((more_secs, more_nanos)) => {
                            secs = more_secs;
                            nanos = more_nanos;
                            if is_digit {
                                place = Place::Number;
                                count = digit_value;
                            } else {
                                place = Place::Gap;
                                any = true;
                            }
                        },
                        None => {
                            place = Place::Refused;
                        },
                    }
                } else {
                    place = Place::Refused;
                }
            },
            Place::Refused => {},
        }
        i = i + 1;
    }
    proof {
        assert(text@.take(i as int) =~= s@);
    }
    match place {
        Place::Gap => if any {
            Some((secs, nanos))
        } else {
            None
        },
        Place::Unit => close(secs, nanos, count, &unit),
        _ => None,
    }
}

/// Whether a text may be given to [`RetainFor::from_str`](crate::retain::RetainFor::from_str).
pub fn is_readable(s: &str) -> (b: bool)
    ensures
        b == crate::duration::readable(s@),
{
    let found = scan(s);
    let too_long = match found {
        Some((secs, nanos)) => secs == u64::MAX && nanos == 1_000_000_000,
        None => false,
    };
    proof {
        if too_long {
            let (list, tail) = lemma_scan_sum(s@);
            assert(crate::duration::written(s@, list, tail));
        } else {
            assert forall|list: Seq<WrittenSpan>, tail: Seq<char>| #[trigger]
                crate::duration::written(s@, list, tail) implies crate::duration::tally(list)
                != Some((u64::MAX as nat, 1_000_000_000nat)) by {
                lemma_scan_written(s@, list, tail);
            }
        }
    }
    !too_long
}

} // verus!
