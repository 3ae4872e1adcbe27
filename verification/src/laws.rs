//! What holds of the configuration as a whole.

use crate::duration::{DurationError, DurationErrorModel, WrittenSpan};
use crate::file::ConfigFileModel;
use crate::options::{ColorToggles, PaletteChoice, SettledBy, ViewOptionsModel};
use crate::palette::Palette;
use crate::retain::RetainFor;
use vstd::prelude::*;

verus! {

/// Overriding is associative: it makes no difference whether the files are merged first, or the
/// command line with one of them.
pub proof fn law_merge_associative(
    home: ViewOptionsModel,
    current: ViewOptionsModel,
    command_line: ViewOptionsModel,
)
    ensures
        home.overridden_by(current).overridden_by(command_line) == home.overridden_by(
            current.overridden_by(command_line),
        ),
{
}

/// Options that are all unset override nothing, and are overridden by everything.
pub proof fn law_merge_unset(options: ViewOptionsModel)
    ensures
        options.overridden_by(ViewOptionsModel::unset()) == options,
        ViewOptionsModel::unset().overridden_by(options) == options,
{
}

/// Overriding options by themselves, or by what overrode them before, changes nothing.
pub proof fn law_merge_idempotent(base: ViewOptionsModel, over: ViewOptionsModel)
    ensures
        over.overridden_by(over) == over,
        base.overridden_by(over).overridden_by(over) == base.overridden_by(over),
{
}

/// Options that are all set hold against any base.
pub proof fn law_merge_complete(base: ViewOptionsModel, over: ViewOptionsModel)
    requires
        over.complete(),
    ensures
        base.overridden_by(over) == over,
{
}

/// An option comes from the command line if that sets it, else from the file in the current
/// directory if that sets it, else from the file in the user's configuration directory.
pub proof fn law_precedence(
    home: ViewOptionsModel,
    current: ViewOptionsModel,
    command_line: ViewOptionsModel,
)
    ensures
        ({
            let r = home.overridden_by(current).overridden_by(command_line);
            &&& r.no_colors == first_set(
                command_line.no_colors,
                current.no_colors,
                home.no_colors,
            )
            &&& r.lang == first_set(command_line.lang, current.lang, home.lang)
            &&& r.ascii_only == first_set(
                command_line.ascii_only,
                current.ascii_only,
                home.ascii_only,
            )
            &&& r.truecolor == first_set(
                command_line.truecolor,
                current.truecolor,
                home.truecolor,
            )
            &&& r.palette == first_set(command_line.palette, current.palette, home.palette)
            &&& r.toggles.color_durations == first_set(
                command_line.toggles.color_durations,
                current.toggles.color_durations,
                home.toggles.color_durations,
            )
            &&& r.toggles.color_terminated == first_set(
                command_line.toggles.color_terminated,
                current.toggles.color_terminated,
                home.toggles.color_terminated,
            )
        }),
{
}

/// The first of three settings that is set.
pub open spec fn first_set<T>(first: Option<T>, second: Option<T>, third: Option<T>) -> Option<T> {
    if first is Some {
        first
    } else if second is Some {
        second
    } else {
        third
    }
}

/// A file that holds no tables overrides nothing: reading it is like having no such file.
pub proof fn law_empty_file(options: ViewOptionsModel)
    ensures
        options.overridden_by((ConfigFileModel { charset: None, colors: None }).view_options())
            == options,
{
}

/// A generated file lacks nothing: both tables are there, with every setting in them.
pub proof fn law_generated_file_complete(command_line: ViewOptionsModel)
    ensures
        ({
            let file = command_line.generated_file();
            &&& file.charset matches Some(charset) && charset.lang is Some && charset.ascii_only
                is Some
            &&& file.colors matches Some(colors) && colors.enabled is Some && colors.truecolor
                is Some && colors.palette is Some && (colors.enable matches Some(toggles)
                && toggles.color_durations is Some && toggles.color_terminated is Some)
        }),
{
}

/// What is read back from a generated file are the default options, with no color coding disabled,
/// overridden by the command line.
pub proof fn law_generated_file_reads_back(command_line: ViewOptionsModel)
    ensures
        command_line.generated_file().view_options() == (ViewOptionsModel {
            toggles: ColorToggles { color_durations: Some(false), color_terminated: Some(false) },
            ..ViewOptionsModel::defaults()
        }).overridden_by(command_line),
{
}

/// A generated file holds all that the command line asked for: the same command line changes
/// nothing of what is read back from it.
pub proof fn law_generated_file_in_place(command_line: ViewOptionsModel)
    ensures
        command_line.generated_file().view_options().overridden_by(command_line)
            == command_line.generated_file().view_options(),
{
}

/// A generated file disables the color coding of an individual UI element if and only if the
/// command line does.
pub proof fn law_generated_file_toggles(command_line: ViewOptionsModel)
    ensures
        ({
            let toggles = command_line.generated_file().view_options().toggles;
            &&& toggles.color_durations == Some(true) <==> command_line.toggles.color_durations
                == Some(true)
            &&& toggles.color_terminated == Some(true) <==> command_line.toggles.color_terminated
                == Some(true)
        }),
{
}

/// Options of a view are read back from a file that holds them, with the toggles turned to the
/// sense that they have there. This leaves out toggles that are not set: what a file does not
/// enable, it disables.
pub proof fn law_file_reads_back(options: ViewOptionsModel)
    requires
        options.toggles.color_durations is Some,
        options.toggles.color_terminated is Some,
    ensures
        (ViewOptionsModel { toggles: options.toggles.turned(), ..options }).config_file(
        ).view_options() == options,
{
}

/// Disabled colors win over every other option.
pub proof fn law_no_colors_wins(options: ViewOptionsModel)
    requires
        options.no_colors == Some(true),
    ensures
        options.palette_choice() == PaletteChoice::Settled(Palette::NoColors, SettledBy::NoColors),
{
}

/// A palette that is set is used, unless colors are disabled.
pub proof fn law_set_palette_used(options: ViewOptionsModel, palette: Palette)
    requires
        options.no_colors != Some(true),
        options.palette == Some(palette),
    ensures
        options.palette_choice() == PaletteChoice::Settled(palette, SettledBy::Palette),
{
}

/// True colors that the terminal advertises are used, unless colors are disabled or a palette is
/// set.
pub proof fn law_true_color_used(options: ViewOptionsModel)
    requires
        options.no_colors != Some(true),
        options.palette is None,
        options.truecolor == Some(true),
    ensures
        options.palette_choice() == PaletteChoice::Settled(Palette::All, SettledBy::TrueColor),
{
}

/// The terminfo database is asked if and only if colors are not disabled, no palette is set and
/// true colors are not advertised.
pub proof fn law_terminfo_last(options: ViewOptionsModel)
    ensures
        options.palette_choice() == PaletteChoice::AskTerminfo <==> options.no_colors != Some(true)
            && options.palette is None && options.truecolor != Some(true),
{
}

/// A view that is held to ASCII does not use UTF-8, whatever its language.
pub proof fn law_ascii_only(options: ViewOptionsModel)
    requires
        options.ascii_only == Some(true),
    ensures
        !options.utf8(),
{
}

/// Nothing but `none`, in any case, sets no limit.
pub proof fn law_none_sets_no_limit(
    s: Seq<char>,
    read: Result<(u64, u32), DurationErrorModel>,
)
    ensures
        crate::retain::retain_text(s, read) == Ok::<RetainFor, DurationErrorModel>(RetainFor(None))
            <==> crate::text::same_ignoring_case(s, "none"@),
{
}

/// A list of spans starts with white space and a digit.
pub(crate) proof fn lemma_list_start(list: Seq<WrittenSpan>)
    requires
        list.len() > 0,
        forall|i: int| 0 <= i < list.len() ==> (#[trigger] list[i]).wf(),
    ensures
        list[0].gap.len() < crate::duration::list_text(list).len(),
        crate::duration::list_text(list).take(list[0].gap.len() as int) == list[0].gap,
        crate::duration::digit(crate::duration::list_text(list)[list[0].gap.len() as int]),
    decreases list.len(),
{
    let before = list.drop_last();
    let text = crate::duration::list_text(list);
    let gap = list[0].gap;
    if before.len() > 0 {
        assert forall|i: int| 0 <= i < before.len() implies (#[trigger] before[i]).wf() by {
            assert(before[i] == list[i]);
        }
        lemma_list_start(before);
        assert(before[0] == list[0]);
        assert(text.take(gap.len() as int) =~= crate::duration::list_text(before).take(
            gap.len() as int,
        ));
    } else {
        assert(crate::duration::list_text(before) =~= Seq::empty());
        assert(list[0].wf());
        assert(text =~= list[0].text());
        assert(text.take(gap.len() as int) =~= gap);
        assert(text[gap.len() as int] == list[0].digits[0]);
    }
}

/// A text that is read consists of digits, letters and white space, and the first and the last
/// character of it that are no white space are a digit and a letter: it starts with a number and
/// ends in a unit. So an empty text is refused, and a number alone, and a word before a span.
pub proof fn law_read_text(s: Seq<char>)
    requires
        crate::duration::reads(s),
    ensures
        forall|i: int|
            0 <= i < s.len() ==> crate::duration::digit(#[trigger] s[i]) || crate::duration::letter(
                s[i],
            ) || crate::text::white_space(s[i]),
        crate::text::trimmed(s).len() > 0,
        crate::duration::digit(crate::text::trimmed(s).first()),
        crate::duration::letter(crate::text::trimmed(s).last()),
{
    let (list, tail) = choose|list: Seq<WrittenSpan>, tail: Seq<char>| #[trigger]
        crate::duration::written(s, list, tail) && crate::duration::tally(list) is Some;
    let text = crate::duration::list_text(list);
    lemma_list_characters(list);
    assert forall|i: int| 0 <= i < s.len() implies crate::duration::digit(#[trigger] s[i])
        || crate::duration::letter(s[i]) || crate::text::white_space(s[i]) by {
        if i < text.len() {
            assert(s[i] == text[i]);
        } else {
            assert(s[i] == tail[i - text.len()]);
        }
    }
    lemma_list_start(list);
    let gap = list[0].gap;
    assert(list[0].wf());
    let core = text.skip(gap.len() as int);
    assert(gap + core + tail =~= s) by {
        assert(text =~= gap + core);
    }
    law_trim_surrounding(gap, core, tail);
    assert(core.first() == text[gap.len() as int]);
    assert(core.last() == text.last());
    assert(crate::text::trimmed(core) == core);
}

/// A list of spans consists of digits, letters and white space, and ends in a letter.
proof fn lemma_list_characters(list: Seq<WrittenSpan>)
    requires
        list.len() > 0,
        forall|i: int| 0 <= i < list.len() ==> (#[trigger] list[i]).wf(),
    ensures
        forall|i: int|
            0 <= i < crate::duration::list_text(list).len() ==> crate::duration::digit(
                #[trigger] crate::duration::list_text(list)[i],
            ) || crate::duration::letter(crate::duration::list_text(list)[i])
                || crate::text::white_space(crate::duration::list_text(list)[i]),
        crate::duration::list_text(list).len() > 0,
        crate::duration::letter(crate::duration::list_text(list).last()),
    decreases list.len(),
{
    let before = list.drop_last();
    let start = crate::duration::list_text(before);
    let text = crate::duration::list_text(list);
    let span = list.last();
    assert(span == list[list.len() - 1]);
    crate::scan::lemma_unit_letters(span.unit);
    if before.len() > 0 {
        assert forall|i: int| 0 <= i < before.len() implies (#[trigger] before[i]).wf() by {
            assert(before[i] == list[i]);
        }
        lemma_list_characters(before);
    }
    assert forall|i: int| 0 <= i < text.len() implies crate::duration::digit(#[trigger] text[i])
        || crate::duration::letter(text[i]) || crate::text::white_space(text[i]) by {
        let j = i - start.len();
        let (g, d) = (span.gap.len() as int, span.digits.len() as int);
        if j < 0 {
            assert(text[i] == start[i]);
        } else if j < g {
            assert(text[i] == span.gap[j]);
        } else if j < g + d {
            assert(text[i] == span.digits[j - g]);
        } else {
            assert(text[i] == span.unit[j - g - d]);
        }
    }
    assert(text.last() == span.unit[span.unit.len() - 1]);
}

/// `none`, in any case, may always be read, and is no list of time spans.
pub proof fn law_none_readable(s: Seq<char>)
    requires
        crate::text::same_ignoring_case(s, "none"@),
    ensures
        crate::duration::readable(s),
        !crate::duration::reads(s),
{
    crate::retain::lemma_none_no_digits(s);
    assert forall|list: Seq<WrittenSpan>, tail: Seq<char>| !#[trigger] crate::duration::written(
        s,
        list,
        tail,
    ) by {
        if crate::duration::written(s, list, tail) {
            lemma_list_start(list);
            let at = list[0].gap.len() as int;
            assert(s[at] == crate::duration::list_text(list)[at]);
        }
    }
}

/// A unit of a second or more has no fractions of one.
pub(crate) proof fn lemma_unit_secs(unit: Seq<char>)
    ensures
        crate::duration::unit_length(unit) >= 1_000_000_000 ==> crate::duration::unit_length(unit)
            % 1_000_000_000 == 0,
{
}

/// Adding a span adds its length, and never leaves more than a second of nanoseconds.
pub(crate) proof fn lemma_added(sum: (nat, nat), count: nat, unit: nat)
    requires
        sum.1 <= 1_000_000_000,
        unit >= 1_000_000_000 ==> unit % 1_000_000_000 == 0,
    ensures
        crate::duration::added(sum, count, unit) matches Some(more) ==> {
            &&& more.1 <= 1_000_000_000
            &&& more.0 * 1_000_000_000 + more.1 == sum.0 * 1_000_000_000 + sum.1 + count * unit
        },
        (unit < 1_000_000_000 ==> count * unit <= u64::MAX - 1_000_000_000) && sum.0 * 1_000_000_000
            + sum.1 + count * unit < (u64::MAX + 1) * 1_000_000_000 ==> crate::duration::added(
            sum,
            count,
            unit,
        ) is Some,
{
    if unit >= 1_000_000_000 {
        let secs = unit / 1_000_000_000;
        assert(count * unit == count * secs * 1_000_000_000) by (nonlinear_arith)
            requires
                unit == secs * 1_000_000_000,
        ;
    }
}

/// What a list of spans adds up to is its length.
pub(crate) proof fn lemma_tally(list: Seq<WrittenSpan>)
    ensures
        crate::duration::tally(list) matches Some(sum) ==> sum.1 <= 1_000_000_000 && sum.0
            * 1_000_000_000 + sum.1 == crate::duration::list_length(list),
    decreases list.len(),
{
    if list.len() > 0 {
        lemma_tally(list.drop_last());
        if let Some(sum) = crate::duration::tally(list.drop_last()) {
            lemma_unit_secs(list.last().unit);
            lemma_added(
                sum,
                crate::duration::number(list.last().digits),
                crate::duration::unit_length(list.last().unit),
            );
        }
    }
}

/// No overflow comes near: what is counted in fractions of a second stays a second short of
/// `u64::MAX` nanoseconds, and the whole list below 2^64 seconds.
pub open spec fn moderate(list: Seq<WrittenSpan>) -> bool {
    &&& forall|i: int|
        0 <= i < list.len() && crate::duration::unit_length((#[trigger] list[i]).unit)
            < 1_000_000_000 ==> list[i].length() <= u64::MAX - 1_000_000_000
    &&& crate::duration::list_length(list) < (u64::MAX + 1) * 1_000_000_000
}

/// A moderate list of spans can be added up.
proof fn lemma_moderate(list: Seq<WrittenSpan>)
    requires
        moderate(list),
    ensures
        crate::duration::tally(list) is Some,
    decreases list.len(),
{
    if list.len() > 0 {
        let before = list.drop_last();
        assert forall|i: int|
            0 <= i < before.len() && crate::duration::unit_length((#[trigger] before[i]).unit)
                < 1_000_000_000 implies before[i].length() <= u64::MAX - 1_000_000_000 by {
            assert(before[i] == list[i]);
        }
        lemma_moderate(before);
        lemma_tally(before);
        assert(list.last() == list[list.len() - 1]);
        lemma_unit_secs(list.last().unit);
        lemma_added(
            crate::duration::tally(before)->0,
            crate::duration::number(list.last().digits),
            crate::duration::unit_length(list.last().unit),
        );
    }
}

/// A moderate list of time spans is read, and may be.
pub proof fn law_moderate_list_read(s: Seq<char>, list: Seq<WrittenSpan>, tail: Seq<char>)
    requires
        crate::duration::written(s, list, tail),
        moderate(list),
    ensures
        crate::duration::reads(s),
        crate::duration::readable(s),
{
    lemma_moderate(list);
    lemma_tally(list);
    assert forall|other: Seq<WrittenSpan>, end: Seq<char>| #[trigger]
        crate::duration::written(s, other, end) implies crate::duration::tally(other)
        != Some((u64::MAX as nat, 1_000_000_000nat)) by {
        crate::scan::lemma_scan_written(s, list, tail);
        crate::scan::lemma_scan_written(s, other, end);
    }
}

/// A text that is read has one length: that of any list of time spans which it can be taken for.
pub proof fn law_one_length(s: Seq<char>, list: Seq<WrittenSpan>, tail: Seq<char>)
    requires
        crate::duration::reads(s),
        crate::duration::written(s, list, tail),
    ensures
        crate::duration::has_length(s, crate::duration::list_length(list)),
        crate::duration::tally(list) is Some,
{
    let (first, end) = choose|first: Seq<WrittenSpan>, end: Seq<char>| #[trigger]
        crate::duration::written(s, first, end) && crate::duration::tally(first) is Some;
    crate::scan::lemma_scan_written(s, first, end);
    crate::scan::lemma_scan_written(s, list, tail);
    lemma_tally(list);
    assert forall|other: Seq<WrittenSpan>, end: Seq<char>| #[trigger]
        crate::duration::written(s, other, end) implies crate::duration::list_length(list)
        == crate::duration::list_length(other) by {
        crate::scan::lemma_scan_written(s, other, end);
        lemma_tally(other);
    }
}

/// A number with a suffix sets a limit, unless it is too large: that number of units. Suffixes of the
/// same unit agree.
pub proof fn law_suffixes_agree(
    digits: Seq<char>,
    x: Seq<char>,
    y: Seq<char>,
    with_x: Result<RetainFor, DurationError>,
    with_y: Result<RetainFor, DurationError>,
)
    requires
        crate::duration::written_number(digits),
        crate::duration::unit_length(x) > 0,
        crate::duration::unit_length(y) == crate::duration::unit_length(x),
        crate::duration::added(
            (0, 0),
            crate::duration::number(digits),
            crate::duration::unit_length(x),
        ) is Some,
        crate::retain::read_as(digits + x, with_x),
        crate::retain::read_as(digits + y, with_y),
    ensures
        with_x == with_y,
        with_x matches Ok(RetainFor(Some(span))) && span.total() == crate::duration::number(digits)
            * crate::duration::unit_length(x),
{
    lemma_one_span(digits, x);
    lemma_one_span(digits, y);
    lemma_sets_limit(digits + x, with_x);
    lemma_sets_limit(digits + y, with_y);
}

/// A list of time spans that can be added up sets a limit.
proof fn lemma_sets_limit(s: Seq<char>, r: Result<RetainFor, DurationError>)
    requires
        crate::duration::reads(s),
        crate::retain::read_as(s, r),
    ensures
        r matches Ok(RetainFor(Some(_))),
{
    if crate::text::same_ignoring_case(s, "none"@) {
        law_none_readable(s);
    }
}

/// A number with a unit is a list of one span.
proof fn lemma_one_span(digits: Seq<char>, unit: Seq<char>)
    requires
        crate::duration::written_number(digits),
        crate::duration::unit_length(unit) > 0,
        crate::duration::added(
            (0, 0),
            crate::duration::number(digits),
            crate::duration::unit_length(unit),
        ) is Some,
    ensures
        crate::duration::reads(digits + unit),
        forall|length: nat| #[trigger]
            crate::duration::has_length(digits + unit, length) ==> length
                == crate::duration::number(digits) * crate::duration::unit_length(unit),
{
    let span = WrittenSpan { gap: Seq::empty(), digits, unit };
    let list = seq![span];
    let none: Seq<WrittenSpan> = Seq::empty();
    assert(list.drop_last() =~= none);
    assert(crate::duration::list_text(none) =~= Seq::empty());
    assert(crate::duration::tally(none) == Some((0nat, 0nat)));
    assert(crate::duration::list_length(none) == 0);
    assert(digits + unit =~= crate::duration::list_text(list) + Seq::empty());
    assert(crate::duration::written(digits + unit, list, Seq::empty()));
}

/// The text and the length of two lists of spans in a row.
proof fn lemma_lists_in_a_row(a: Seq<WrittenSpan>, b: Seq<WrittenSpan>)
    ensures
        crate::duration::list_text(a + b) == crate::duration::list_text(a)
            + crate::duration::list_text(b),
        crate::duration::list_length(a + b) == crate::duration::list_length(a)
            + crate::duration::list_length(b),
    decreases b.len(),
{
    if b.len() == 0 {
        assert(a + b =~= a);
        assert(crate::duration::list_text(a) + crate::duration::list_text(b)
            =~= crate::duration::list_text(a));
    } else {
        assert((a + b).drop_last() =~= a + b.drop_last());
        lemma_lists_in_a_row(a, b.drop_last());
        assert(crate::duration::list_text(a + b) =~= crate::duration::list_text(a)
            + crate::duration::list_text(b));
    }
}

/// White space before a list of spans belongs to its first span.
pub(crate) proof fn lemma_gap_before(gap: Seq<char>, list: Seq<WrittenSpan>)
    requires
        list.len() > 0,
    ensures
        crate::duration::list_text(
            list.update(0, WrittenSpan { gap: gap + list[0].gap, ..list[0] }),
        ) == gap + crate::duration::list_text(list),
        crate::duration::list_length(
            list.update(0, WrittenSpan { gap: gap + list[0].gap, ..list[0] }),
        ) == crate::duration::list_length(list),
        crate::duration::tally(
            list.update(0, WrittenSpan { gap: gap + list[0].gap, ..list[0] }),
        ) == crate::duration::tally(list),
    decreases list.len(),
{
    let first = WrittenSpan { gap: gap + list[0].gap, ..list[0] };
    let moved = list.update(0, first);
    let before = list.drop_last();
    if before.len() == 0 {
        let none: Seq<WrittenSpan> = Seq::empty();
        assert(before =~= none);
        assert(moved.drop_last() =~= none);
        assert(crate::duration::list_text(none) =~= Seq::empty());
        assert(crate::duration::list_text(moved) =~= gap + crate::duration::list_text(list));
    } else {
        lemma_gap_before(gap, before);
        assert(moved.drop_last() =~= before.update(0, first));
        assert(crate::duration::list_text(moved) =~= gap + crate::duration::list_text(list));
    }
}

/// Two lists of time spans with white space or nothing between them are one list.
pub(crate) proof fn lemma_joined(
    s: Seq<char>,
    a: Seq<WrittenSpan>,
    a_tail: Seq<char>,
    gap: Seq<char>,
    t: Seq<char>,
    b: Seq<WrittenSpan>,
    b_tail: Seq<char>,
) -> (joined: Seq<WrittenSpan>)
    requires
        crate::duration::written(s, a, a_tail),
        crate::duration::written(t, b, b_tail),
        crate::text::blank(gap),
    ensures
        crate::duration::written(s + gap + t, joined, b_tail),
        crate::duration::list_length(joined) == crate::duration::list_length(a)
            + crate::duration::list_length(b),
        moderate(a + b) ==> moderate(joined),
{
    let space = a_tail + gap;
    assert(b[0].wf());
    let first = WrittenSpan { gap: space + b[0].gap, ..b[0] };
    let c = b.update(0, first);
    lemma_gap_before(space, b);
    lemma_lists_in_a_row(a, b);
    lemma_lists_in_a_row(a, c);
    let joined = a + c;
    assert(s + gap + t =~= crate::duration::list_text(joined) + b_tail);
    assert forall|i: int| 0 <= i < joined.len() implies (#[trigger] joined[i]).wf() by {
        if i < a.len() {
            assert(joined[i] == a[i]);
        } else if i > a.len() {
            assert(joined[i] == b[i - a.len()]);
        }
    }
    if moderate(a + b) {
        assert forall|i: int|
            0 <= i < joined.len() && crate::duration::unit_length((#[trigger] joined[i]).unit)
                < 1_000_000_000 implies joined[i].length() <= u64::MAX - 1_000_000_000 by {
            assert((a + b)[i].unit == joined[i].unit && (a + b)[i].digits == joined[i].digits);
        }
    }
    joined
}

/// Two lists of time spans, with or without white space between them, are read and may be, as long
/// as both together are moderate.
pub proof fn law_combination_read(
    s: Seq<char>,
    a: Seq<WrittenSpan>,
    a_tail: Seq<char>,
    gap: Seq<char>,
    t: Seq<char>,
    b: Seq<WrittenSpan>,
    b_tail: Seq<char>,
)
    requires
        crate::duration::written(s, a, a_tail),
        crate::duration::written(t, b, b_tail),
        crate::text::blank(gap),
        moderate(a + b),
    ensures
        crate::duration::reads(s + gap + t),
        crate::duration::readable(s + gap + t),
{
    let joined = lemma_joined(s, a, a_tail, gap, t, b, b_tail);
    law_moderate_list_read(s + gap + t, joined, b_tail);
}

/// A combination of texts, with or without white space between them, sets the sum of the limits
/// that they set. This leaves out texts that are refused, as is a combination that is too long.
pub proof fn law_limits_add_up(
    s: Seq<char>,
    gap: Seq<char>,
    t: Seq<char>,
    of_s: Result<RetainFor, DurationError>,
    of_t: Result<RetainFor, DurationError>,
    of_both: Result<RetainFor, DurationError>,
)
    requires
        crate::duration::reads(s),
        crate::duration::reads(t),
        crate::duration::reads(s + gap + t),
        crate::text::blank(gap),
        crate::retain::read_as(s, of_s),
        crate::retain::read_as(t, of_t),
        crate::retain::read_as(s + gap + t, of_both),
    ensures
        of_s matches Ok(RetainFor(Some(x))) && of_t matches Ok(RetainFor(Some(y)))
            && of_both matches Ok(RetainFor(Some(z))) && z.total() == x.total() + y.total(),
{
    let (a, a_tail) = choose|list: Seq<WrittenSpan>, tail: Seq<char>| #[trigger]
        crate::duration::written(s, list, tail) && crate::duration::tally(list) is Some;
    let (b, b_tail) = choose|list: Seq<WrittenSpan>, tail: Seq<char>| #[trigger]
        crate::duration::written(t, list, tail) && crate::duration::tally(list) is Some;
    let joined = lemma_joined(s, a, a_tail, gap, t, b, b_tail);
    lemma_sets_limit(s, of_s);
    lemma_sets_limit(t, of_t);
    lemma_sets_limit(s + gap + t, of_both);
}

/// White space around a text does not outlast trimming.
pub proof fn law_trim_surrounding(before: Seq<char>, s: Seq<char>, after: Seq<char>)
    requires
        crate::text::blank(before),
        crate::text::blank(after),
    ensures
        crate::text::trimmed(before + s + after) == crate::text::trimmed(s),
    decreases before.len() + after.len(),
{
    let whole = before + s + after;
    if before.len() > 0 {
        assert(whole.first() == before[0]);
        assert(whole.drop_first() =~= before.drop_first() + s + after);
        law_trim_surrounding(before.drop_first(), s, after);
    } else if after.len() > 0 {
        lemma_trim_last(s, after);
    } else {
        assert(whole =~= s);
    }
}

/// The last character of a text that ends in white space does not outlast trimming.
proof fn lemma_trim_last(s: Seq<char>, after: Seq<char>)
    requires
        crate::text::blank(after),
    ensures
        crate::text::trimmed(s + after) == crate::text::trimmed(s),
    decreases s.len() + after.len(),
{
    let whole = s + after;
    if after.len() == 0 {
        assert(whole =~= s);
    } else if s.len() > 0 && crate::text::white_space(s.first()) {
        assert(whole.drop_first() =~= s.drop_first() + after);
        lemma_trim_last(s.drop_first(), after);
    } else if s.len() == 0 {
        assert(whole =~= after);
        assert(after.drop_first() =~= s + after.drop_first());
        lemma_trim_last(s, after.drop_first());
    } else {
        assert(whole.last() == after.last());
        assert(whole.drop_last() =~= s + after.drop_last());
        lemma_trim_last(s, after.drop_last());
    }
}

/// Trimming does not depend on the case of ASCII letters.
proof fn lemma_trim_ignores_case(s: Seq<char>, t: Seq<char>)
    requires
        crate::text::same_ignoring_case(s, t),
    ensures
        crate::text::same_ignoring_case(crate::text::trimmed(s), crate::text::trimmed(t)),
    decreases s.len(),
{
    let (a, b) = (crate::text::ascii_lowered(s), crate::text::ascii_lowered(t));
    assert(a.len() == s.len() && b.len() == t.len());
    if s.len() > 0 {
        assert(a[0] == b[0] && a.last() == b.last());
        assert(crate::text::ascii_lowered(s.drop_first()) =~= a.drop_first());
        assert(crate::text::ascii_lowered(t.drop_first()) =~= b.drop_first());
        assert(crate::text::ascii_lowered(s.drop_last()) =~= a.drop_last());
        assert(crate::text::ascii_lowered(t.drop_last()) =~= b.drop_last());
        if crate::text::white_space(s.first()) {
            lemma_trim_ignores_case(s.drop_first(), t.drop_first());
        } else if crate::text::white_space(s.last()) {
            lemma_trim_ignores_case(s.drop_last(), t.drop_last());
        }
    }
}

/// Whether true colors are advertised depends neither on case nor on white space around the value.
pub proof fn law_true_color_text(before: Seq<char>, s: Seq<char>, after: Seq<char>, t: Seq<char>)
    requires
        crate::text::blank(before),
        crate::text::blank(after),
        crate::text::same_ignoring_case(s, t),
    ensures
        crate::options::advertises_true_color(before + s + after)
            == crate::options::advertises_true_color(t),
{
    law_trim_surrounding(before, s, after);
    lemma_trim_ignores_case(s, t);
}

/// White space around what `tput colors` prints, such as the end of its line, does not count.
pub proof fn law_tput_surrounding(
    stdout: Seq<u8>,
    before: Seq<char>,
    name: Seq<char>,
    after: Seq<char>,
    palette: Palette,
)
    requires
        vstd::utf8::valid_utf8(stdout),
        vstd::utf8::decode_utf8(stdout) == before + name + after,
        crate::text::blank(before),
        crate::text::blank(after),
        crate::palette::named_palette(crate::text::trimmed(name)) == Some(palette),
    ensures
        crate::palette::tput_palette(Some(stdout)) == palette,
{
    law_trim_surrounding(before, name, after);
}

} // verus!
