//! How long completed tasks and dropped resources stay on display.

use crate::duration::{parse_duration, DurationError, DurationErrorModel, TimeSpan};
use crate::scan::is_readable;
use crate::text::{chars, eq_ignore_ascii_case};
use vstd::prelude::*;

verus! {

/// How long to keep displaying completed tasks and dropped resources; `None` keeps them for good.
#[derive(Clone, Copy, Debug, PartialEq, Eq, Structural)]
pub struct RetainFor(pub Option<TimeSpan>);

impl RetainFor {
    /// A span that is set is a proper one.
    pub open spec fn wf(self) -> bool {
        self.0 matches Some(span) ==> span.wf()
    }
}

/// How long to retain, where a text other than `none` reads as `read`.
pub open spec fn retained(read: Result<(u64, u32), DurationErrorModel>) -> Result<
    RetainFor,
    DurationErrorModel,
> {
    match read {
        Ok((secs, nanos)) => Ok(RetainFor(Some(TimeSpan { secs, nanos }))),
        Err(error) => Err(error),
    }
}

/// What `s` says of how long to retain, where `read` is the length of time that it reads as:
/// `none`, in any case, sets no limit.
pub open spec fn retain_text(
    s: Seq<char>,
    read: Result<(u64, u32), DurationErrorModel>,
) -> Result<RetainFor, DurationErrorModel> {
    if crate::text::same_ignoring_case(s, "none"@) {
        Ok(RetainFor(None))
    } else {
        retained(read)
    }
}

/// The outcome of reading how long to retain, with what the error says.
pub open spec fn retain_outcome(r: Result<RetainFor, DurationError>) -> Result<
    RetainFor,
    DurationErrorModel,
> {
    match r {
        Ok(retain_for) => Ok(retain_for),
        Err(error) => Err(error@),
    }
}

/// `r` is what `s` says of how long to retain: what it reads as, and an error exactly where it is
/// neither `none` nor a list of time spans that can be added up. A limit is as long as the spans.
pub open spec fn read_as(s: Seq<char>, r: Result<RetainFor, DurationError>) -> bool {
    &&& retain_outcome(r) == retain_text(s, crate::duration::humantime_duration(s))
    &&& r is Ok <==> crate::text::same_ignoring_case(s, "none"@) || crate::duration::reads(s)
    &&& r matches Ok(retain_for) ==> retain_for.wf()
    &&& r matches Ok(RetainFor(Some(span))) ==> crate::duration::has_length(s, span.total())
}

/// No character of `none` is a digit, in any case.
pub(crate) proof fn lemma_none_no_digits(s: Seq<char>)
    requires
        crate::text::same_ignoring_case(s, "none"@),
    ensures
        forall|i: int| 0 <= i < s.len() ==> !crate::duration::digit(#[trigger] s[i]),
{
    reveal_strlit("none");
    let (a, b) = (crate::text::ascii_lowered(s), crate::text::ascii_lowered("none"@));
    assert(a.len() == s.len() && b.len() == 4);
    assert forall|i: int| 0 <= i < s.len() implies !crate::duration::digit(#[trigger] s[i]) by {
        assert(a[i] == b[i]);
        assert(crate::text::ascii_lower(s[i]) == crate::text::ascii_lower("none"@[i]));
    }
}

impl RetainFor {
    /// Retains for the length of time that was read.
    pub fn from_duration(read: Result<TimeSpan, DurationError>) -> (r: Result<Self, DurationError>)
        ensures
            retain_outcome(r) == retained(crate::duration::outcome(read)),
            read matches Ok(span) ==> span.wf() ==> (r matches Ok(retain_for) && retain_for.wf()),
    {
        match read {
            Ok(span) => Ok(RetainFor(Some(span))),
            Err(error) => Err(error),
        }
    }

    /// Reads how long to retain: `none`, in any case, for no limit, or a length of time as
    /// `humantime` reads it.
    pub fn from_str(s: &str) -> (r: Result<Self, DurationError>)
        requires
            crate::duration::readable(s@),
        ensures
            read_as(s@, r),
    {
        if eq_ignore_ascii_case(&chars(s), "none") {
            Ok(RetainFor(None))
        } else {
            RetainFor::from_duration(parse_duration(s))
        }
    }

    /// Reads how long to retain, as [`RetainFor::from_str`] does. `None` stands for a text that may
    /// not be given to that, since its spans come to `u64::MAX` seconds and a whole second in
    /// nanoseconds beyond.
    pub fn checked_from_str(s: &str) -> (r: Option<Result<Self, DurationError>>)
        ensures
            match r {
                Some(read) => crate::duration::readable(s@) && read_as(s@, read),
                None => !crate::duration::readable(s@),
            },
    {
        if is_readable(s) {
            Some(RetainFor::from_str(s))
        } else {
            None
        }
    }
}

} // verus!
