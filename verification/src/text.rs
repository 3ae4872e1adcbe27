//! Text as sequences of characters: white space, letter case and suffixes.

use vstd::prelude::*;

verus! {

/// Whether `c` has the Unicode property `White_Space`.
pub open spec fn white_space(c: char) -> bool {
    ||| '\u{9}' <= c <= '\u{d}'
    ||| c == ' '
    ||| c == '\u{85}'
    ||| c == '\u{a0}'
    ||| c == '\u{1680}'
    ||| '\u{2000}' <= c <= '\u{200a}'
    ||| c == '\u{2028}'
    ||| c == '\u{2029}'
    ||| c == '\u{202f}'
    ||| c == '\u{205f}'
    ||| c == '\u{3000}'
}

/// Whether `s` is white space only.
pub open spec fn blank(s: Seq<char>) -> bool {
    forall|i: int| 0 <= i < s.len() ==> white_space(#[trigger] s[i])
}

/// `s` without the white space at its two ends.
pub open spec fn trimmed(s: Seq<char>) -> Seq<char>
    decreases s.len(),
{
    if s.len() > 0 && white_space(s.first()) {
        trimmed(s.drop_first())
    } else if s.len() > 0 && white_space(s.last()) {
        trimmed(s.drop_last())
    } else {
        s
    }
}

/// `c` with an ASCII capital turned into the small letter.
pub open spec fn ascii_lower(c: char) -> char {
    if 'A' <= c <= 'Z' {
        (c as u32 + 32) as char
    } else {
        c
    }
}

/// `s` with every ASCII capital turned into the small letter.
pub open spec fn ascii_lowered(s: Seq<char>) -> Seq<char> {
    s.map_values(|c: char| ascii_lower(c))
}

/// Whether two texts differ at most in the case of ASCII letters.
pub open spec fn same_ignoring_case(a: Seq<char>, b: Seq<char>) -> bool {
    ascii_lowered(a) == ascii_lowered(b)
}

/// What an optional text says.
pub open spec fn optional_view(s: Option<String>) -> Option<Seq<char>> {
    match s {
        Some(s) => Some(s@),
        None => None,
    }
}

/// Whether `c` has the Unicode property `White_Space`.
pub fn is_white_space(c: char) -> (b: bool)
    ensures
        b == white_space(c),
{
    ('\u{9}' <= c && c <= '\u{d}') || c == ' ' || c == '\u{85}' || c == '\u{a0}' || c == '\u{1680}'
        || ('\u{2000}' <= c && c <= '\u{200a}') || c == '\u{2028}' || c == '\u{2029}' || c
        == '\u{202f}' || c == '\u{205f}' || c == '\u{3000}'
}

/// `c` with an ASCII capital turned into the small letter.
fn to_ascii_lower(c: char) -> (r: char)
    ensures
        r == ascii_lower(c),
{
    if 'A' <= c && c <= 'Z' {
        (c as u8 + 32) as char
    } else {
        c
    }
}

/// The characters of `s`.
pub fn chars(s: &str) -> (r: Vec<char>)
    ensures
        r@ == s@,
{
    let mut r: Vec<char> = Vec::new();
    for c in it: s.chars()
        invariant
            it.seq() == s@,
            r@ == s@.take(it.index() as int),
    {
        r.push(c);
    }
    r
}

/// The characters of `s` between the white space at its two ends.
pub fn trim(s: &str) -> (r: Vec<char>)
    ensures
        r@ == trimmed(s@),
{
    let all = chars(s);
    let mut start: usize = 0;
    let mut end: usize = all.len();
    proof {
        assert(all@.subrange(0, end as int) =~= s@);
    }
    while start < end && is_white_space(all[start])
        invariant
            start <= end == all@.len(),
            trimmed(all@.subrange(start as int, end as int)) == trimmed(s@),
        decreases end - start,
    {
        proof {
            let rest = all@.subrange(start as int, end as int);
            assert(rest.drop_first() =~= all@.subrange(start + 1, end as int));
        }
        start = start + 1;
    }
    while start < end && is_white_space(all[end - 1])
        invariant
            start <= end <= all@.len(),
            start < end ==> !white_space(all@[start as int]),
            trimmed(all@.subrange(start as int, end as int)) == trimmed(s@),
        decreases end - start,
    {
        proof {
            let rest = all@.subrange(start as int, end as int);
            assert(rest.drop_last() =~= all@.subrange(start as int, end - 1));
        }
        end = end - 1;
    }
    let mut r: Vec<char> = Vec::new();
    let mut i: usize = start;
    while i < end
        invariant
            start <= i <= end <= all@.len(),
            r@ == all@.subrange(start as int, i as int),
        decreases end - i,
    {
        r.push(all[i]);
        i = i + 1;
    }
    r
}

/// Whether the characters `a` spell `b`.
pub fn same(a: &Vec<char>, b: &str) -> (r: bool)
    ensures
        r == (a@ == b@),
{
    let other = chars(b);
    if a.len() != other.len() {
        return false;
    }
    let mut i: usize = 0;
    while i < a.len()
        invariant
            i <= a@.len() == other@.len(),
            other@ == b@,
            forall|j: int| 0 <= j < i ==> a@[j] == other@[j],
        decreases a@.len() - i,
    {
        if a[i] != other[i] {
            return false;
        }
        i = i + 1;
    }
    proof {
        assert(a@ =~= other@);
    }
    true
}

/// Whether the characters `a` spell `b`, the case of ASCII letters aside.
pub fn eq_ignore_ascii_case(a: &Vec<char>, b: &str) -> (r: bool)
    ensures
        r == same_ignoring_case(a@, b@),
{
    let other = chars(b);
    proof {
        assert(ascii_lowered(a@).len() == a@.len());
        assert(ascii_lowered(other@).len() == b@.len());
    }
    if a.len() != other.len() {
        return false;
    }
    let mut i: usize = 0;
    while i < a.len()
        invariant
            i <= a@.len() == other@.len(),
            other@ == b@,
            forall|j: int| 0 <= j < i ==> ascii_lower(a@[j]) == ascii_lower(other@[j]),
        decreases a@.len() - i,
    {
        if to_ascii_lower(a[i]) != to_ascii_lower(other[i]) {
            proof {
                assert(ascii_lowered(a@)[i as int] != ascii_lowered(other@)[i as int]);
            }
            return false;
        }
        i = i + 1;
    }
    proof {
        assert(ascii_lowered(a@) =~= ascii_lowered(other@));
    }
    true
}

/// Whether `s` ends in `suffix`.
pub fn ends_with(s: &str, suffix: &str) -> (r: bool)
    ensures
        r == suffix@.is_suffix_of(s@),
{
    let whole = chars(s);
    let end = chars(suffix);
    if whole.len() < end.len() {
        return false;
    }
    let skip: usize = whole.len() - end.len();
    let mut i: usize = 0;
    while i < end.len()
        invariant
            i <= end.len(),
            skip + end.len() == whole.len(),
            whole@ == s@,
            end@ == suffix@,
            forall|j: int| 0 <= j < i ==> end@[j] == whole@[skip + j],
        decreases end.len() - i,
    {
        if end[i] != whole[skip + i] {
            proof {
                assert(s@.subrange(skip as int, s@.len() as int)[i as int] != suffix@[i as int]);
            }
            return false;
        }
        i = i + 1;
    }
    true
}

} // verus!
