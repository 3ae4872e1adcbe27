//! What comes of reading texts, whatever they are: white space, case, palettes and lengths of time.

use crate::options::parse_true_color;
use crate::palette::{InvalidPalette, Palette, TputError};
use crate::text::{chars, ends_with, eq_ignore_ascii_case, is_white_space, same, trim};
use vstd::prelude::*;

verus! {

/// The code points that Unicode calls white space.
pub open spec fn space(c: char) -> bool {
    let code = c as u32;
    ||| 9 <= code <= 13
    ||| code == 32
    ||| code == 133
    ||| code == 160
    ||| code == 5760
    ||| 8192 <= code <= 8202
    ||| code == 8232
    ||| code == 8233
    ||| code == 8239
    ||| code == 8287
    ||| code == 12288
}

/// `s` is `core` with white space on both sides, which `core` has none of at its ends.
pub open spec fn framed(
    s: Seq<char>,
    before: Seq<char>,
    core: Seq<char>,
    after: Seq<char>,
) -> bool {
    &&& s == before + core + after
    &&& forall|i: int| 0 <= i < before.len() ==> space(#[trigger] before[i])
    &&& forall|i: int| 0 <= i < after.len() ==> space(#[trigger] after[i])
    &&& core.len() > 0 ==> !space(core[0]) && !space(core[core.len() - 1])
}

/// `s` is `word`, in capital or small letters. `word` consists of small letters and digits.
pub open spec fn spelled(s: Seq<char>, word: Seq<char>) -> bool {
    &&& s.len() == word.len()
    &&& forall|i: int|
        0 <= i < s.len() ==> #[trigger] s[i] == word[i] || ('a' <= word[i] <= 'z' && s[i] as u32 + 32
            == word[i] as u32)
}

/// Both ways of saying what white space is say the same.
pub(crate) proof fn lemma_space(c: char)
    ensures
        space(c) == crate::text::white_space(c),
{
}

/// Text is blank where it is white space throughout.
pub(crate) proof fn lemma_spaces(s: Seq<char>)
    ensures
        (forall|i: int| 0 <= i < s.len() ==> space(#[trigger] s[i])) <==> crate::text::blank(s),
{
    assert forall|i: int| 0 <= i < s.len() implies space(#[trigger] s[i])
        == crate::text::white_space(s[i]) by {
        lemma_space(s[i]);
    }
}

/// Trimming takes the frame away.
pub(crate) proof fn lemma_framed(s: Seq<char>, before: Seq<char>, core: Seq<char>, after: Seq<char>)
    requires
        framed(s, before, core, after),
    ensures
        crate::text::trimmed(s) == core,
{
    lemma_spaces(before);
    lemma_spaces(after);
    crate::laws::law_trim_surrounding(before, core, after);
    if core.len() > 0 {
        lemma_space(core.first());
        lemma_space(core.last());
    }
    assert(crate::text::trimmed(core) == core);
}

/// What trimming takes away frames what it leaves.
proof fn lemma_frame(s: Seq<char>) -> (frame: (Seq<char>, Seq<char>))
    ensures
        framed(s, frame.0, crate::text::trimmed(s), frame.1),
    decreases s.len(),
{
    let none: Seq<char> = Seq::empty();
    let core = crate::text::trimmed(s);
    if s.len() > 0 {
        lemma_space(s.first());
        lemma_space(s.last());
    }
    if s.len() > 0 && crate::text::white_space(s.first()) {
        let (before, after) = lemma_frame(s.drop_first());
        let longer = seq![s.first()] + before;
        assert(s =~= seq![s.first()] + s.drop_first());
        assert(s =~= longer + core + after);
        assert forall|i: int| 0 <= i < longer.len() implies space(#[trigger] longer[i]) by {
            if i > 0 {
                assert(longer[i] == before[i - 1]);
            }
        }
        (longer, after)
    } else if s.len() > 0 && crate::text::white_space(s.last()) {
        let (before, after) = lemma_frame(s.drop_last());
        let longer = after.push(s.last());
        assert(s =~= s.drop_last().push(s.last()));
        assert(s =~= before + core + longer);
        (before, longer)
    } else {
        assert(s =~= none + core + none);
        (none, none)
    }
}

/// Ignoring case leaves the words that are spelled the same.
pub(crate) proof fn lemma_spelled(s: Seq<char>, word: Seq<char>)
    requires
        forall|i: int|
            0 <= i < word.len() ==> 'a' <= #[trigger] word[i] <= 'z' || '0' <= word[i] <= '9',
    ensures
        crate::text::same_ignoring_case(s, word) <==> spelled(s, word),
{
    let (a, b) = (crate::text::ascii_lowered(s), crate::text::ascii_lowered(word));
    assert(a.len() == s.len() && b.len() == word.len());
    if spelled(s, word) {
        assert forall|i: int| 0 <= i < a.len() implies a[i] == b[i] by {
            assert(s[i] == word[i] || s[i] as u32 + 32 == word[i] as u32);
        }
        assert(a =~= b);
    }
    if a == b {
        assert forall|i: int| 0 <= i < s.len() implies #[trigger] s[i] == word[i] || ('a' <= word[i]
            <= 'z' && s[i] as u32 + 32 == word[i] as u32) by {
            assert(a[i] == b[i]);
            assert(crate::text::ascii_lower(s[i]) == crate::text::ascii_lower(word[i]));
            assert('a' <= word[i] <= 'z' || '0' <= word[i] <= '9');
        }
    }
}

/// White space is what Unicode calls so.
pub proof fn law_white_space(c: char, r: bool)
    requires
        call_ensures(is_white_space, (c,), r),
    ensures
        r == space(c),
{
}

/// The characters of a text are all of them, in their order.
pub proof fn law_chars(s: &str, r: Vec<char>)
    requires
        call_ensures(chars, (s,), r),
    ensures
        r@ == s@,
{
}

/// Trimming takes away the white space at both ends of a text, all of it and nothing else.
pub proof fn law_trim(s: &str, r: Vec<char>)
    requires
        call_ensures(trim, (s,), r),
    ensures
        exists|before: Seq<char>, after: Seq<char>| #[trigger] framed(s@, before, r@, after),
        forall|before: Seq<char>, core: Seq<char>, after: Seq<char>| #[trigger]
            framed(s@, before, core, after) ==> r@ == core,
{
    let (before, after) = lemma_frame(s@);
    assert(framed(s@, before, r@, after));
    assert forall|before: Seq<char>, core: Seq<char>, after: Seq<char>| #[trigger]
        framed(s@, before, core, after) implies r@ == core by {
        lemma_framed(s@, before, core, after);
    }
}

/// Texts are the same if and only if they have the same characters.
pub proof fn law_same(a: Vec<char>, b: &str, r: bool)
    requires
        call_ensures(same, (&a, b), r),
    ensures
        r <==> a@.len() == b@.len() && forall|i: int| 0 <= i < a@.len() ==> a@[i] == b@[i],
{
    if a@.len() == b@.len() && forall|i: int| 0 <= i < a@.len() ==> a@[i] == b@[i] {
        assert(a@ =~= b@);
    }
}

/// Case counts for nothing but the ASCII letters, and there does not count: texts are the same but
/// for it if and only if each character is the same, or the one is the small letter of the other.
pub proof fn law_ignoring_case(a: Vec<char>, b: &str, r: bool)
    requires
        call_ensures(eq_ignore_ascii_case, (&a, b), r),
    ensures
        r <==> a@.len() == b@.len() && forall|i: int|
            0 <= i < a@.len() ==> {
                ||| #[trigger] a@[i] == b@[i]
                ||| 'A' <= a@[i] <= 'Z' && b@[i] as u32 == a@[i] as u32 + 32
                ||| 'A' <= b@[i] <= 'Z' && a@[i] as u32 == b@[i] as u32 + 32
            },
{
    let (x, y) = (crate::text::ascii_lowered(a@), crate::text::ascii_lowered(b@));
    assert(x.len() == a@.len() && y.len() == b@.len());
    if r {
        assert forall|i: int| 0 <= i < a@.len() implies {
            ||| #[trigger] a@[i] == b@[i]
            ||| 'A' <= a@[i] <= 'Z' && b@[i] as u32 == a@[i] as u32 + 32
            ||| 'A' <= b@[i] <= 'Z' && a@[i] as u32 == b@[i] as u32 + 32
        } by {
            assert(x[i] == y[i]);
            assert(crate::text::ascii_lower(a@[i]) == crate::text::ascii_lower(b@[i]));
        }
    } else if a@.len() == b@.len() {
        assert(!(x =~= y));
        let i = choose|i: int| 0 <= i < x.len() && x[i] != y[i];
        assert(a@[i] == a@[i]);
        assert(crate::text::ascii_lower(a@[i]) != crate::text::ascii_lower(b@[i]));
    }
}

/// A text ends in another if and only if it is that one with something before it.
pub proof fn law_ends_with(s: &str, suffix: &str, r: bool)
    requires
        call_ensures(ends_with, (s, suffix), r),
    ensures
        r <==> exists|before: Seq<char>| #[trigger] (before + suffix@) == s@,
{
    if r {
        let before = s@.take(s@.len() - suffix@.len());
        assert(before + suffix@ =~= s@);
    }
    if exists|before: Seq<char>| #[trigger] (before + suffix@) == s@ {
        let before = choose|before: Seq<char>| #[trigger] (before + suffix@) == s@;
        assert(s@.subrange(s@.len() - suffix@.len(), s@.len() as int) =~= suffix@);
    }
}

/// The names of palettes.
proof fn lemma_palette_names()
    ensures
        "8"@ == seq!['8'],
        "16"@ == seq!['1', '6'],
        "256"@ == seq!['2', '5', '6'],
        "all"@ == seq!['a', 'l', 'l'],
        "off"@ == seq!['o', 'f', 'f'],
        crate::palette::named_palette(seq!['8']) == Some(Palette::Ansi8),
        crate::palette::named_palette(seq!['1', '6']) == Some(Palette::Ansi16),
        crate::palette::named_palette(seq!['2', '5', '6']) == Some(Palette::Ansi256),
        crate::palette::named_palette(seq!['a', 'l', 'l']) == Some(Palette::All),
        crate::palette::named_palette(seq!['o', 'f', 'f']) == Some(Palette::NoColors),
{
    reveal_strlit("8");
    reveal_strlit("16");
    reveal_strlit("256");
    reveal_strlit("all");
    reveal_strlit("off");
    assert("8"@ =~= seq!['8']);
    assert("16"@ =~= seq!['1', '6']);
    assert("256"@ =~= seq!['2', '5', '6']);
    assert("all"@ =~= seq!['a', 'l', 'l']);
    assert("off"@ =~= seq!['o', 'f', 'f']);
    assert("16"@.len() == 2);
    assert("256"@[0] == '2' && "all"@[0] == 'a' && "off"@[0] == 'o');
}

/// A palette is read from its name with any white space around it, and from nothing else.
pub proof fn law_palette_read(
    s: &str,
    before: Seq<char>,
    name: Seq<char>,
    after: Seq<char>,
    r: Result<Palette, InvalidPalette>,
)
    requires
        call_ensures(Palette::from_str, (s,), r),
        framed(s@, before, name, after),
    ensures
        r == Ok::<Palette, InvalidPalette>(Palette::Ansi8) <==> name == seq!['8'],
        r == Ok::<Palette, InvalidPalette>(Palette::Ansi16) <==> name == seq!['1', '6'],
        r == Ok::<Palette, InvalidPalette>(Palette::Ansi256) <==> name == seq!['2', '5', '6'],
        r == Ok::<Palette, InvalidPalette>(Palette::All) <==> name == seq!['a', 'l', 'l'],
        r == Ok::<Palette, InvalidPalette>(Palette::NoColors) <==> name == seq!['o', 'f', 'f'],
{
    lemma_framed(s@, before, name, after);
    lemma_palette_names();
}

/// The default palette has no colors.
pub proof fn law_default_palette(r: Palette)
    requires
        call_ensures(<Palette as Default>::default, (), r),
    ensures
        r == Palette::NoColors,
{
}

/// Output of `tput colors` that is UTF-8 names the palette whose name it is, with any white space
/// around it. Any other such output is an error that holds it.
pub proof fn law_tput_read(
    stdout: Vec<u8>,
    before: Seq<char>,
    name: Seq<char>,
    after: Seq<char>,
    r: Result<Palette, TputError>,
)
    requires
        call_ensures(Palette::parse_tput, (stdout,), r),
        vstd::utf8::valid_utf8(stdout@),
        framed(vstd::utf8::decode_utf8(stdout@), before, name, after),
    ensures
        (r matches Ok(palette) && palette == Palette::Ansi8) <==> name == seq!['8'],
        (r matches Ok(palette) && palette == Palette::Ansi16) <==> name == seq!['1', '6'],
        (r matches Ok(palette) && palette == Palette::Ansi256) <==> name == seq!['2', '5', '6'],
        (r matches Ok(palette) && palette == Palette::All) <==> name == seq!['a', 'l', 'l'],
        (r matches Ok(palette) && palette == Palette::NoColors) <==> name == seq!['o', 'f', 'f'],
        r matches Err(error) ==> (error matches TputError::InvalidPalette(text) && text@
            == before + name + after),
{
    lemma_framed(vstd::utf8::decode_utf8(stdout@), before, name, after);
    lemma_palette_names();
}

/// Output of `tput colors` that is not UTF-8 is an error, and says so.
pub proof fn law_tput_not_utf8(stdout: Vec<u8>, r: Result<Palette, TputError>)
    requires
        call_ensures(Palette::parse_tput, (stdout,), r),
    ensures
        (r matches Err(error) && error is NotUtf8) <==> !vstd::utf8::valid_utf8(stdout@),
{
}

/// The palette that `tput colors` asks for is the one that its output names, and no colors where
/// the output is no UTF-8 text or names none, with the reason for it.
pub proof fn law_tput_palette(
    stdout: Vec<u8>,
    parsed: Result<Palette, TputError>,
    r: (Palette, Option<TputError>),
)
    requires
        call_ensures(Palette::parse_tput, (stdout,), parsed),
        call_ensures(Palette::from_tput, (Some(stdout),), r),
    ensures
        parsed matches Ok(palette) ==> r.0 == palette && r.1 is None,
        parsed is Err ==> r.0 == Palette::NoColors && r.1 is Some,
        parsed matches Err(error) ==> (r.1 matches Some(reason) && (error is NotUtf8 <==> reason
            is NotUtf8)),
        parsed matches Err(TputError::InvalidPalette(text)) ==> (r.1 matches Some(
            TputError::InvalidPalette(got),
        ) && got@ == text@),
{
}

/// Where `tput` cannot be run there are no colors, and no output to find fault with.
pub proof fn law_no_tput(r: (Palette, Option<TputError>))
    requires
        call_ensures(Palette::from_tput, (None,), r),
    ensures
        r.0 == Palette::NoColors,
        r.1 is None,
{
}

/// `COLORTERM` advertises true colors if and only if it is `truecolor` or `24bit`, in capital or
/// small letters, with any white space around it.
pub proof fn law_true_color(
    s: &str,
    before: Seq<char>,
    value: Seq<char>,
    after: Seq<char>,
    r: bool,
)
    requires
        call_ensures(parse_true_color, (s,), r),
        framed(s@, before, value, after),
    ensures
        r <==> spelled(value, seq!['t', 'r', 'u', 'e', 'c', 'o', 'l', 'o', 'r']) || spelled(
            value,
            seq!['2', '4', 'b', 'i', 't'],
        ),
{
    lemma_framed(s@, before, value, after);
    reveal_strlit("truecolor");
    reveal_strlit("24bit");
    assert("truecolor"@ =~= seq!['t', 'r', 'u', 'e', 'c', 'o', 'l', 'o', 'r']);
    assert("24bit"@ =~= seq!['2', '4', 'b', 'i', 't']);
    lemma_spelled(value, "truecolor"@);
    lemma_spelled(value, "24bit"@);
}

} // verus!
