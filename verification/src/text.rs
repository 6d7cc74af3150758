//! Text helpers: comparing, joining and numbering, with character-level
//! contracts.

use vstd::prelude::*;
use vstd::string::{StrSliceExecFns, StringExecFns};

verus! {

/// The decimal digit for `d`.
pub open spec fn digit_char(d: nat) -> char {
    if d == 0 {
        '0'
    } else if d == 1 {
        '1'
    } else if d == 2 {
        '2'
    } else if d == 3 {
        '3'
    } else if d == 4 {
        '4'
    } else if d == 5 {
        '5'
    } else if d == 6 {
        '6'
    } else if d == 7 {
        '7'
    } else if d == 8 {
        '8'
    } else {
        '9'
    }
}

/// The decimal numeral of `n`, without leading zeros.
pub open spec fn decimal(n: nat) -> Seq<char>
    decreases n,
{
    if n < 10 {
        seq![digit_char(n)]
    } else {
        decimal(n / 10).push(digit_char(n % 10))
    }
}

/// The parts in order, with `sep` between neighbours.
pub open spec fn joined(parts: Seq<Seq<char>>, sep: Seq<char>) -> Seq<char>
    decreases parts.len(),
{
    if parts.len() == 0 {
        Seq::empty()
    } else if parts.len() == 1 {
        parts[0]
    } else {
        joined(parts.drop_last(), sep) + sep + parts.last()
    }
}

/// Whether `s` begins with `prefix`.
pub open spec fn begins_with(s: Seq<char>, prefix: Seq<char>) -> bool {
    prefix.len() <= s.len() && s.subrange(0, prefix.len() as int) == prefix
}

/// Whether `s` ends with `suffix`.
pub open spec fn finishes_with(s: Seq<char>, suffix: Seq<char>) -> bool {
    suffix.len() <= s.len() && s.subrange(s.len() - suffix.len(), s.len() as int) == suffix
}

/// The lines of a text as `str::lines` gives them: the text split at its
/// line endings, without them.
pub uninterp spec fn text_lines(s: Seq<char>) -> Seq<Seq<char>>;

/// The text without the white space at its two ends, as `str::trim` gives
/// it.
pub uninterp spec fn trimmed(s: Seq<char>) -> Seq<char>;

/// The text in lower case, as `str::to_lowercase` gives it.
pub uninterp spec fn lowercased(s: Seq<char>) -> Seq<char>;

/// How often `pattern` occurs in a text, as `str::matches` counts: from the
/// left, each occurrence behind the one before.
pub uninterp spec fn match_count(text: Seq<char>, pattern: Seq<char>) -> nat;

/// The text with every occurrence of `from` replaced by `to`, as
/// `str::replace` gives it.
pub uninterp spec fn replaced_text(text: Seq<char>, from: Seq<char>, to: Seq<char>) -> Seq<char>;

/// Calls `str::matches` with a text as the pattern and counts the matches.
/// The result is what `match_count` names.
#[verifier::external_body]
pub(crate) fn count_matches(text: &str, pattern: &str) -> (r: usize)
    ensures
        r == match_count(text@, pattern@),
{
    text.matches(pattern).count()
}

/// Calls `str::replace` with a text as the pattern. The result is what
/// `replaced_text` names.
#[verifier::external_body]
pub(crate) fn replace_all(text: &str, from: &str, to: &str) -> (r: String)
    ensures
        r@ == replaced_text(text@, from@, to@),
{
    text.replace(from, to)
}

/// Calls `str::ends_with` with a text as the pattern.
#[verifier::external_body]
pub(crate) fn has_suffix(s: &str, suffix: &str) -> (r: bool)
    ensures
        r == finishes_with(s@, suffix@),
{
    s.ends_with(suffix)
}

/// Calls `str::lines` and copies each line. The result is what `text_lines`
/// names for this text.
#[verifier::external_body]
pub(crate) fn lines_of(s: &str) -> (r: Vec<String>)
    ensures
        r.deep_view() == text_lines(s@),
{
    s.lines().map(String::from).collect()
}

/// Calls `str::trim`. The result is what `trimmed` names for this text.
#[verifier::external_body]
pub(crate) fn trim_of(s: &str) -> (r: &str)
    ensures
        r@ == trimmed(s@),
{
    s.trim()
}

/// Calls `str::to_lowercase`. The result is what `lowercased` names for this
/// text.
#[verifier::external_body]
pub(crate) fn lowercase_of(s: &str) -> (r: String)
    ensures
        r@ == lowercased(s@),
{
    s.to_lowercase()
}

/// Calls `str::eq`: two texts are equal when they hold the same characters.
#[verifier::external_body]
pub(crate) fn same_text(a: &str, b: &str) -> (r: bool)
    ensures
        r == (a@ == b@),
{
    a == b
}

/// Calls `str::strip_prefix`: the rest of `s` behind `prefix`, or `None`
/// where `s` does not begin with it.
#[verifier::external_body]
pub(crate) fn rest_after<'a>(s: &'a str, prefix: &str) -> (r: Option<&'a str>)
    ensures
        match r {
            Some(rest) => begins_with(s@, prefix@) && rest@ == s@.subrange(
                prefix@.len() as int,
                s@.len() as int,
            ),
            None => !begins_with(s@, prefix@),
        },
{
    s.strip_prefix(prefix)
}

/// Calls `u64::to_string`, which prints the decimal numeral.
#[verifier::external_body]
pub(crate) fn decimal_text(n: u64) -> (r: String)
    ensures
        r@ == decimal(n as nat),
{
    n.to_string()
}

/// Whether two texts hold the same characters.
pub fn str_eq(a: &str, b: &str) -> (r: bool)
    ensures
        r == (a@ == b@),
{
    same_text(a, b)
}

/// Whether `s` begins with `prefix`.
pub fn starts_with(s: &str, prefix: &str) -> (r: bool)
    ensures
        r == begins_with(s@, prefix@),
{
    rest_after(s, prefix).is_some()
}

/// Whether `s` ends with `suffix`.
pub fn ends_with(s: &str, suffix: &str) -> (r: bool)
    ensures
        r == finishes_with(s@, suffix@),
{
    has_suffix(s, suffix)
}

/// The lines of a text.
pub fn lines(s: &str) -> (r: Vec<String>)
    ensures
        r.deep_view() == text_lines(s@),
{
    lines_of(s)
}

/// Whether a text holds nothing but white space.
pub fn is_blank(s: &str) -> (r: bool)
    ensures
        r == (trimmed(s@).len() == 0),
{
    trim_of(s).is_empty()
}

/// `a` followed by `b`.
pub fn concat(a: &str, b: &str) -> (r: String)
    ensures
        r@ == a@ + b@,
{
    let mut out = a.to_string();
    out.append(b);
    out
}

/// `a`, `b` and `c` in a row.
pub fn concat3(a: &str, b: &str, c: &str) -> (r: String)
    ensures
        r@ == a@ + b@ + c@,
{
    let mut out = a.to_string();
    out.append(b);
    out.append(c);
    out
}

/// The parts in order, with `sep` between neighbours.
pub fn join(parts: &Vec<String>, sep: &str) -> (r: String)
    ensures
        r@ == joined(parts.deep_view(), sep@),
{
    let mut out = String::new();
    let mut i: usize = 0;
    while i < parts.len()
        invariant
            0 <= i <= parts.len(),
            out@ == joined(parts.deep_view().take(i as int), sep@),
        decreases parts.len() - i,
    {
        proof {
            let done = parts.deep_view().take(i as int);
            let next = parts.deep_view().take(i + 1);
            assert(next.drop_last() =~= done);
            assert(next.last() == parts[i as int]@);
            if i == 0 {
                assert(done =~= Seq::<Seq<char>>::empty());
                assert(Seq::<char>::empty() + parts[0]@ =~= parts[0]@);
            }
        }
        if i > 0 {
            out.append(sep);
        }
        out.append(parts[i].as_str());
        i += 1;
    }
    proof {
        assert(parts.deep_view().take(parts.len() as int) =~= parts.deep_view());
    }
    out
}

/// The decimal numeral of `n`.
pub fn u64_to_string(n: u64) -> (r: String)
    ensures
        r@ == decimal(n as nat),
{
    decimal_text(n)
}

/// The decimal numeral of `n`.
pub fn usize_to_string(n: usize) -> (r: String)
    ensures
        r@ == decimal(n as nat),
{
    decimal_text(n as u64)
}

/// The decimal numeral of an integer, with a minus sign where it is
/// negative.
pub open spec fn signed_decimal(n: int) -> Seq<char> {
    if n < 0 {
        "-"@ + decimal((-n) as nat)
    } else {
        decimal(n as nat)
    }
}

/// The decimal numeral of `n`.
pub fn i32_to_string(n: i32) -> (r: String)
    ensures
        r@ == signed_decimal(n as int),
{
    if n < 0 {
        let magnitude: i64 = -(n as i64);
        concat("-", decimal_text(magnitude as u64).as_str())
    } else {
        decimal_text(n as u64)
    }
}

/// The text cut to its first `max` characters, with `notice` behind it
/// where anything was cut off.
pub open spec fn cut_to(text: Seq<char>, max: nat, notice: Seq<char>) -> Seq<char> {
    if text.len() > max {
        text.take(max as int) + notice
    } else {
        text
    }
}

/// The number of characters of a text.
pub fn char_count(s: &str) -> (r: usize)
    ensures
        r == s@.len(),
{
    s.unicode_len()
}

/// The text cut to its first `max` characters, with `notice` behind it
/// where anything was cut off.
pub fn truncate_chars(text: String, max: usize, notice: &str) -> (r: String)
    ensures
        r@ == cut_to(text@, max as nat, notice@),
{
    if text.as_str().unicode_len() > max {
        let head = text.as_str().substring_char(0, max);
        proof {
            assert(text@.subrange(0, max as int) =~= text@.take(max as int));
        }
        concat(head, notice)
    } else {
        text
    }
}

/// `count` spaces.
pub open spec fn spaces(count: nat) -> Seq<char> {
    Seq::new(count, |i: int| ' ')
}

/// The text moved to the right end of a field of `width` characters: spaces
/// go before it until it is that wide. A text that is wider stays as it is.
pub open spec fn right_aligned(text: Seq<char>, width: nat) -> Seq<char> {
    if text.len() >= width {
        text
    } else {
        spaces((width - text.len()) as nat) + text
    }
}

/// The text moved to the right end of a field of `width` characters.
pub fn pad_left(text: &str, width: usize) -> (r: String)
    ensures
        r@ == right_aligned(text@, width as nat),
{
    let len = text.unicode_len();
    if len >= width {
        return text.to_string();
    }
    let missing = width - len;
    let mut out = String::new();
    let mut i: usize = 0;
    proof {
        reveal_strlit(" ");
        assert(out@ =~= spaces(0));
    }
    while i < missing
        invariant
            0 <= i <= missing,
            out@ == spaces(i as nat),
            " "@ == seq![' '],
        decreases missing - i,
    {
        out.append(" ");
        proof {
            assert(out@ =~= spaces((i + 1) as nat));
        }
        i += 1;
    }
    out.append(text);
    out
}

} // verus!
