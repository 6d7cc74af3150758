//! Regular expressions, as the `regex` crate matches them.

use vstd::prelude::*;

verus! {

/// Whether the pattern has a match anywhere in the text, as `Regex::is_match`
/// says; `None` for a pattern that `Regex::new` rejects.
pub uninterp spec fn regex_found(pattern: Seq<char>, text: Seq<char>) -> Option<bool>;

/// What the first group of the pattern captured in each match in the text,
/// from left to right, as `Regex::captures_iter` gives the matches; `None`
/// stands for a match in which the group took no part. The outer `None`
/// stands for a pattern that `Regex::new` rejects.
pub uninterp spec fn regex_first_groups(pattern: Seq<char>, text: Seq<char>) -> Option<
    Seq<Option<Seq<char>>>,
>;

/// Compiles the pattern with `Regex::new` and asks `Regex::is_match`. The
/// result is what `regex_found` names.
#[verifier::external_body]
pub(crate) fn regex_is_match(pattern: &str, text: &str) -> (r: Option<bool>)
    ensures
        r == regex_found(pattern@, text@),
{
    match regex::Regex::new(pattern) {
        Ok(re) => Some(re.is_match(text)),
        Err(_) => None,
    }
}

/// Compiles the pattern with `Regex::new` and walks `Regex::captures_iter`,
/// copying for each match what the first group captured. The result is what
/// `regex_first_groups` names.
#[verifier::external_body]
pub(crate) fn regex_captures(pattern: &str, text: &str) -> (r: Option<Vec<Option<String>>>)
    ensures
        r.deep_view() == regex_first_groups(pattern@, text@),
{
    match regex::Regex::new(pattern) {
        Ok(re) => Some(
            re.captures_iter(text).map(|c| c.get(1).map(|m| m.as_str().to_string())).collect(),
        ),
        Err(_) => None,
    }
}

/// The captures that are there, in order.
pub open spec fn present(captures: Seq<Option<Seq<char>>>) -> Seq<Seq<char>>
    decreases captures.len(),
{
    if captures.len() == 0 {
        Seq::empty()
    } else {
        let rest = present(captures.drop_last());
        match captures.last() {
            Some(c) => rest.push(c),
            None => rest,
        }
    }
}

/// What the first group of the pattern captured in the matches in which it
/// took part, from left to right; `None` for a pattern that cannot be
/// matched.
pub open spec fn first_group_texts(pattern: Seq<char>, text: Seq<char>) -> Option<Seq<Seq<char>>> {
    match regex_first_groups(pattern, text) {
        Some(captures) => Some(present(captures)),
        None => None,
    }
}

/// Whether the pattern has a match anywhere in the text; `None` for a
/// pattern that cannot be matched.
pub fn is_match(pattern: &str, text: &str) -> (r: Option<bool>)
    ensures
        r == regex_found(pattern@, text@),
{
    regex_is_match(pattern, text)
}

/// What the first group of the pattern captured in the matches in the text
/// in which it took part.
pub fn first_groups(pattern: &str, text: &str) -> (r: Option<Vec<String>>)
    ensures
        r.deep_view() == first_group_texts(pattern@, text@),
{
    let captures = match regex_captures(pattern, text) {
        Some(captures) => captures,
        None => {
            return None;
        },
    };
    let mut out: Vec<String> = Vec::new();
    let mut i: usize = 0;
    proof {
        assert(out.deep_view() =~= Seq::empty());
    }
    while i < captures.len()
        invariant
            0 <= i <= captures.len(),
            out.deep_view() == present(captures.deep_view().take(i as int)),
        decreases captures.len() - i,
    {
        proof {
            let next = captures.deep_view().take(i + 1);
            assert(next.drop_last() =~= captures.deep_view().take(i as int));
            assert(next.last() == captures[i as int].deep_view());
        }
        match &captures[i] {
            Some(c) => {
                let ghost before = out;
                out.push(c.clone());
                proof {
                    crate::llm::types::lemma_deep_view_push(before, out, out[out.len() - 1]);
                }
            },
            None => {},
        }
        i += 1;
    }
    proof {
        assert(captures.deep_view().take(captures.len() as int) =~= captures.deep_view());
    }
    Some(out)
}

} // verus!
