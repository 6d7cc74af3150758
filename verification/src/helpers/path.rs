//! Paths as texts, in the Unix form: parts are separated by `/`, and a path
//! that begins with `/` is absolute.

use vstd::prelude::*;
use crate::text::{begins_with, concat, concat3, ends_with, finishes_with, starts_with};

verus! {

/// The extension of a path as `Path::extension` gives it: the part of the
/// file name behind its last dot, if there is one.
pub uninterp spec fn extension_of(path: Seq<char>) -> Option<Seq<char>>;

/// Calls `Path::extension` and copies the extension where it is valid
/// Unicode. The result is what `extension_of` names for this path.
#[verifier::external_body]
pub(crate) fn path_extension(path: &str) -> (r: Option<String>)
    ensures
        r.deep_view() == extension_of(path@),
{
    std::path::Path::new(path).extension().and_then(|e| e.to_str()).map(String::from)
}

/// The path below `base`, as `Path::strip_prefix` gives it; `None` where the
/// path does not lie below `base`.
pub uninterp spec fn below(path: Seq<char>, base: Seq<char>) -> Option<Seq<char>>;

/// Calls `Path::strip_prefix` and copies what is left of the path. The
/// result is what `below` names.
#[verifier::external_body]
pub(crate) fn strip_base(path: &str, base: &str) -> (r: Option<String>)
    ensures
        r.deep_view() == below(path@, base@),
{
    std::path::Path::new(path).strip_prefix(base).ok().map(|p| p.to_string_lossy().to_string())
}

/// The path as it is shown below `base`: without `base` where it lies below
/// it, else whole.
pub open spec fn shown_below(path: Seq<char>, base: Seq<char>) -> Seq<char> {
    match below(path, base) {
        Some(rest) => rest,
        None => path,
    }
}

/// The path as it is shown below `base`.
pub fn relative_to(path: &str, base: &str) -> (r: String)
    ensures
        r@ == shown_below(path@, base@),
{
    match strip_base(path, base) {
        Some(rest) => rest,
        None => path.to_string(),
    }
}

/// The extension of a path in lower case.
pub open spec fn lower_extension(path: Seq<char>) -> Option<Seq<char>> {
    match extension_of(path) {
        Some(e) => Some(crate::text::lowercased(e)),
        None => None,
    }
}

/// The extension of a path in lower case.
pub fn lowercase_extension(path: &str) -> (r: Option<String>)
    ensures
        r.deep_view() == lower_extension(path@),
{
    match path_extension(path) {
        Some(e) => Some(crate::text::lowercase_of(e.as_str())),
        None => None,
    }
}

/// Whether a path is absolute.
pub open spec fn absolute(path: Seq<char>) -> bool {
    begins_with(path, "/"@)
}

/// The path `child` seen from `base`. An absolute `child` stands for itself,
/// and so does any `child` seen from the empty path. Else `child` goes behind
/// `base`, with one separator between them unless `base` ends with one.
pub open spec fn joined_path(base: Seq<char>, child: Seq<char>) -> Seq<char> {
    if absolute(child) || base.len() == 0 {
        child
    } else if finishes_with(base, "/"@) {
        base + child
    } else {
        base + "/"@ + child
    }
}

/// Whether a path is absolute.
pub fn is_absolute(path: &str) -> (r: bool)
    ensures
        r == absolute(path@),
{
    starts_with(path, "/")
}

/// The path `child` seen from `base`.
pub fn join_path(base: &str, child: &str) -> (r: String)
    ensures
        r@ == joined_path(base@, child@),
{
    if is_absolute(child) || base.is_empty() {
        child.to_string()
    } else if ends_with(base, "/") {
        concat(base, child)
    } else {
        concat3(base, "/", child)
    }
}

/// A path seen from `base` is the path itself where it is absolute, and
/// begins with `base` where it is not and `base` is not empty.
pub proof fn lemma_joined_path(base: Seq<char>, child: Seq<char>)
    ensures
        absolute(child) ==> joined_path(base, child) == child,
        !absolute(child) && base.len() > 0 ==> begins_with(joined_path(base, child), base),
{
    if !absolute(child) && base.len() > 0 {
        let joined = joined_path(base, child);
        assert(joined.subrange(0, base.len() as int) =~= base);
    }
}

} // verus!
