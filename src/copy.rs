//! Which paths the copy of configured files leaves out.
use vstd::prelude::*;
use crate::text::{has_suffix, same_text, strip_prefix};

verus! {

/// Whether one exclude pattern matches a path relative to the copy root.
/// A pattern `*<suffix>` matches paths that end with the suffix; any other
/// pattern matches exactly that relative path.
pub open spec fn pattern_matches(relative_path: Seq<char>, pattern: Seq<char>) -> bool {
    if "*"@.is_prefix_of(pattern) {
        pattern.skip("*"@.len() as int).is_suffix_of(relative_path)
    } else {
        relative_path == pattern
    }
}

/// Whether some pattern of `exclude` matches the path.
pub open spec fn is_excluded(relative_path: Seq<char>, exclude: Seq<String>) -> bool {
    exists|i: int| 0 <= i < exclude.len() && pattern_matches(relative_path, #[trigger] exclude[i]@)
}

/// Whether `pattern` matches `relative_path`.
fn pattern_match(relative_path: &str, pattern: &str) -> (r: bool)
    ensures
        r == pattern_matches(relative_path@, pattern@),
{
    match strip_prefix(pattern, "*") {
        Some(suffix) => has_suffix(relative_path, suffix.as_str()),
        None => same_text(relative_path, pattern),
    }
}

/// Whether the copy leaves out `relative_path` (see `pattern_matches`).
pub fn matches_exclude(relative_path: &str, exclude: &[String]) -> (r: bool)
    ensures
        r == is_excluded(relative_path@, exclude@),
{
    let mut i: usize = 0;
    while i < exclude.len()
        invariant
            i <= exclude@.len(),
            forall|k: int| 0 <= k < i ==> !pattern_matches(relative_path@, #[trigger] exclude@[k]@),
        decreases exclude.len() - i,
    {
        if pattern_match(relative_path, exclude[i].as_str()) {
            return true;
        }
        i = i + 1;
    }
    false
}

} // verus!
