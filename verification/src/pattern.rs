//! Searching a text for a pattern. The search itself is the `regex` crate's;
//! what is read out of its answer is verified here.

use vstd::prelude::*;
use crate::text::opt_view;

verus! {

/// The capture groups of the leftmost match of `pattern` in `text`, as
/// `regex::Regex::new(pattern)` followed by `Regex::captures(text)` gives them:
/// `None` where the pattern does not compile or matches nowhere; else one entry
/// for each group of the pattern, the whole match first, each holding the text
/// the group matched, or `None` where the group took no part in the match.
pub uninterp spec fn regex_groups(pattern: Seq<char>, text: Seq<char>) -> Option<
    Seq<Option<Seq<char>>>,
>;

/// The groups of a search as sequences of characters.
pub open spec fn groups_view(groups: Option<Vec<Option<String>>>) -> Option<
    Seq<Option<Seq<char>>>,
> {
    match groups {
        None => None,
        Some(v) => Some(Seq::new(v@.len(), |i: int| opt_view(v@[i]))),
    }
}

/// The text of group `index`: present where the search matched, the pattern
/// has such a group, and the group took part in the match.
pub open spec fn group_text(groups: Option<Seq<Option<Seq<char>>>>, index: int) -> Option<
    Seq<char>,
> {
    match groups {
        Some(g) if 0 <= index < g.len() => g[index],
        _ => None,
    }
}

/// Trusted: compiles `pattern` with `regex::Regex::new` and searches `text`
/// with `Regex::captures`; the groups of the match are handed out by
/// `Captures::iter`, each as the text that `Match::as_str` gives. The contract
/// claims only that the answer is the one named by [`regex_groups`]: that it
/// depends on the two texts alone. Nothing is said of which text matches.
#[verifier::external_body]
pub(crate) fn capture_groups(pattern: &str, text: &str) -> (r: Option<Vec<Option<String>>>)
    ensures
        groups_view(r) == regex_groups(pattern@, text@),
{
    let re = regex::Regex::new(pattern).ok()?;
    let caps = re.captures(text)?;
    Some(caps.iter().map(|m| m.map(|m| m.as_str().to_string())).collect())
}

/// Reads the text of group `index` out of the groups of a search.
pub fn group(groups: &Option<Vec<Option<String>>>, index: usize) -> (r: Option<String>)
    ensures
        opt_view(r) == group_text(groups_view(*groups), index as int),
{
    match groups {
        Some(v) => {
            if index < v.len() {
                v[index].clone()
            } else {
                None
            }
        },
        None => None,
    }
}

} // verus!
