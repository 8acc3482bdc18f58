//! Regular-expression matching of single header lines.
use vstd::prelude::*;

verus! {

/// The capture groups of the leftmost-first match of the regular expression
/// `pattern` in `text`, group 0 first; nothing when `pattern` does not compile
/// or does not match.
pub uninterp spec fn regex_captures(pattern: Seq<char>, text: Seq<char>) -> Option<
    Seq<Option<Seq<char>>>,
>;

/// The views of the groups of a match.
pub open spec fn groups_view(groups: Seq<Option<String>>) -> Seq<Option<Seq<char>>> {
    groups.map_values(
        |g: Option<String>|
            match g {
                Some(s) => Some(s@),
                None => None,
            },
    )
}

/// Group `i` of a match, if it took part in the match.
pub open spec fn group(groups: Seq<Option<Seq<char>>>, i: int) -> Option<Seq<char>> {
    if 0 <= i < groups.len() {
        groups[i]
    } else {
        None
    }
}

/// Relies on `regex::Regex::new`, which compiles `pattern`, and on
/// `regex::Regex::captures`, which gives the groups of the leftmost-first match
/// of it in `text`.
#[verifier::external_body]
pub(crate) fn captures(pattern: &str, text: &str) -> (r: Option<Vec<Option<String>>>)
    ensures
        match r {
            Some(g) => regex_captures(pattern@, text@) == Some(groups_view(g@)),
            None => regex_captures(pattern@, text@) is None,
        },
{
    let re = regex::Regex::new(pattern).ok()?;
    let caps = re.captures(text)?;
    Some(caps.iter().map(|m| m.map(|m| m.as_str().to_string())).collect())
}

/// Group `i` of a match, copied out.
pub fn group_at(groups: &Vec<Option<String>>, i: usize) -> (r: Option<String>)
    ensures
        match r {
            Some(s) => group(groups_view(groups@), i as int) == Some(s@),
            None => group(groups_view(groups@), i as int) is None,
        },
{
    if i < groups.len() {
        match &groups[i] {
            Some(s) => Some(s.clone()),
            None => None,
        }
    } else {
        None
    }
}

} // verus!
