//! Regular-expression matching, done by the `regex` crate.
use vstd::prelude::*;

verus! {

/// The capture groups of the leftmost match of `pattern` in `text`, as the
/// `regex` crate reports them: group 0 is the whole match, a group that took
/// no part in the match is `None`. `None` when nothing matches, or when
/// `pattern` is not a valid expression.
pub uninterp spec fn regex_captures(pattern: Seq<char>, text: Seq<char>) -> Option<
    Seq<Option<Seq<char>>>,
>;

/// Relies on `regex::Regex::new` and `regex::Regex::captures`: compiles
/// `pattern` and reports the groups of its leftmost match in `text`.
#[verifier::external_body]
fn captures(pattern: &str, text: &str) -> (r: Option<Vec<Option<String>>>)
    ensures
        r.deep_view() == regex_captures(pattern@, text@),
{
    let re = regex::Regex::new(pattern).ok()?;
    let caps = re.captures(text)?;
    Some(caps.iter().map(|g| g.map(|m| m.as_str().to_string())).collect())
}

/// Group `k` of the leftmost match of `pattern` in `text`.
pub open spec fn group_of(pattern: Seq<char>, text: Seq<char>, k: int) -> Option<Seq<char>> {
    match regex_captures(pattern, text) {
        Some(gs) => if 0 <= k < gs.len() {
            gs[k]
        } else {
            None
        },
        None => None,
    }
}

/// Group `k` of the leftmost match of `pattern` in `text`, if it matched.
pub fn capture_group(pattern: &str, text: &str, k: usize) -> (r: Option<String>)
    ensures
        r.deep_view() == group_of(pattern@, text@, k as int),
{
    match captures(pattern, text) {
        Some(gs) => {
            if k < gs.len() {
                let g = &gs[k];
                proof {
                    assert(gs.deep_view()[k as int] == g.deep_view());
                }
                match g {
                    Some(t) => Some(t.clone()),
                    None => None,
                }
            } else {
                None
            }
        },
        None => None,
    }
}

/// Whether `pattern` matches somewhere in `text`.
pub fn is_match(pattern: &str, text: &str) -> (r: bool)
    ensures
        r == regex_captures(pattern@, text@) is Some,
{
    captures(pattern, text).is_some()
}

} // verus!
