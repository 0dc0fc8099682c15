//! Regular expressions, matched by the `regex` crate.

use vstd::prelude::*;
use crate::command::option_view;

verus! {

/// What the first group of the leftmost match of the regular expression
/// `pattern` in `text` holds. `None` where `pattern` is no regular
/// expression, where it matches nowhere in `text`, and where the group
/// took no part in the match.
pub uninterp spec fn regex_first_group(pattern: Seq<char>, text: Seq<char>) -> Option<Seq<char>>;

/// Whether the regular expression `pattern` matches somewhere in `text`.
/// `None` where `pattern` is no regular expression.
pub uninterp spec fn regex_is_match(pattern: Seq<char>, text: Seq<char>) -> Option<bool>;

/// `Regex::new`, `Regex::captures` and `Captures::get(1)` of the `regex`
/// crate: the text of the first group of the leftmost match.
#[verifier::external_body]
pub(crate) fn first_group(pattern: &str, text: &str) -> (found: Option<String>)
    ensures
        option_view(found) == regex_first_group(pattern@, text@),
{
    let re = match regex::Regex::new(pattern) {
        Ok(re) => re,
        Err(_) => return None,
    };
    match re.captures(text) {
        Some(captures) => match captures.get(1) {
            Some(group) => Some(group.as_str().to_string()),
            None => None,
        },
        None => None,
    }
}

/// `Regex::new` and `Regex::is_match` of the `regex` crate.
#[verifier::external_body]
pub(crate) fn is_match(pattern: &str, text: &str) -> (found: Option<bool>)
    ensures
        found == regex_is_match(pattern@, text@),
{
    match regex::Regex::new(pattern) {
        Ok(re) => Some(re.is_match(text)),
        Err(_) => None,
    }
}

} // verus!
