//! Reading the output of a digest tool.

use vstd::prelude::*;
use vstd::string::*;
use crate::text::{chars_of, is_space, is_space_char, push_range};

verus! {

/// The first position from `i` on that holds no white space.
pub open spec fn skip_spaces(s: Seq<char>, i: int) -> int
    decreases s.len() - i,
{
    if 0 <= i < s.len() && is_space(s[i]) {
        skip_spaces(s, i + 1)
    } else {
        i
    }
}

/// The first position from `i` on that holds white space, or the end.
pub open spec fn skip_word(s: Seq<char>, i: int) -> int
    decreases s.len() - i,
{
    if 0 <= i < s.len() && !is_space(s[i]) {
        skip_word(s, i + 1)
    } else {
        i
    }
}

/// The first run of characters of `s` that holds no white space; empty
/// where `s` is empty or all white space.
pub open spec fn first_token_spec(s: Seq<char>) -> Seq<char> {
    let start = skip_spaces(s, 0);
    s.subrange(start, skip_word(s, start))
}

/// The first token of a tool's output: for a digest tool, the digest.
pub fn first_token(output: &str) -> (token: String)
    ensures
        token@ == first_token_spec(output@),
{
    let v = chars_of(output);
    let mut start: usize = 0;
    while start < v.len() && is_space_char(v[start])
        invariant
            start <= v.len(),
            skip_spaces(v@, 0) == skip_spaces(v@, start as int),
        decreases v.len() - start,
    {
        start += 1;
    }
    let mut end: usize = start;
    while end < v.len() && !is_space_char(v[end])
        invariant
            start <= end <= v.len(),
            skip_word(v@, start as int) == skip_word(v@, end as int),
        decreases v.len() - end,
    {
        end += 1;
    }
    let mut token = String::new();
    push_range(&mut token, &v, start, end);
    token
}

} // verus!
