//! What is read off the pages of a Jenkins server.

use vstd::prelude::*;
use vstd::string::*;
use crate::command::option_view;
use crate::pattern::{first_group, is_match, regex_first_group, regex_is_match};
use crate::text::chars_of;

verus! {

/// The regular expression that finds the MD5 fingerprint on the page of
/// a file.
pub open spec fn fingerprint_pattern() -> Seq<char> {
    "The fingerprint (\\w{32})"@
}

/// The expected digest of a file, given the fingerprint found on its
/// page.
pub fn hash_from_fingerprint(fingerprint: Option<String>) -> (hash: Option<crate::hash_utils::Hash>)
    ensures
        hash is Some <==> fingerprint is Some,
        hash matches Some(h) ==> h.algorithm@ == "md5"@ && Some(h.hash@) == option_view(fingerprint),
{
    match fingerprint {
        Some(f) => Some(crate::hash_utils::Hash { algorithm: "md5".to_owned(), hash: f }),
        None => None,
    }
}

/// The expected MD5 digest of a file as its fingerprint page `html`
/// states it; `None` where the page states none.
pub fn extract_file_fingerprint_hash(html: &str) -> (hash: Option<crate::hash_utils::Hash>)
    ensures
        hash is Some <==> regex_first_group(fingerprint_pattern(), html@) is Some,
        hash matches Some(h) ==> h.algorithm@ == "md5"@ && Some(h.hash@) == regex_first_group(
            fingerprint_pattern(),
            html@,
        ),
{
    hash_from_fingerprint(first_group("The fingerprint (\\w{32})", html))
}

/// The name ends in `.jar` and has more than that: it has the extension
/// `jar`.
pub open spec fn has_jar_extension(name: Seq<char>) -> bool {
    name.len() > 4 && name.subrange(name.len() - 4, name.len() as int) == seq!['.', 'j', 'a', 'r']
}

/// Whether `name` has the extension `jar`.
pub fn is_jar_name(name: &str) -> (jar: bool)
    ensures
        jar == has_jar_extension(name@),
{
    let v = chars_of(name);
    let n = v.len();
    if n <= 4 {
        return false;
    }
    let jar = v[n - 4] == '.' && v[n - 3] == 'j' && v[n - 2] == 'a' && v[n - 1] == 'r';
    proof {
        let tail = v@.subrange(n - 4, n as int);
        assert(tail[0] == v@[n - 4]);
        assert(tail[1] == v@[n - 3]);
        assert(tail[2] == v@[n - 2]);
        assert(tail[3] == v@[n - 1]);
        if jar {
            assert(tail =~= seq!['.', 'j', 'a', 'r']);
        }
    }
    jar
}

/// Whether a file is the jar looked for, given whether its name has the
/// extension `jar` and what matching it against the pattern gave.
pub fn is_wanted(jar: bool, matched: Option<bool>) -> (wanted: bool)
    ensures
        wanted == (jar && matched == Some(true)),
{
    jar && match matched {
        Some(m) => m,
        None => false,
    }
}

/// Whether the file `name` is a jar whose name matches the regular
/// expression `pattern`.
pub fn is_wanted_jar(name: &str, pattern: &str) -> (wanted: bool)
    ensures
        wanted == (has_jar_extension(name@) && regex_is_match(pattern@, name@) == Some(true)),
{
    if is_jar_name(name) {
        is_wanted(true, is_match(pattern, name))
    } else {
        false
    }
}

} // verus!
