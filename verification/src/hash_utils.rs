//! Expected digests of downloaded files and their comparison with what a
//! digest tool printed.

use vstd::prelude::*;
use vstd::string::*;
use crate::digest::{first_token, first_token_spec};

use crate::text::equal_texts;

verus! {

/// A digest that a file is expected to have.
#[derive(Clone, Debug, PartialEq, Eq)]
pub struct Hash {
    /// Name of the algorithm, `sha256` or `md5`.
    pub algorithm: String,
    /// The digest in hexadecimal notation.
    pub hash: String,
}

/// The algorithms for which a digest tool is known.
pub open spec fn is_known_algorithm(algorithm: Seq<char>) -> bool {
    algorithm == "sha256"@ || algorithm == "md5"@
}

impl Hash {
    pub fn new(algorithm: String, hash: String) -> (h: Self)
        ensures
            h.algorithm == algorithm,
            h.hash == hash,
    {
        Self { algorithm, hash }
    }

    /// The tool that computes digests of this algorithm.
    pub fn digest_program(&self) -> (program: Option<&'static str>)
        ensures
            self.algorithm@ == "sha256"@ ==> (program matches Some(p) && p@ == "sha256sum"@),
            self.algorithm@ == "md5"@ ==> (program matches Some(p) && p@ == "md5sum"@),
            program is Some <==> is_known_algorithm(self.algorithm@),
    {
        proof {
            reveal_strlit("sha256");
            reveal_strlit("md5");
            assert("sha256"@.len() == 6);
            assert("md5"@.len() == 3);
        }
        if equal_texts(self.algorithm.as_str(), "sha256") {
            Some("sha256sum")
        } else if equal_texts(self.algorithm.as_str(), "md5") {
            Some("md5sum")
        } else {
            None
        }
    }

    /// Whether the digest that the tool printed in `tool_output` is the
    /// expected one; `None` for an algorithm without tool.
    pub fn validate_hash(&self, tool_output: &str) -> (r: Option<bool>)
        ensures
            r == if is_known_algorithm(self.algorithm@) {
                Some(self.hash@ == first_token_spec(tool_output@))
            } else {
                None
            },
    {
        match self.digest_program() {
            Some(_) => {
                let found = first_token(tool_output);
                Some(equal_texts(self.hash.as_str(), found.as_str()))
            },
            None => None,
        }
    }

    /// The digest that the tool printed in `tool_output` for the jar in
    /// the temporary directory; `None` for an algorithm without tool.
    pub fn get_hash_from_tmp_jar(&self, tool_output: &str) -> (r: Option<String>)
        ensures
            r is Some <==> is_known_algorithm(self.algorithm@),
            r matches Some(h) ==> h@ == first_token_spec(tool_output@),
    {
        self.get_the_hash(tool_output)
    }

    /// The digest that the tool printed in `tool_output`; `None` for an
    /// algorithm without tool.
    pub fn get_the_hash(&self, tool_output: &str) -> (r: Option<String>)
        ensures
            r is Some <==> is_known_algorithm(self.algorithm@),
            r matches Some(h) ==> h@ == first_token_spec(tool_output@),
    {
        match self.digest_program() {
            Some(_) => Some(first_token(tool_output)),
            None => None,
        }
    }
}

} // verus!