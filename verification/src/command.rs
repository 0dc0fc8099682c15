//! Command lines for the outside programs, as plain values: the program,
//! its arguments and the directory it runs in.

use vstd::prelude::*;
use vstd::string::*;
use crate::text::views;

verus! {

/// One run of an outside program.
#[derive(Clone, Debug, PartialEq, Eq)]
pub struct CommandLine {
    pub program: String,
    pub args: Vec<String>,
    /// The directory to run in; `None` for the caller's own.
    pub current_dir: Option<String>,
}

/// What the optional string holds.
pub open spec fn option_view(s: Option<String>) -> Option<Seq<char>> {
    match s {
        Some(s) => Some(s@),
        None => None,
    }
}

impl CommandLine {
    /// The arguments as texts.
    pub open spec fn args_spec(self) -> Seq<Seq<char>> {
        views(self.args@)
    }

    /// The command line is `program args..`, run in `dir`.
    pub open spec fn is(self, program: Seq<char>, args: Seq<Seq<char>>, dir: Option<Seq<char>>) -> bool {
        self.program@ == program && self.args_spec() == args && option_view(self.current_dir) == dir
    }
}

/// `dir` and `file` as one path: joined by `/` unless `dir` is empty or
/// ends in `/` already.
pub open spec fn join_path_spec(dir: Seq<char>, file: Seq<char>) -> Seq<char> {
    if dir.len() == 0 || dir.last() == '/' {
        dir + file
    } else {
        dir + seq!['/'] + file
    }
}

/// The path of `file` in directory `dir`, see [`join_path_spec`].
pub fn join_path(dir: &str, file: &str) -> (path: String)
    ensures
        path@ == join_path_spec(dir@, file@),
{
    let mut path = dir.to_owned();
    let n = dir.unicode_len();
    if n > 0 && dir.get_char(n - 1) != '/' {
        path.push('/');
    }
    path.append(file);
    path
}

} // verus!
