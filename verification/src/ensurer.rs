//! The outside programs that the tool runs, and how each is asked for
//! its version to see whether it is installed.

use vstd::prelude::*;

verus! {

/// A program that the tool runs.
#[derive(Clone, Copy, Debug, PartialEq, Eq, Structural)]
pub enum Program {
    Java,
    Zip,
    Unzip,
    Wget,
    Dos2Unix,
    Mvn,
    Git,
    Tar,
    Sha256Sum,
    Ls,
    Zstd,
    Gzip,
}

impl Program {
    /// Name of the program's executable.
    pub open spec fn name_spec(self) -> Seq<char> {
        match self {
            Program::Java => "java"@,
            Program::Zip => "zip"@,
            Program::Unzip => "unzip"@,
            Program::Wget => "wget"@,
            Program::Dos2Unix => "dos2unix"@,
            Program::Mvn => "mvn"@,
            Program::Git => "git"@,
            Program::Tar => "tar"@,
            Program::Sha256Sum => "sha256sum"@,
            Program::Ls => "ls"@,
            Program::Zstd => "zstd"@,
            Program::Gzip => "gzip"@,
        }
    }

    /// The argument that makes the program print its version.
    pub open spec fn version_flag_spec(self) -> Seq<char> {
        match self {
            Program::Java => "-version"@,
            Program::Zip => "-v"@,
            Program::Unzip => "-v"@,
            _ => "--version"@,
        }
    }

    /// The executable's name and the arguments with which it is run to
    /// see whether it is installed.
    pub fn command(&self) -> (r: (&'static str, &'static [&'static str]))
        ensures
            r.0@ == self.name_spec(),
            r.1@.len() == 1,
            r.1@[0]@ == self.version_flag_spec(),
    {
        match self {
            Program::Java => ("java", &["-version"]),
            Program::Zip => ("zip", &["-v"]),
            Program::Unzip => ("unzip", &["-v"]),
            Program::Wget => ("wget", &["--version"]),
            Program::Dos2Unix => ("dos2unix", &["--version"]),
            Program::Mvn => ("mvn", &["--version"]),
            Program::Git => ("git", &["--version"]),
            Program::Tar => ("tar", &["--version"]),
            Program::Sha256Sum => ("sha256sum", &["--version"]),
            Program::Ls => ("ls", &["--version"]),
            Program::Zstd => ("zstd", &["--version"]),
            Program::Gzip => ("gzip", &["--version"]),
        }
    }
}


/// Checks that programs are installed.
#[derive(Clone, Copy, Debug, PartialEq, Eq, Structural)]
pub struct Ensurer;

/// The first of `programs` that is not installed, `installed` saying of
/// each whether it is; one that `installed` does not speak of counts as
/// not installed.
pub open spec fn first_missing(programs: Seq<Program>, installed: Seq<bool>) -> Option<Program>
    decreases programs.len(),
{
    if programs.len() == 0 {
        None
    } else if installed.len() == 0 || !installed[0] {
        Some(programs[0])
    } else {
        first_missing(programs.drop_first(), installed.drop_first())
    }
}

impl Ensurer {
    /// Whether a program is installed, given how the run for its version
    /// went: `None` where it could not be started, else whether it ended
    /// well.
    pub fn is_installed(ran: Option<bool>) -> (installed: bool)
        ensures
            installed == (ran == Some(true)),
    {
        match ran {
            Some(success) => success,
            None => false,
        }
    }

    /// The first of the required programs that is missing, see
    /// [`first_missing`]. `None` where all are installed.
    pub fn ensure_programs(programs: &Vec<Program>, installed: &Vec<bool>) -> (missing: Option<
        Program,
    >)
        ensures
            missing == first_missing(programs@, installed@),
    {
        let mut i: usize = 0;
        assert(programs@.subrange(0, programs@.len() as int) =~= programs@);
        assert(installed@.subrange(0, installed@.len() as int) =~= installed@);
        while i < programs.len()
            invariant
                i <= programs.len(),
                i <= installed.len(),
                first_missing(programs@, installed@) == first_missing(
                    programs@.subrange(i as int, programs@.len() as int),
                    installed@.subrange(i as int, installed@.len() as int),
                ),
            decreases programs.len() - i,
        {
            let ghost p = programs@.subrange(i as int, programs@.len() as int);
            let ghost f = installed@.subrange(i as int, installed@.len() as int);
            assert(p[0] == programs@[i as int]);
            if i >= installed.len() || !installed[i] {
                assert(f.len() == 0 || f[0] == installed@[i as int]);
                return Some(programs[i]);
            }
            assert(f[0] == installed@[i as int]);
            assert(p.drop_first() =~= programs@.subrange(i + 1, programs@.len() as int));
            assert(f.drop_first() =~= installed@.subrange(i + 1, installed@.len() as int));
            i += 1;
        }
        None
    }
}

} // verus!
