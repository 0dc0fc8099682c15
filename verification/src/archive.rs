//! The configuration of a backup and the command lines that archive the
//! sources and bundle the archive with its digest.

use vstd::prelude::*;
use vstd::string::*;
use crate::command::CommandLine;
use crate::ensurer::Program;
use crate::format::BackupFormat;
use crate::text::{prefixed, decimal, extend_prefixed, extend_with, push_arg, push_decimal, split, split_on, views};

verus! {

/// What is backed up, where to, and how.
#[derive(Clone, Debug, PartialEq, Eq)]
pub struct Backup {
    /// Name of the backup; every file made for it begins with it.
    pub name: String,
    /// The directories to back up, joined by `:`.
    pub directory_to_backup: String,
    /// The directory that receives the bundles.
    pub backup_directory: String,
    pub backup_format: BackupFormat,
    /// Patterns of files to leave out, joined by `:`.
    pub exclude: Option<String>,
    pub compression_level: Option<i64>,
}

/// The outcome of a backup: the bundle, where it lies, and its digest.
#[allow(non_camel_case_types)]
#[derive(Clone, Debug, PartialEq, Eq)]
pub struct Backup_Result {
    pub file_name: String,
    pub file_path: String,
    pub sha256_hash: String,
}

/// Why a configuration is refused.
#[derive(Clone, Copy, Debug, PartialEq, Eq, Structural)]
pub enum ConfigError {
    /// The compression level is outside `min ..= max`.
    LevelOutOfRange { min: i64, max: i64 },
    /// A compression level and a compressor override were both given.
    LevelWithOverride,
}

/// The arguments that select the compression of a tar archive, up to and
/// including the flag that takes the archive's path.
pub open spec fn tar_compression_spec(
    format: BackupFormat,
    level: Option<i64>,
    compressor: Option<Seq<char>>,
) -> Result<Seq<Seq<char>>, ConfigError> {
    let top: i64 = if format == BackupFormat::TarZst {
        22
    } else {
        9
    };
    match (level, compressor) {
        (Some(_), Some(_)) => Err(ConfigError::LevelWithOverride),
        (Some(l), None) => if l < 1 || l > top {
            Err(ConfigError::LevelOutOfRange { min: 1, max: top })
        } else if format == BackupFormat::TarZst {
            if l >= 20 {
                Ok(seq!["-I"@, "zstd --ultra -"@ + decimal(l as nat), "-cf"@])
            } else {
                Ok(seq!["-I"@, "zstd -"@ + decimal(l as nat), "-cf"@])
            }
        } else {
            Ok(seq!["-I"@, "gzip -"@ + decimal(l as nat), "-cf"@])
        },
        (None, Some(c)) => Ok(seq!["-I"@, c, "-cf"@]),
        (None, None) => if format == BackupFormat::TarZst {
            Ok(seq!["--zstd"@, "-cf"@])
        } else {
            Ok(seq!["-czf"@])
        },
    }
}

/// The arguments of the command that archives the sources into `output`.
pub open spec fn archive_args_spec(
    format: BackupFormat,
    sources: Seq<Seq<char>>,
    excludes: Option<Seq<Seq<char>>>,
    level: Option<i64>,
    compressor: Option<Seq<char>>,
    output: Seq<char>,
) -> Result<Seq<Seq<char>>, ConfigError> {
    let patterns = match excludes {
        Some(e) => e,
        None => Seq::empty(),
    };
    match format {
        BackupFormat::Zip => match level {
            Some(l) => if l < 1 || l > 9 {
                Err(ConfigError::LevelOutOfRange { min: 1, max: 9 })
            } else {
                Ok(
                    seq![seq!['-'] + decimal(l as nat), "-r"@, output] + sources
                        + prefixed("-x "@, patterns),
                )
            },
            None => Ok(
                seq!["-r"@, output] + sources + prefixed("-x "@, patterns),
            ),
        },
        _ => match tar_compression_spec(format, level, compressor) {
            Ok(flags) => Ok(
                prefixed("--exclude="@, patterns) + flags + seq![output]
                    + sources,
            ),
            Err(e) => Err(e),
        },
    }
}

/// The arguments of the command that bundles the two files `payload` and
/// `sidecar` of directory `workspace` into `bundle`, and the directory it
/// runs in.
pub open spec fn bundle_args_spec(
    format: BackupFormat,
    bundle: Seq<char>,
    workspace: Seq<char>,
    payload: Seq<char>,
    sidecar: Seq<char>,
) -> (Seq<Seq<char>>, Option<Seq<char>>) {
    match format {
        BackupFormat::TarGz => (seq!["-czf"@, bundle, "-C"@, workspace, payload, sidecar], None),
        BackupFormat::TarZst => (
            seq!["--zstd"@, "-cf"@, bundle, "-C"@, workspace, payload, sidecar],
            None,
        ),
        BackupFormat::Zip => (seq!["-r"@, bundle, payload, sidecar], Some(workspace)),
    }
}

impl BackupFormat {
    /// The program that writes archives of this format.
    pub open spec fn archiver_spec(self) -> Program {
        match self {
            BackupFormat::Zip => Program::Zip,
            _ => Program::Tar,
        }
    }

    /// The program that writes archives of this format.
    pub fn archiver(&self) -> (p: Program)
        ensures
            p == self.archiver_spec(),
    {
        match self {
            BackupFormat::Zip => Program::Zip,
            _ => Program::Tar,
        }
    }

    /// The programs that a backup in this format runs: the archiver, the
    /// compressor it calls, and the digest tool.
    pub open spec fn required_programs_spec(self) -> Seq<Program> {
        match self {
            BackupFormat::TarGz => seq![Program::Tar, Program::Gzip, Program::Sha256Sum],
            BackupFormat::TarZst => seq![Program::Tar, Program::Zstd, Program::Sha256Sum],
            BackupFormat::Zip => seq![Program::Zip, Program::Sha256Sum],
        }
    }

    /// The programs that a backup in this format runs, see
    /// [`BackupFormat::required_programs_spec`].
    pub fn required_programs(&self) -> (programs: Vec<Program>)
        ensures
            programs@ == self.required_programs_spec(),
    {
        let mut programs: Vec<Program> = Vec::new();
        match self {
            BackupFormat::TarGz => {
                programs.push(Program::Tar);
                programs.push(Program::Gzip);
            },
            BackupFormat::TarZst => {
                programs.push(Program::Tar);
                programs.push(Program::Zstd);
            },
            BackupFormat::Zip => {
                programs.push(Program::Zip);
            },
        }
        programs.push(Program::Sha256Sum);
        assert(programs@ =~= self.required_programs_spec());
        programs
    }
}

/// Appends the compression arguments of a tar archive to `args`.
fn push_tar_compression(
    args: &mut Vec<String>,
    format: BackupFormat,
    level: Option<i64>,
    compressor: Option<&str>,
) -> (r: Result<(), ConfigError>)
    requires
        format != BackupFormat::Zip,
    ensures
        match tar_compression_spec(
            format,
            level,
            match compressor {
                Some(c) => Some(c@),
                None => None,
            },
        ) {
            Ok(flags) => r is Ok && views(final(args)@) == views(old(args)@) + flags,
            Err(e) => r == Err::<(), ConfigError>(e),
        },
{
    let zst = match format {
        BackupFormat::TarZst => true,
        _ => false,
    };
    let top: i64 = if zst {
        22
    } else {
        9
    };
    let ghost before = views(args@);
    match (level, compressor) {
        (Some(_), Some(_)) => {
            return Err(ConfigError::LevelWithOverride);
        },
        (Some(l), None) => {
            if l < 1 || l > top {
                return Err(ConfigError::LevelOutOfRange { min: 1, max: top });
            }
            let mut tool = if zst {
                if l >= 20 {
                    "zstd --ultra -".to_owned()
                } else {
                    "zstd -".to_owned()
                }
            } else {
                "gzip -".to_owned()
            };
            push_decimal(&mut tool, l as u64);
            push_arg(args, "-I");
            push_arg(args, tool.as_str());
            push_arg(args, "-cf");
            assert(views(args@) =~= before + seq!["-I"@, tool@, "-cf"@]);
        },
        (None, Some(c)) => {
            push_arg(args, "-I");
            push_arg(args, c);
            push_arg(args, "-cf");
            assert(views(args@) =~= before + seq!["-I"@, c@, "-cf"@]);
        },
        (None, None) => {
            if zst {
                push_arg(args, "--zstd");
                push_arg(args, "-cf");
                assert(views(args@) =~= before + seq!["--zstd"@, "-cf"@]);
            } else {
                push_arg(args, "-czf");
                assert(views(args@) =~= before + seq!["-czf"@]);
            }
        },
    }
    Ok(())
}

impl Backup {
    /// A backup named `name` of the directories `directory_to_backup`
    /// (joined by `:`) into `backup_directory`.
    pub fn new(
        name: String,
        directory_to_backup: String,
        backup_directory: String,
        backup_format: BackupFormat,
        exclude: Option<String>,
        compression_level: Option<i64>,
    ) -> (backup: Self)
        ensures
            backup.name == name,
            backup.directory_to_backup == directory_to_backup,
            backup.backup_directory == backup_directory,
            backup.backup_format == backup_format,
            backup.exclude == exclude,
            backup.compression_level == compression_level,
    {
        Backup {
            name,
            directory_to_backup,
            backup_directory,
            backup_format,
            exclude,
            compression_level,
        }
    }

    /// The directories to back up, in the order given.
    pub open spec fn sources_spec(self) -> Seq<Seq<char>> {
        split_on(self.directory_to_backup@, ':')
    }

    /// The patterns of files to leave out, in the order given.
    pub open spec fn excludes_spec(self) -> Option<Seq<Seq<char>>> {
        match self.exclude {
            Some(e) => Some(split_on(e@, ':')),
            None => None,
        }
    }

    /// What [`Backup::archive_command`] gives for this configuration.
    pub open spec fn archive_args(self, output: Seq<char>, compressor: Option<Seq<char>>) -> Result<
        Seq<Seq<char>>,
        ConfigError,
    > {
        archive_args_spec(
            self.backup_format,
            self.sources_spec(),
            self.excludes_spec(),
            self.compression_level,
            compressor,
            output,
        )
    }

    /// The command that archives the sources into the file `output`.
    ///
    /// For the tar formats: `--exclude=` with each pattern, the arguments
    /// that select the compression, `output`, the sources. `compressor`
    /// replaces tar's own choice of compressor and cannot stand beside a
    /// compression level. For zip: the level, `-r`, `output`, the sources,
    /// `-x ` with each pattern; `compressor` is not looked at.
    pub fn archive_command(&self, output: &str, compressor: Option<&str>) -> (r: Result<
        CommandLine,
        ConfigError,
    >)
        ensures
            match self.archive_args(
                output@,
                match compressor {
                    Some(c) => Some(c@),
                    None => None,
                },
            ) {
                Ok(args) => r matches Ok(c) && c.is(
                    self.backup_format.archiver_spec().name_spec(),
                    args,
                    None,
                ),
                Err(e) => r == Err::<CommandLine, ConfigError>(e),
            },
    {
        let sources = split(self.directory_to_backup.as_str(), ':');
        let patterns = match &self.exclude {
            Some(e) => split(e.as_str(), ':'),
            None => Vec::new(),
        };
        assert(views(patterns@) =~= match self.excludes_spec() {
            Some(e) => e,
            None => Seq::empty(),
        });
        let mut args: Vec<String> = Vec::new();
        assert(views(args@) =~= Seq::<Seq<char>>::empty());
        match self.backup_format {
            BackupFormat::Zip => {
                match self.compression_level {
                    Some(l) => {
                        if l < 1 || l > 9 {
                            return Err(ConfigError::LevelOutOfRange { min: 1, max: 9 });
                        }
                        let mut flag = "-".to_owned();
                        proof {
                            reveal_strlit("-");
                        }
                        assert(flag@ =~= seq!['-']);
                        push_decimal(&mut flag, l as u64);
                        push_arg(&mut args, flag.as_str());
                    },
                    None => {},
                }
                push_arg(&mut args, "-r");
                push_arg(&mut args, output);
                let ghost head = views(args@);
                assert(head =~= match self.compression_level {
                    Some(l) => seq![seq!['-'] + decimal(l as nat), "-r"@, output@],
                    None => seq!["-r"@, output@],
                });
                extend_with(&mut args, &sources);
                extend_prefixed(&mut args, "-x ", &patterns);
                assert(views(args@) =~= head + views(sources@) + prefixed("-x "@, views(patterns@)));
                Ok(CommandLine { program: "zip".to_owned(), args, current_dir: None })
            },
            format => {
                extend_prefixed(&mut args, "--exclude=", &patterns);
                let ghost flags = tar_compression_spec(
                    format,
                    self.compression_level,
                    match compressor {
                        Some(c) => Some(c@),
                        None => None,
                    },
                );
                match push_tar_compression(&mut args, format, self.compression_level, compressor) {
                    Err(e) => {
                        return Err(e);
                    },
                    Ok(()) => {},
                }
                push_arg(&mut args, output);
                extend_with(&mut args, &sources);
                assert(views(args@) =~= prefixed("--exclude="@, views(patterns@)) + flags->Ok_0
                    + seq![output@] + views(sources@));
                Ok(CommandLine { program: "tar".to_owned(), args, current_dir: None })
            },
        }
    }

    /// The command that bundles the files `payload` and `sidecar` of the
    /// directory `workspace` into the file `bundle`, so that the bundle
    /// holds the two files under their bare names.
    pub fn bundle_command(&self, bundle: &str, workspace: &str, payload: &str, sidecar: &str) -> (c:
        CommandLine)
        ensures
            c.is(
                self.backup_format.archiver_spec().name_spec(),
                bundle_args_spec(self.backup_format, bundle@, workspace@, payload@, sidecar@).0,
                bundle_args_spec(self.backup_format, bundle@, workspace@, payload@, sidecar@).1,
            ),
    {
        let mut args: Vec<String> = Vec::new();
        assert(views(args@) =~= Seq::<Seq<char>>::empty());
        match self.backup_format {
            BackupFormat::Zip => {
                push_arg(&mut args, "-r");
                push_arg(&mut args, bundle);
                push_arg(&mut args, payload);
                push_arg(&mut args, sidecar);
                assert(views(args@) =~= seq!["-r"@, bundle@, payload@, sidecar@]);
                CommandLine {
                    program: "zip".to_owned(),
                    args,
                    current_dir: Some(workspace.to_owned()),
                }
            },
            format => {
                match format {
                    BackupFormat::TarZst => {
                        push_arg(&mut args, "--zstd");
                        push_arg(&mut args, "-cf");
                    },
                    _ => {
                        push_arg(&mut args, "-czf");
                    },
                }
                push_arg(&mut args, bundle);
                push_arg(&mut args, "-C");
                push_arg(&mut args, workspace);
                push_arg(&mut args, payload);
                push_arg(&mut args, sidecar);
                assert(views(args@) =~= bundle_args_spec(
                    self.backup_format,
                    bundle@,
                    workspace@,
                    payload@,
                    sidecar@,
                ).0);
                CommandLine { program: "tar".to_owned(), args, current_dir: None }
            },
        }
    }
}

/// The command that prints the SHA-256 digest of the file `path`.
pub fn digest_command(path: &str) -> (c: CommandLine)
    ensures
        c.is(Program::Sha256Sum.name_spec(), seq![path@], None),
{
    let mut args: Vec<String> = Vec::new();
    assert(views(args@) =~= Seq::<Seq<char>>::empty());
    push_arg(&mut args, path);
    assert(views(args@) =~= seq![path@]);
    CommandLine { program: "sha256sum".to_owned(), args, current_dir: None }
}

} // verus!
