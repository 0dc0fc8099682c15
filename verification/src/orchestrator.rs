//! One backup from the check of the tools to the finished bundle, as a
//! sequence of decisions: each takes in what happened outside and says
//! what is to be done next.

use vstd::prelude::*;
use vstd::string::*;
use crate::archive::{bundle_args_spec, digest_command, Backup, Backup_Result, ConfigError};
use crate::command::{join_path, join_path_spec, option_view, CommandLine};
use crate::date::Date;
use crate::digest::{first_token, first_token_spec};
use crate::ensurer::Program;
use crate::naming::{
    bundle_file_name, bundle_name_spec, hash_file_name, hash_name_spec, next_sequence_number,
    next_sequence_spec, payload_file_name, payload_name_spec,
};
use crate::text::{holds_name, views};

verus! {

/// Why a backup failed.
#[derive(Clone, Debug, PartialEq, Eq)]
pub enum BackupError {
    /// The configuration is refused; nothing was run.
    Config(ConfigError),
    /// A program that the backup needs is not installed.
    ToolMissing(Program),
    /// The workspace of an earlier run is still there, at this path. It is
    /// left as it is.
    StaleWorkspace(String),
    /// The archiver failed; this is what it wrote to its error output.
    ArchiveFailure(String),
    /// The digest tool failed.
    HashFailure,
    /// A bundle of the computed name exists, at this path. It is left as
    /// it is.
    NamingCollision(String),
    /// The backup directory holds more files than can be counted.
    ListingTooLong,
    /// An operation on the file system failed.
    Io(String),
    /// Something was reported that the backup was not waiting for.
    UnexpectedEvent,
}

/// What a backup is waiting for.
#[derive(Clone, Copy, Debug, PartialEq, Eq, Structural)]
pub enum BackupPhase {
    /// The answer whether the required program number `next` is there.
    ProbingTools { next: usize },
    /// The backup directory.
    PreparingDirectory,
    /// The answer whether the workspace exists.
    CheckingWorkspace,
    /// The workspace.
    CreatingWorkspace,
    /// The archiver, at work on the payload.
    Archiving,
    /// The digest of the payload.
    HashingPayload,
    /// The file with the digest.
    WritingSidecar,
    /// The names of the files in the backup directory.
    Listing,
    /// The archiver, at work on the bundle with this sequence number.
    Bundling { seq: u64 },
    /// The removal of the workspace.
    CleaningUp { seq: u64 },
    /// The digest of the bundle.
    HashingBundle { seq: u64 },
    /// The removal of the workspace after a failure.
    Aborting,
    Finished,
    Failed,
}

impl BackupPhase {
    /// The workspace is there and holds what the run has made so far.
    pub open spec fn holds_workspace(self) -> bool {
        self is Archiving || self is HashingPayload || self is WritingSidecar || self is Listing
            || self is Bundling
    }

    /// Whether the workspace is there, see
    /// [`BackupPhase::holds_workspace`].
    pub fn in_workspace(&self) -> (there: bool)
        ensures
            there == self.holds_workspace(),
    {
        match self {
            BackupPhase::Archiving => true,
            BackupPhase::HashingPayload => true,
            BackupPhase::WritingSidecar => true,
            BackupPhase::Listing => true,
            BackupPhase::Bundling { .. } => true,
            _ => false,
        }
    }
}

/// What happened outside.
#[derive(Clone, Debug, PartialEq, Eq)]
pub enum BackupEvent {
    /// The program asked for is installed, or not.
    Probed(bool),
    /// The path asked for exists, or not.
    Exists(bool),
    /// The operation on the file system is done.
    Completed,
    /// The operation on the file system failed.
    IoFailed(String),
    /// The program has run.
    Exited { success: bool, stdout: String, stderr: String },
    /// The names of the files in the directory asked for.
    Listing(Vec<String>),
}

/// What to do next outside.
#[derive(Clone, Debug, PartialEq, Eq)]
pub enum BackupAction {
    /// See whether the program is installed.
    Probe(Program),
    /// Create the directory with its parents unless it is there.
    EnsureDirectory(String),
    /// See whether the path exists.
    CheckExists(String),
    /// Create the directory.
    CreateDirectory(String),
    /// Run the command and wait for it.
    Run(CommandLine),
    /// Write the file.
    WriteFile { path: String, contents: String },
    /// List the files of the directory.
    ListFiles(String),
    /// Delete the two files, then the directory.
    RemoveWorkspace { payload: String, sidecar: String, workspace: String },
    /// The backup is done.
    Finish(Backup_Result),
    Fail(BackupError),
}

/// One run of a backup.
#[derive(Clone, Debug, PartialEq, Eq)]
pub struct BackupRun {
    pub backup: Backup,
    /// The day of the run.
    pub date: Date,
    /// A compressor to use in place of tar's own choice.
    pub compressor: Option<String>,
    pub phase: BackupPhase,
    /// Why the run is ending, while the workspace is being removed.
    pub failure: Option<BackupError>,
}

/// Name of the workspace within the backup directory.
pub open spec fn workspace_name() -> Seq<char> {
    ".lmtmp"@
}

impl BackupRun {
    /// The directory in which payload and digest lie until they are
    /// bundled.
    pub open spec fn workspace_spec(self) -> Seq<char> {
        join_path_spec(self.backup.backup_directory@, workspace_name())
    }

    /// Name of the payload archive.
    pub open spec fn payload_name(self) -> Seq<char> {
        payload_name_spec(self.backup.name@, self.date, self.backup.backup_format)
    }

    /// Path of the payload archive.
    pub open spec fn payload_path(self) -> Seq<char> {
        join_path_spec(self.workspace_spec(), self.payload_name())
    }

    /// Name of the file with the payload's digest.
    pub open spec fn sidecar_name(self) -> Seq<char> {
        hash_name_spec(self.backup.name@, self.date)
    }

    /// Path of the file with the payload's digest.
    pub open spec fn sidecar_path(self) -> Seq<char> {
        join_path_spec(self.workspace_spec(), self.sidecar_name())
    }

    /// Name of the bundle with sequence number `seq`.
    pub open spec fn bundle_name(self, seq: nat) -> Seq<char> {
        bundle_name_spec(self.backup.name@, self.date, seq, self.backup.backup_format)
    }

    /// Path of the bundle with sequence number `seq`.
    pub open spec fn bundle_path(self, seq: nat) -> Seq<char> {
        join_path_spec(self.backup.backup_directory@, self.bundle_name(seq))
    }

    /// The arguments of the archiver for the payload, or why the
    /// configuration is refused.
    pub open spec fn archive_args(self) -> Result<Seq<Seq<char>>, ConfigError> {
        self.backup.archive_args(self.payload_path(), option_view(self.compressor))
    }

    /// The command is the archiver's for the payload.
    pub open spec fn is_archive_command(self, c: CommandLine) -> bool {
        self.archive_args() matches Ok(args) && c.is(
            self.backup.backup_format.archiver_spec().name_spec(),
            args,
            None,
        )
    }

    /// The command is the archiver's for the bundle with sequence number
    /// `seq`.
    pub open spec fn is_bundle_command(self, c: CommandLine, seq: nat) -> bool {
        let (args, dir) = bundle_args_spec(
            self.backup.backup_format,
            self.bundle_path(seq),
            self.workspace_spec(),
            self.payload_name(),
            self.sidecar_name(),
        );
        c.is(self.backup.backup_format.archiver_spec().name_spec(), args, dir)
    }

    /// The command is the digest tool's for the file `path`.
    pub open spec fn is_digest_command(c: CommandLine, path: Seq<char>) -> bool {
        c.is(Program::Sha256Sum.name_spec(), seq![path], None)
    }
}

/// The run fails for the reason given.
pub open spec fn fails_with(post: BackupPhase, action: BackupAction, error: BackupError) -> bool {
    post == BackupPhase::Failed && action == BackupAction::Fail(error)
}

/// The run fails with a message from outside.
pub open spec fn fails_with_io(post: BackupPhase, action: BackupAction, message: String) -> bool {
    post == BackupPhase::Failed && (action matches BackupAction::Fail(BackupError::Io(m)) && m@
        == message@)
}

/// The run gives up: it asks for the removal of the workspace and will
/// fail once that is done.
pub open spec fn gives_up(pre: BackupRun, post: BackupPhase, action: BackupAction) -> bool {
    &&& post == BackupPhase::Aborting
    &&& action matches BackupAction::RemoveWorkspace { payload, sidecar, workspace }
    &&& payload@ == pre.payload_path()
    &&& sidecar@ == pre.sidecar_path()
    &&& workspace@ == pre.workspace_spec()
}

/// What a run in phase `pre.phase` does when `event` is reported: the
/// phase it goes to and the action it asks for.
pub open spec fn backup_step(
    pre: BackupRun,
    event: BackupEvent,
    post: BackupPhase,
    pending: Option<BackupError>,
    action: BackupAction,
) -> bool {
    let required = pre.backup.backup_format.required_programs_spec();
    &&& post != BackupPhase::Aborting ==> pending is None
    &&& match (pre.phase, event) {
        (BackupPhase::ProbingTools { next }, BackupEvent::Probed(found)) => {
            if next >= required.len() {
                fails_with(post, action, BackupError::UnexpectedEvent)
            } else if !found {
                fails_with(post, action, BackupError::ToolMissing(required[next as int]))
            } else if next + 1 < required.len() {
                post == (BackupPhase::ProbingTools { next: (next + 1) as usize }) && action
                    == BackupAction::Probe(required[next + 1])
            } else {
                &&& post == BackupPhase::PreparingDirectory
                &&& action matches BackupAction::EnsureDirectory(d)
                &&& d@ == pre.backup.backup_directory@
            }
        },
        (BackupPhase::PreparingDirectory, BackupEvent::Completed) => {
            &&& post == BackupPhase::CheckingWorkspace
            &&& action matches BackupAction::CheckExists(p)
            &&& p@ == pre.workspace_spec()
        },
        (BackupPhase::PreparingDirectory, BackupEvent::IoFailed(m)) => fails_with_io(
            post,
            action,
            m,
        ),
        (BackupPhase::CheckingWorkspace, BackupEvent::Exists(there)) => {
            if there {
                &&& post == BackupPhase::Failed
                &&& action matches BackupAction::Fail(BackupError::StaleWorkspace(p))
                &&& p@ == pre.workspace_spec()
            } else {
                &&& post == BackupPhase::CreatingWorkspace
                &&& action matches BackupAction::CreateDirectory(p)
                &&& p@ == pre.workspace_spec()
            }
        },
        (BackupPhase::CreatingWorkspace, BackupEvent::Completed) => {
            match pre.archive_args() {
                Ok(_) => {
                    &&& post == BackupPhase::Archiving
                    &&& action matches BackupAction::Run(c)
                    &&& pre.is_archive_command(c)
                },
                Err(e) => gives_up(pre, post, action) && pending == Some(BackupError::Config(e)),
            }
        },
        (BackupPhase::CreatingWorkspace, BackupEvent::IoFailed(m)) => fails_with_io(
            post,
            action,
            m,
        ),
        (BackupPhase::Archiving, BackupEvent::Exited { success, stdout, stderr }) => {
            if success {
                &&& post == BackupPhase::HashingPayload
                &&& action matches BackupAction::Run(c)
                &&& BackupRun::is_digest_command(c, pre.payload_path())
            } else {
                &&& gives_up(pre, post, action)
                &&& pending matches Some(BackupError::ArchiveFailure(m))
                &&& m@ == stderr@
            }
        },
        (BackupPhase::HashingPayload, BackupEvent::Exited { success, stdout, stderr }) => {
            if success {
                &&& post == BackupPhase::WritingSidecar
                &&& action matches BackupAction::WriteFile { path, contents }
                &&& path@ == pre.sidecar_path()
                &&& contents@ == stdout@
            } else {
                gives_up(pre, post, action) && pending == Some(BackupError::HashFailure)
            }
        },
        (BackupPhase::WritingSidecar, BackupEvent::Completed) => {
            &&& post == BackupPhase::Listing
            &&& action matches BackupAction::ListFiles(d)
            &&& d@ == pre.backup.backup_directory@
        },
        (BackupPhase::WritingSidecar, BackupEvent::IoFailed(m)) => {
            &&& gives_up(pre, post, action)
            &&& pending matches Some(BackupError::Io(t))
            &&& t@ == m@
        },
        (BackupPhase::Listing, BackupEvent::Listing(files)) => {
            let seq = next_sequence_spec(views(files@), pre.backup.name@, pre.date);
            if files.len() >= u64::MAX {
                gives_up(pre, post, action) && pending == Some(BackupError::ListingTooLong)
            } else if views(files@).contains(pre.bundle_name(seq)) {
                &&& gives_up(pre, post, action)
                &&& pending matches Some(BackupError::NamingCollision(p))
                &&& p@ == pre.bundle_path(seq)
            } else {
                &&& post matches BackupPhase::Bundling { seq: number }
                &&& number == seq
                &&& action matches BackupAction::Run(c)
                &&& pre.is_bundle_command(c, seq)
            }
        },
        (BackupPhase::Listing, BackupEvent::IoFailed(m)) => {
            &&& gives_up(pre, post, action)
            &&& pending matches Some(BackupError::Io(t))
            &&& t@ == m@
        },
        (BackupPhase::Bundling { seq }, BackupEvent::Exited { success, stdout, stderr }) => {
            if success {
                &&& post == BackupPhase::CleaningUp { seq }
                &&& action matches BackupAction::RemoveWorkspace { payload, sidecar, workspace }
                &&& payload@ == pre.payload_path()
                &&& sidecar@ == pre.sidecar_path()
                &&& workspace@ == pre.workspace_spec()
            } else {
                &&& gives_up(pre, post, action)
                &&& pending matches Some(BackupError::ArchiveFailure(m))
                &&& m@ == stderr@
            }
        },
        (BackupPhase::Aborting, BackupEvent::Completed) | (
            BackupPhase::Aborting,
            BackupEvent::IoFailed(_),
        ) => {
            match pre.failure {
                Some(e) => fails_with(post, action, e),
                None => fails_with(post, action, BackupError::UnexpectedEvent),
            }
        },
        (BackupPhase::CleaningUp { seq }, BackupEvent::Completed) => {
            &&& post == BackupPhase::HashingBundle { seq }
            &&& action matches BackupAction::Run(c)
            &&& BackupRun::is_digest_command(c, pre.bundle_path(seq as nat))
        },
        (BackupPhase::CleaningUp { seq }, BackupEvent::IoFailed(m)) => fails_with_io(
            post,
            action,
            m,
        ),
        (BackupPhase::HashingBundle { seq }, BackupEvent::Exited { success, stdout, stderr }) => {
            if success {
                &&& post == BackupPhase::Finished
                &&& action matches BackupAction::Finish(result)
                &&& result.file_name@ == pre.bundle_name(seq as nat)
                &&& result.file_path@ == pre.bundle_path(seq as nat)
                &&& result.sha256_hash@ == first_token_spec(stdout@)
            } else {
                fails_with(post, action, BackupError::HashFailure)
            }
        },
        _ => if pre.phase.holds_workspace() {
            gives_up(pre, post, action) && pending == Some(BackupError::UnexpectedEvent)
        } else {
            fails_with(post, action, BackupError::UnexpectedEvent)
        },
    }
}

impl BackupRun {
    /// Begins a backup on the day `date`.
    ///
    /// A configuration that is refused ends the run at once; else the
    /// first of the required programs is asked for. Nothing else happens
    /// before every one of them has been found.
    pub fn begin(backup: Backup, date: Date, compressor: Option<String>) -> (r: (
        BackupRun,
        BackupAction,
    ))
        requires
            date.is_valid(),
        ensures
            r.0.backup == backup,
            r.0.date == date,
            r.0.compressor == compressor,
            r.0.failure is None,
            match r.0.archive_args() {
                Ok(_) => r.0.phase == (BackupPhase::ProbingTools { next: 0 }) && r.1
                    == BackupAction::Probe(backup.backup_format.required_programs_spec()[0]),
                Err(e) => r.0.phase == BackupPhase::Failed && r.1 == BackupAction::Fail(
                    BackupError::Config(e),
                ),
            },
    {
        let mut run = BackupRun {
            backup,
            date,
            compressor,
            phase: BackupPhase::ProbingTools { next: 0 },
            failure: None,
        };
        match run.archive_command() {
            Ok(_) => {
                let required = run.backup.backup_format.required_programs();
                let first = required[0];
                (run, BackupAction::Probe(first))
            },
            Err(e) => {
                run.phase = BackupPhase::Failed;
                (run, BackupAction::Fail(BackupError::Config(e)))
            },
        }
    }

    /// See [`BackupRun::workspace_spec`].
    pub fn workspace(&self) -> (path: String)
        ensures
            path@ == self.workspace_spec(),
    {
        join_path(self.backup.backup_directory.as_str(), ".lmtmp")
    }

    fn payload(&self) -> (r: (String, String))
        requires
            self.date.is_valid(),
        ensures
            r.0@ == self.payload_name(),
            r.1@ == self.payload_path(),
    {
        let name = payload_file_name(
            self.backup.name.as_str(),
            &self.date,
            self.backup.backup_format,
        );
        let workspace = self.workspace();
        let path = join_path(workspace.as_str(), name.as_str());
        (name, path)
    }

    fn sidecar(&self) -> (r: (String, String))
        requires
            self.date.is_valid(),
        ensures
            r.0@ == self.sidecar_name(),
            r.1@ == self.sidecar_path(),
    {
        let name = hash_file_name(self.backup.name.as_str(), &self.date);
        let workspace = self.workspace();
        let path = join_path(workspace.as_str(), name.as_str());
        (name, path)
    }

    fn bundle(&self, seq: u64) -> (r: (String, String))
        requires
            self.date.is_valid(),
        ensures
            r.0@ == self.bundle_name(seq as nat),
            r.1@ == self.bundle_path(seq as nat),
    {
        let name = bundle_file_name(
            self.backup.name.as_str(),
            &self.date,
            seq,
            self.backup.backup_format,
        );
        let path = join_path(self.backup.backup_directory.as_str(), name.as_str());
        (name, path)
    }

    fn archive_command(&self) -> (r: Result<CommandLine, ConfigError>)
        requires
            self.date.is_valid(),
        ensures
            match self.archive_args() {
                Ok(_) => r matches Ok(c) && self.is_archive_command(c),
                Err(e) => r == Err::<CommandLine, ConfigError>(e),
            },
    {
        let (_, path) = self.payload();
        let compressor = match &self.compressor {
            Some(c) => Some(c.as_str()),
            None => None,
        };
        self.backup.archive_command(path.as_str(), compressor)
    }

    fn fail(&mut self, error: BackupError) -> (action: BackupAction)
        ensures
            final(self).backup == old(self).backup,
            final(self).date == old(self).date,
            final(self).compressor == old(self).compressor,
            final(self).phase == BackupPhase::Failed,
            final(self).failure is None,
            action == BackupAction::Fail(error),
    {
        self.phase = BackupPhase::Failed;
        self.failure = None;
        BackupAction::Fail(error)
    }

    fn give_up(&mut self, error: BackupError) -> (action: BackupAction)
        requires
            old(self).date.is_valid(),
        ensures
            final(self).backup == old(self).backup,
            final(self).date == old(self).date,
            final(self).compressor == old(self).compressor,
            final(self).failure == Some(error),
            gives_up(*old(self), final(self).phase, action),
    {
        let workspace = self.workspace();
        let (_, payload) = self.payload();
        let (_, sidecar) = self.sidecar();
        self.phase = BackupPhase::Aborting;
        self.failure = Some(error);
        BackupAction::RemoveWorkspace { payload, sidecar, workspace }
    }

    fn end(&mut self) -> (action: BackupAction)
        ensures
            final(self).backup == old(self).backup,
            final(self).date == old(self).date,
            final(self).compressor == old(self).compressor,
            final(self).phase == BackupPhase::Failed,
            final(self).failure is None,
            action == BackupAction::Fail(
                match old(self).failure {
                    Some(e) => e,
                    None => BackupError::UnexpectedEvent,
                },
            ),
    {
        let failure = self.failure.take();
        self.phase = BackupPhase::Failed;
        match failure {
            Some(e) => BackupAction::Fail(e),
            None => BackupAction::Fail(BackupError::UnexpectedEvent),
        }
    }

    /// Takes in what happened outside and says what to do next, see
    /// [`backup_step`].
    pub fn on_event(&mut self, event: BackupEvent) -> (action: BackupAction)
        requires
            old(self).date.is_valid(),
        ensures
            final(self).backup == old(self).backup,
            final(self).date == old(self).date,
            final(self).compressor == old(self).compressor,
            backup_step(*old(self), event, final(self).phase, final(self).failure, action),
    {
        let phase = self.phase;
        match phase {
            BackupPhase::Aborting => {},
            _ => {
                self.failure = None;
            },
        }
        match (phase, event) {
            (BackupPhase::ProbingTools { next }, BackupEvent::Probed(found)) => {
                let required = self.backup.backup_format.required_programs();
                if next >= required.len() {
                    self.fail(BackupError::UnexpectedEvent)
                } else if !found {
                    self.fail(BackupError::ToolMissing(required[next]))
                } else if next + 1 < required.len() {
                    self.phase = BackupPhase::ProbingTools { next: next + 1 };
                    BackupAction::Probe(required[next + 1])
                } else {
                    self.phase = BackupPhase::PreparingDirectory;
                    BackupAction::EnsureDirectory(self.backup.backup_directory.clone())
                }
            },
            (BackupPhase::PreparingDirectory, BackupEvent::Completed) => {
                self.phase = BackupPhase::CheckingWorkspace;
                BackupAction::CheckExists(self.workspace())
            },
            (BackupPhase::PreparingDirectory, BackupEvent::IoFailed(m)) => self.fail(
                BackupError::Io(m),
            ),
            (BackupPhase::CheckingWorkspace, BackupEvent::Exists(there)) => {
                let workspace = self.workspace();
                if there {
                    self.fail(BackupError::StaleWorkspace(workspace))
                } else {
                    self.phase = BackupPhase::CreatingWorkspace;
                    BackupAction::CreateDirectory(workspace)
                }
            },
            (BackupPhase::CreatingWorkspace, BackupEvent::Completed) => {
                match self.archive_command() {
                    Ok(command) => {
                        self.phase = BackupPhase::Archiving;
                        BackupAction::Run(command)
                    },
                    Err(e) => self.give_up(BackupError::Config(e)),
                }
            },
            (BackupPhase::CreatingWorkspace, BackupEvent::IoFailed(m)) => self.fail(
                BackupError::Io(m),
            ),
            (BackupPhase::Archiving, BackupEvent::Exited { success, stdout, stderr }) => {
                if success {
                    let (_, path) = self.payload();
                    self.phase = BackupPhase::HashingPayload;
                    BackupAction::Run(digest_command(path.as_str()))
                } else {
                    self.give_up(BackupError::ArchiveFailure(stderr))
                }
            },
            (BackupPhase::HashingPayload, BackupEvent::Exited { success, stdout, stderr }) => {
                if success {
                    let (_, path) = self.sidecar();
                    self.phase = BackupPhase::WritingSidecar;
                    BackupAction::WriteFile { path, contents: stdout }
                } else {
                    self.give_up(BackupError::HashFailure)
                }
            },
            (BackupPhase::WritingSidecar, BackupEvent::Completed) => {
                self.phase = BackupPhase::Listing;
                BackupAction::ListFiles(self.backup.backup_directory.clone())
            },
            (BackupPhase::WritingSidecar, BackupEvent::IoFailed(m)) => self.give_up(
                BackupError::Io(m),
            ),
            (BackupPhase::Aborting, BackupEvent::Completed) => self.end(),
            (BackupPhase::Aborting, BackupEvent::IoFailed(_)) => self.end(),
            (BackupPhase::Listing, BackupEvent::Listing(files)) => {
                if files.len() as u64 >= u64::MAX {
                    return self.give_up(BackupError::ListingTooLong);
                }
                let seq = next_sequence_number(&files, self.backup.name.as_str(), &self.date);
                let (name, path) = self.bundle(seq);
                if holds_name(&files, name.as_str()) {
                    self.give_up(BackupError::NamingCollision(path))
                } else {
                    let workspace = self.workspace();
                    let (payload, _) = self.payload();
                    let (sidecar, _) = self.sidecar();
                    let command = self.backup.bundle_command(
                        path.as_str(),
                        workspace.as_str(),
                        payload.as_str(),
                        sidecar.as_str(),
                    );
                    self.phase = BackupPhase::Bundling { seq };
                    BackupAction::Run(command)
                }
            },
            (BackupPhase::Listing, BackupEvent::IoFailed(m)) => self.give_up(BackupError::Io(m)),
            (BackupPhase::Bundling { seq }, BackupEvent::Exited { success, stdout, stderr }) => {
                if success {
                    let workspace = self.workspace();
                    let (_, payload) = self.payload();
                    let (_, sidecar) = self.sidecar();
                    self.phase = BackupPhase::CleaningUp { seq };
                    BackupAction::RemoveWorkspace { payload, sidecar, workspace }
                } else {
                    self.give_up(BackupError::ArchiveFailure(stderr))
                }
            },
            (BackupPhase::CleaningUp { seq }, BackupEvent::Completed) => {
                let (_, path) = self.bundle(seq);
                self.phase = BackupPhase::HashingBundle { seq };
                BackupAction::Run(digest_command(path.as_str()))
            },
            (BackupPhase::CleaningUp { seq }, BackupEvent::IoFailed(m)) => self.fail(
                BackupError::Io(m),
            ),
            (BackupPhase::HashingBundle { seq }, BackupEvent::Exited { success, stdout, stderr }) => {
                if success {
                    let (file_name, file_path) = self.bundle(seq);
                    let sha256_hash = first_token(stdout.as_str());
                    self.phase = BackupPhase::Finished;
                    BackupAction::Finish(Backup_Result { file_name, file_path, sha256_hash })
                } else {
                    self.fail(BackupError::HashFailure)
                }
            },
            _ => if phase.in_workspace() {
                self.give_up(BackupError::UnexpectedEvent)
            } else {
                self.fail(BackupError::UnexpectedEvent)
            },
        }
    }
}


/// The action changes something on the file system or runs the archiver
/// or the digest tool.
pub open spec fn has_effect(action: BackupAction) -> bool {
    action is EnsureDirectory || action is CreateDirectory || action is Run || action is WriteFile
        || action is RemoveWorkspace
}

/// Nothing is touched before every required program has been found:
/// while the programs are asked for, the run changes nothing but for the
/// backup directory, which it asks for when the last program was found.
pub proof fn lemma_tools_come_first(
    pre: BackupRun,
    event: BackupEvent,
    post: BackupPhase,
    pending: Option<BackupError>,
    action: BackupAction,
)
    requires
        backup_step(pre, event, post, pending, action),
        pre.phase is ProbingTools,
        has_effect(action),
    ensures
        event == BackupEvent::Probed(true),
        pre.phase->next + 1 == pre.backup.backup_format.required_programs_spec().len(),
        action is EnsureDirectory,
        post == BackupPhase::PreparingDirectory,
{
}

/// A missing program ends the run with its name.
pub proof fn lemma_missing_tool_fails(
    pre: BackupRun,
    post: BackupPhase,
    pending: Option<BackupError>,
    action: BackupAction,
)
    requires
        backup_step(pre, BackupEvent::Probed(false), post, pending, action),
        pre.phase matches BackupPhase::ProbingTools { next } && next
            < pre.backup.backup_format.required_programs_spec().len(),
    ensures
        post == BackupPhase::Failed,
        action == BackupAction::Fail(
            BackupError::ToolMissing(
                pre.backup.backup_format.required_programs_spec()[pre.phase->next as int],
            ),
        ),
{
}

/// A workspace that is there already ends the run; it is neither used
/// nor removed.
pub proof fn lemma_stale_workspace_fails(
    pre: BackupRun,
    post: BackupPhase,
    pending: Option<BackupError>,
    action: BackupAction,
)
    requires
        backup_step(pre, BackupEvent::Exists(true), post, pending, action),
        pre.phase == BackupPhase::CheckingWorkspace,
    ensures
        post == BackupPhase::Failed,
        action matches BackupAction::Fail(BackupError::StaleWorkspace(p)) && p@
            == pre.workspace_spec(),
{
}

/// A bundle is written only under a name that no file of the backup
/// directory has, and that name carries the next sequence number.
pub proof fn lemma_bundle_never_overwrites(
    pre: BackupRun,
    event: BackupEvent,
    post: BackupPhase,
    pending: Option<BackupError>,
    action: BackupAction,
)
    requires
        backup_step(pre, event, post, pending, action),
        post is Bundling,
    ensures
        event matches BackupEvent::Listing(files) && post->Bundling_seq == next_sequence_spec(
            views(files@),
            pre.backup.name@,
            pre.date,
        ) && !views(files@).contains(pre.bundle_name(post->Bundling_seq as nat)),
{
}

/// A run that has ended asks for nothing more.
pub proof fn lemma_ended_run_stays(
    pre: BackupRun,
    event: BackupEvent,
    post: BackupPhase,
    pending: Option<BackupError>,
    action: BackupAction,
)
    requires
        backup_step(pre, event, post, pending, action),
        pre.phase == BackupPhase::Finished || pre.phase == BackupPhase::Failed,
    ensures
        post == BackupPhase::Failed,
        action == BackupAction::Fail(BackupError::UnexpectedEvent),
{
}


/// The workspace does not outlive a failure: while it holds what the run
/// has made, nothing that is reported ends the run at once. A run that
/// fails then asks for the removal of the workspace first, and fails for
/// the reason it had when that is done, whether the removal worked or
/// not.
pub proof fn lemma_failure_removes_workspace(
    pre: BackupRun,
    event: BackupEvent,
    post: BackupPhase,
    pending: Option<BackupError>,
    action: BackupAction,
)
    requires
        backup_step(pre, event, post, pending, action),
    ensures
        pre.phase.holds_workspace() ==> post != BackupPhase::Failed,
        pre.phase.holds_workspace() && !post.holds_workspace() && post !is CleaningUp ==> post
            == BackupPhase::Aborting,
        pre.phase is Listing && event is IoFailed ==> post == BackupPhase::Aborting,
        post == BackupPhase::Aborting ==> pending is Some && gives_up(pre, post, action),
        pre.phase == BackupPhase::Aborting && (event is Completed || event is IoFailed)
            && pre.failure is Some ==> post == BackupPhase::Failed && action == BackupAction::Fail(
            pre.failure.unwrap(),
        ),
{
}

/// A run touches nothing but its own: the backup directory, the workspace
/// in it with the payload and the file of its digest, and the bundle
/// under the name that the listing left free. Every program it runs is
/// the archiver for the payload, the digest tool for the payload, the
/// archiver for the bundle, or the digest tool for the bundle.
pub proof fn lemma_run_touches_only_its_own(
    pre: BackupRun,
    event: BackupEvent,
    post: BackupPhase,
    pending: Option<BackupError>,
    action: BackupAction,
)
    requires
        backup_step(pre, event, post, pending, action),
    ensures
        action matches BackupAction::EnsureDirectory(d) ==> d@ == pre.backup.backup_directory@,
        action matches BackupAction::CheckExists(p) ==> p@ == pre.workspace_spec(),
        action matches BackupAction::CreateDirectory(p) ==> p@ == pre.workspace_spec(),
        action matches BackupAction::WriteFile { path, .. } ==> path@ == pre.sidecar_path(),
        action matches BackupAction::ListFiles(d) ==> d@ == pre.backup.backup_directory@,
        action matches BackupAction::RemoveWorkspace { payload, sidecar, workspace } ==> payload@
            == pre.payload_path() && sidecar@ == pre.sidecar_path() && workspace@
            == pre.workspace_spec(),
        action matches BackupAction::Run(c) ==> match post {
            BackupPhase::Archiving => pre.is_archive_command(c),
            BackupPhase::HashingPayload => BackupRun::is_digest_command(c, pre.payload_path()),
            BackupPhase::Bundling { seq } => pre.is_bundle_command(c, seq as nat),
            BackupPhase::HashingBundle { seq } => BackupRun::is_digest_command(
                c,
                pre.bundle_path(seq as nat),
            ),
            _ => false,
        },
{
}

} // verus!
