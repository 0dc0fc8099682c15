//! The operations of a backup: making the bundle, shipping it, and
//! pruning old bundles here and on the remote side. Each takes what was
//! found outside and gives what is to be done there.

use vstd::prelude::*;
use vstd::string::*;
use crate::archive::Backup;
use crate::command::CommandLine;
use crate::date::Date;
use crate::orchestrator::{BackupAction, BackupError, BackupPhase, BackupRun};
use crate::retention::{
    files_to_delete, files_to_delete_spec, keep_spec, parse_policy_spec, PolicyError,
    RetentionPolicy,
};
use crate::text::{split_on, views};
use crate::transfer::{
    first_action, listed_names, remote_path_spec, remove_command, RemoteTarget, TransferError,
    UploadAction, UploadSession, UploadState,
};

verus! {

/// The commands that delete `files` from the remote directory.
pub open spec fn is_removal_of(
    commands: Seq<CommandLine>,
    remote_dir: Seq<char>,
    files: Seq<Seq<char>>,
) -> bool {
    &&& commands.len() == files.len()
    &&& forall|i: int|
        0 <= i < files.len() ==> (#[trigger] commands[i]).is(
            "rm"@,
            seq![remote_path_spec(remote_dir, files[i])],
            None,
        )
}

impl Backup {
    /// Begins a backup on the day `date`, see [`BackupRun::begin`].
    pub fn backup(self, date: Date, compressor: Option<String>) -> (r: (BackupRun, BackupAction))
        requires
            date.is_valid(),
        ensures
            r.0.backup == self,
            r.0.date == date,
            r.0.compressor == compressor,
            r.0.failure is None,
            match r.0.archive_args() {
                Ok(_) => r.0.phase == (BackupPhase::ProbingTools { next: 0 }) && r.1
                    == BackupAction::Probe(self.backup_format.required_programs_spec()[0]),
                Err(e) => r.0.phase == BackupPhase::Failed && r.1 == BackupAction::Fail(
                    BackupError::Config(e),
                ),
            },
    {
        BackupRun::begin(self, date, compressor)
    }

    /// Begins the upload of the bundle `file_name` with digest
    /// `local_hash` to `target`, see [`UploadSession::begin`].
    pub fn upload_sftp(
        &self,
        target: RemoteTarget,
        key_mode: Option<u32>,
        file_name: String,
        local_hash: String,
    ) -> (r: (UploadSession, UploadAction))
        ensures
            r.0.target == target,
            r.0.file_name == file_name,
            r.0.local_hash == local_hash,
            r.1 == first_action(target.key_file is Some, key_mode),
            r.0.state == if r.1 == UploadAction::Connect {
                UploadState::Disconnected
            } else {
                UploadState::Failed
            },
    {
        UploadSession::begin(target, file_name, local_hash, key_mode)
    }

    /// The files of the backup directory to delete under the age limit
    /// `input`, such as `7d`, `2w` or `1m`: those of this backup that
    /// carry a date, are older than the limit on `today`, and are not
    /// among the `always_keep` most recent. `listing` holds the names of
    /// the files of the backup directory.
    pub fn local_delete_after_time(
        &self,
        input: &String,
        listing: &Vec<String>,
        today: &Date,
        always_keep: Option<usize>,
    ) -> (r: Result<Vec<String>, PolicyError>)
        requires
            today.is_valid(),
        ensures
            match parse_policy_spec(input@) {
                Ok(policy) => r matches Ok(doomed) && views(doomed@) == files_to_delete_spec(
                    views(listing@),
                    self.name@,
                    *today,
                    policy,
                    keep_spec(always_keep),
                ),
                Err(e) => r == Err::<Vec<String>, PolicyError>(e),
            },
    {
        match RetentionPolicy::parse(input.as_str()) {
            Ok(policy) => Ok(
                files_to_delete(listing, self.name.as_str(), today, &policy, always_keep),
            ),
            Err(e) => Err(e),
        }
    }

    /// The commands that delete from the remote directory what is to be
    /// deleted there under the age limit `input`. `listing` is what the
    /// listing of the remote directory printed, a name on each line.
    pub fn sftp_delete_after_time(
        &self,
        input: &String,
        remote_dir: &str,
        listing: &str,
        today: &Date,
        always_keep: Option<usize>,
    ) -> (r: Result<Vec<CommandLine>, PolicyError>)
        requires
            today.is_valid(),
        ensures
            match parse_policy_spec(input@) {
                Ok(policy) => r matches Ok(commands) && is_removal_of(
                    commands@,
                    remote_dir@,
                    files_to_delete_spec(
                        split_on(listing@, '\n'),
                        self.name@,
                        *today,
                        policy,
                        keep_spec(always_keep),
                    ),
                ),
                Err(e) => r == Err::<Vec<CommandLine>, PolicyError>(e),
            },
    {
        let policy = match RetentionPolicy::parse(input.as_str()) {
            Ok(policy) => policy,
            Err(e) => {
                return Err(e);
            },
        };
        let names = listed_names(listing);
        let doomed = files_to_delete(&names, self.name.as_str(), today, &policy, always_keep);
        let mut commands: Vec<CommandLine> = Vec::new();
        let mut i: usize = 0;
        while i < doomed.len()
            invariant
                i <= doomed.len(),
                commands.len() == i,
                forall|k: int|
                    0 <= k < i ==> (#[trigger] commands[k]).is(
                        "rm"@,
                        seq![remote_path_spec(remote_dir@, views(doomed@)[k])],
                        None,
                    ),
            decreases doomed.len() - i,
        {
            assert(views(doomed@)[i as int] == doomed@[i as int]@);
            commands.push(remove_command(remote_dir, doomed[i].as_str()));
            i += 1;
        }
        Ok(commands)
    }
}

} // verus!
