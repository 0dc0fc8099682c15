//! Shipping a bundle to a remote store over SFTP: where to, the check of
//! the key file, and the decisions of one upload from connecting to the
//! comparison of the digests.

use vstd::prelude::*;
use vstd::string::*;
use crate::archive::digest_command;
use crate::command::{join_path, join_path_spec, option_view, CommandLine};
use crate::digest::{first_token, first_token_spec};
use crate::ensurer::Program;
use crate::text::{contains, contains_text, equal_texts, parse_unsigned, push_arg, split, split_on, unsigned_spec, views};

verus! {

/// The remote store of the backups.
#[derive(Clone, Debug, PartialEq, Eq)]
pub struct RemoteTarget {
    pub user: String,
    pub host: String,
    pub port: Option<u16>,
    pub key_file: Option<String>,
    pub remote_dir: String,
}

/// A remote store as texts.
pub struct RemoteTargetView {
    pub user: Seq<char>,
    pub host: Seq<char>,
    pub port: Option<u16>,
    pub key_file: Option<Seq<char>>,
    pub remote_dir: Seq<char>,
}

impl View for RemoteTarget {
    type V = RemoteTargetView;

    open spec fn view(&self) -> RemoteTargetView {
        RemoteTargetView {
            user: self.user@,
            host: self.host@,
            port: self.port,
            key_file: option_view(self.key_file),
            remote_dir: self.remote_dir@,
        }
    }
}

/// Why a text names no remote store.
#[derive(Clone, Copy, Debug, PartialEq, Eq, Structural)]
pub enum TargetError {
    /// The text has neither two nor three parts.
    PartCount,
    /// The first part holds no `@`.
    MissingHost,
    /// What follows the `:` after the host is no port number.
    InvalidPort,
}

/// The port number that a text denotes: digits, with or without a `+`
/// before them, of a value up to 65535.
pub open spec fn port_spec(s: Seq<char>) -> Option<u16> {
    match unsigned_spec(s, 65535) {
        Some(n) => Some(n as u16),
        None => None,
    }
}

/// The remote store that a text of the form
/// `user@host[:port] [key_file] remote_dir` names.
pub open spec fn target_spec(s: Seq<char>) -> Result<RemoteTargetView, TargetError> {
    let parts = split_on(s, ' ');
    if parts.len() != 2 && parts.len() != 3 {
        Err(TargetError::PartCount)
    } else {
        let login = split_on(parts[0], '@');
        if login.len() < 2 {
            Err(TargetError::MissingHost)
        } else {
            let address = split_on(login[1], ':');
            let key_file = if parts.len() == 3 {
                Some(parts[1])
            } else {
                None
            };
            if address.len() < 2 {
                Ok(
                    RemoteTargetView {
                        user: login[0],
                        host: login[1],
                        port: None,
                        key_file,
                        remote_dir: parts.last(),
                    },
                )
            } else {
                match port_spec(address[1]) {
                    Some(port) => Ok(
                        RemoteTargetView {
                            user: login[0],
                            host: address[0],
                            port: Some(port),
                            key_file,
                            remote_dir: parts.last(),
                        },
                    ),
                    None => Err(TargetError::InvalidPort),
                }
            }
        }
    }
}

/// Reads a port number, see [`port_spec`].
pub fn parse_port(text: &str) -> (port: Option<u16>)
    ensures
        port == port_spec(text@),
{
    match parse_unsigned(text, 65535) {
        Some(n) => Some(n as u16),
        None => None,
    }
}

impl RemoteTarget {
    /// Reads a remote store given as `user@host[:port] [key_file]
    /// remote_dir`, the parts separated by single spaces. The key file is
    /// there exactly when the text has three parts.
    pub fn parse(text: &str) -> (r: Result<RemoteTarget, TargetError>)
        ensures
            match target_spec(text@) {
                Ok(t) => r matches Ok(target) && target@ == t,
                Err(e) => r == Err::<RemoteTarget, TargetError>(e),
            },
    {
        let parts = split(text, ' ');
        if parts.len() != 2 && parts.len() != 3 {
            return Err(TargetError::PartCount);
        }
        let login = split(parts[0].as_str(), '@');
        if login.len() < 2 {
            return Err(TargetError::MissingHost);
        }
        let address = split(login[1].as_str(), ':');
        let key_file = if parts.len() == 3 {
            Some(parts[1].clone())
        } else {
            None
        };
        let remote_dir = parts[parts.len() - 1].clone();
        let user = login[0].clone();
        assert(views(parts@)[0] == parts@[0]@);
        assert(views(parts@)[1] == parts@[1]@);
        assert(views(parts@).last() == parts@[parts.len() - 1]@);
        assert(views(login@)[0] == login@[0]@);
        assert(views(login@)[1] == login@[1]@);
        if address.len() < 2 {
            Ok(RemoteTarget { user, host: login[1].clone(), port: None, key_file, remote_dir })
        } else {
            assert(views(address@)[0] == address@[0]@);
            assert(views(address@)[1] == address@[1]@);
            match parse_port(address[1].as_str()) {
                Some(port) => Ok(
                    RemoteTarget {
                        user,
                        host: address[0].clone(),
                        port: Some(port),
                        key_file,
                        remote_dir,
                    },
                ),
                None => Err(TargetError::InvalidPort),
            }
        }
    }
}

/// A key file may be used when its permission bits are exactly `0600`:
/// read and write for the owner, nothing for anyone else.
pub open spec fn key_mode_ok(mode: u32) -> bool {
    mode & 0o7777 == 0o600
}

/// Whether a key file of mode `mode` may be used, see [`key_mode_ok`].
pub fn check_key_mode(mode: u32) -> (ok: bool)
    ensures
        ok == key_mode_ok(mode),
{
    mode & 0o7777 == 0o600
}

/// Largest number of bytes read and sent at once.
pub const CHUNK_SIZE: usize = 3145728;

/// Why an upload failed.
#[derive(Clone, Debug, PartialEq, Eq)]
pub enum TransferError {
    /// The key file's permission bits are not `0600`; nothing was sent.
    KeyPermissions { mode: u32 },
    /// The mode of the key file is not known; nothing was sent.
    KeyUnreadable,
    /// The host could not be reached or refused the login.
    ConnectFailure(String),
    /// The remote file could not be created.
    RemoteFile(String),
    /// Reading the bundle, writing to the remote file or running the
    /// digest tool failed.
    Interrupted(String),
    /// The digest of the remote file is not that of the bundle.
    IntegrityMismatch { local: String, remote: String },
    /// Something was reported that the upload was not waiting for.
    UnexpectedEvent,
}

/// How far an upload has come.
#[derive(Clone, Copy, Debug, PartialEq, Eq, Structural)]
pub enum UploadState {
    Disconnected,
    Authenticated,
    SessionOpen,
    /// `sent` bytes have been handed on; `complete` once the bundle has
    /// been read to its end.
    Transferring { sent: u64, complete: bool },
    Verified,
    Failed,
}

/// What happened outside.
#[derive(Clone, Debug, PartialEq, Eq)]
pub enum UploadEvent {
    Connected,
    ConnectFailed(String),
    /// The remote directory was asked for; whether that worked is not
    /// looked at.
    DirectoryTried,
    FileCreated,
    FileCreateFailed(String),
    /// These bytes of the bundle were read, the next after those read
    /// before; none at its end.
    ChunkRead(Vec<u8>),
    /// Reading the bundle, writing to the remote file or running the
    /// digest tool failed.
    TransferFailed(String),
    /// What the digest tool printed on the remote side.
    DigestOutput(String),
}

/// What to do next outside.
#[derive(Clone, Debug, PartialEq, Eq)]
pub enum UploadAction {
    /// Log in on the host.
    Connect,
    /// Create the remote directory.
    MakeDirectory(String),
    /// Create the remote file of that path.
    CreateFile(String),
    /// Read up to that many bytes of the bundle.
    ReadChunk(usize),
    /// Write these bytes to the end of the remote file, advance the
    /// progress by as many, and read on.
    WriteChunk(Vec<u8>),
    /// Run the digest tool on the remote side.
    RunDigest(CommandLine),
    /// The upload is done and verified.
    Done,
    Fail(TransferError),
}

/// One upload of a bundle.
#[derive(Clone, Debug, PartialEq, Eq)]
pub struct UploadSession {
    pub target: RemoteTarget,
    /// Name of the bundle.
    pub file_name: String,
    /// Digest of the bundle as computed on this side.
    pub local_hash: String,
    pub state: UploadState,
}

/// The path that the digest tool is given on the remote side.
pub open spec fn remote_path_spec(remote_dir: Seq<char>, file_name: Seq<char>) -> Seq<char> {
    remote_dir + seq!['/'] + file_name
}

/// `sent` and `n` more, held at `u64::MAX`.
pub open spec fn sent_after(sent: u64, n: usize) -> u64 {
    if sent + n > u64::MAX {
        u64::MAX
    } else {
        (sent + n) as u64
    }
}

/// What an upload in state `pre` does when `event` is reported: the state
/// it goes to and the action it asks for.
pub open spec fn upload_step(
    pre: UploadSession,
    event: UploadEvent,
    post: UploadState,
    action: UploadAction,
) -> bool {
    match (pre.state, event) {
        (UploadState::Disconnected, UploadEvent::Connected) => {
            &&& post == UploadState::Authenticated
            &&& action matches UploadAction::MakeDirectory(d)
            &&& d@ == pre.target.remote_dir@
        },
        (UploadState::Disconnected, UploadEvent::ConnectFailed(m)) => {
            &&& post == UploadState::Failed
            &&& action matches UploadAction::Fail(TransferError::ConnectFailure(t))
            &&& t@ == m@
        },
        (UploadState::Authenticated, UploadEvent::DirectoryTried) => {
            &&& post == UploadState::SessionOpen
            &&& action matches UploadAction::CreateFile(p)
            &&& p@ == join_path_spec(pre.target.remote_dir@, pre.file_name@)
        },
        (UploadState::SessionOpen, UploadEvent::FileCreated) => {
            &&& post == UploadState::Transferring { sent: 0, complete: false }
            &&& action == UploadAction::ReadChunk(CHUNK_SIZE)
        },
        (UploadState::SessionOpen, UploadEvent::FileCreateFailed(m)) => {
            &&& post == UploadState::Failed
            &&& action matches UploadAction::Fail(TransferError::RemoteFile(t))
            &&& t@ == m@
        },
        (UploadState::Transferring { sent, complete: false }, UploadEvent::ChunkRead(bytes)) => {
            if bytes.len() == 0 {
                &&& post == UploadState::Transferring { sent, complete: true }
                &&& action matches UploadAction::RunDigest(c)
                &&& c.is(
                    Program::Sha256Sum.name_spec(),
                    seq![remote_path_spec(pre.target.remote_dir@, pre.file_name@)],
                    None,
                )
            } else {
                &&& post == UploadState::Transferring {
                    sent: sent_after(sent, bytes.len()),
                    complete: false,
                }
                &&& action matches UploadAction::WriteChunk(out)
                &&& out@ == bytes@
            }
        },
        (UploadState::Transferring { sent, complete }, UploadEvent::TransferFailed(m)) => {
            &&& post == UploadState::Failed
            &&& action matches UploadAction::Fail(TransferError::Interrupted(t))
            &&& t@ == m@
        },
        (UploadState::Transferring { sent, complete: true }, UploadEvent::DigestOutput(out)) => {
            if first_token_spec(out@) == pre.local_hash@ {
                post == UploadState::Verified && action == UploadAction::Done
            } else {
                &&& post == UploadState::Failed
                &&& action matches UploadAction::Fail(
                    TransferError::IntegrityMismatch { local, remote },
                )
                &&& local@ == pre.local_hash@
                &&& remote@ == first_token_spec(out@)
            }
        },
        _ => post == UploadState::Failed && action == UploadAction::Fail(
            TransferError::UnexpectedEvent,
        ),
    }
}

/// What an upload begins with: a connection is asked for unless the
/// target names a key file whose mode is unknown or not `0600`.
pub open spec fn first_action(has_key: bool, key_mode: Option<u32>) -> UploadAction {
    if !has_key {
        UploadAction::Connect
    } else {
        match key_mode {
            None => UploadAction::Fail(TransferError::KeyUnreadable),
            Some(mode) => if key_mode_ok(mode) {
                UploadAction::Connect
            } else {
                UploadAction::Fail(TransferError::KeyPermissions { mode })
            },
        }
    }
}

impl UploadSession {
    /// Begins an upload of the bundle `file_name` with digest `local_hash`
    /// to `target`. `key_mode` is the mode of the key file, where the
    /// target names one.
    ///
    /// With a key file whose mode is unknown or whose permission bits are
    /// not `0600` the upload fails at once, and no connection is asked
    /// for.
    pub fn begin(
        target: RemoteTarget,
        file_name: String,
        local_hash: String,
        key_mode: Option<u32>,
    ) -> (r: (UploadSession, UploadAction))
        ensures
            r.0.target == target,
            r.0.file_name == file_name,
            r.0.local_hash == local_hash,
            r.1 == first_action(target.key_file is Some, key_mode),
            r.0.state == if r.1 == UploadAction::Connect {
                UploadState::Disconnected
            } else {
                UploadState::Failed
            },
    {
        let refused = match (&target.key_file, key_mode) {
            (Some(_), Some(mode)) => if check_key_mode(mode) {
                None
            } else {
                Some(TransferError::KeyPermissions { mode })
            },
            (Some(_), None) => Some(TransferError::KeyUnreadable),
            (None, _) => None,
        };
        match refused {
            Some(error) => (
                UploadSession { target, file_name, local_hash, state: UploadState::Failed },
                UploadAction::Fail(error),
            ),
            None => (
                UploadSession { target, file_name, local_hash, state: UploadState::Disconnected },
                UploadAction::Connect,
            ),
        }
    }

    /// Takes in what happened outside and says what to do next, see
    /// [`upload_step`].
    pub fn on_event(&mut self, event: UploadEvent) -> (action: UploadAction)
        ensures
            final(self).target == old(self).target,
            final(self).file_name == old(self).file_name,
            final(self).local_hash == old(self).local_hash,
            upload_step(*old(self), event, final(self).state, action),
    {
        let state = self.state;
        match (state, event) {
            (UploadState::Disconnected, UploadEvent::Connected) => {
                self.state = UploadState::Authenticated;
                UploadAction::MakeDirectory(self.target.remote_dir.clone())
            },
            (UploadState::Disconnected, UploadEvent::ConnectFailed(m)) => {
                self.state = UploadState::Failed;
                UploadAction::Fail(TransferError::ConnectFailure(m))
            },
            (UploadState::Authenticated, UploadEvent::DirectoryTried) => {
                self.state = UploadState::SessionOpen;
                UploadAction::CreateFile(
                    join_path(self.target.remote_dir.as_str(), self.file_name.as_str()),
                )
            },
            (UploadState::SessionOpen, UploadEvent::FileCreated) => {
                self.state = UploadState::Transferring { sent: 0, complete: false };
                UploadAction::ReadChunk(CHUNK_SIZE)
            },
            (UploadState::SessionOpen, UploadEvent::FileCreateFailed(m)) => {
                self.state = UploadState::Failed;
                UploadAction::Fail(TransferError::RemoteFile(m))
            },
            (UploadState::Transferring { sent, complete: false }, UploadEvent::ChunkRead(bytes)) => {
                let n = bytes.len();
                if n == 0 {
                    self.state = UploadState::Transferring { sent, complete: true };
                    let mut path = self.target.remote_dir.clone();
                    path.push('/');
                    path.append(self.file_name.as_str());
                    assert(path@ =~= remote_path_spec(
                        self.target.remote_dir@,
                        self.file_name@,
                    ));
                    UploadAction::RunDigest(digest_command(path.as_str()))
                } else {
                    let total: u64 = if n as u64 > u64::MAX - sent {
                        u64::MAX
                    } else {
                        sent + n as u64
                    };
                    self.state = UploadState::Transferring { sent: total, complete: false };
                    UploadAction::WriteChunk(bytes)
                }
            },
            (UploadState::Transferring { sent, complete }, UploadEvent::TransferFailed(m)) => {
                self.state = UploadState::Failed;
                UploadAction::Fail(TransferError::Interrupted(m))
            },
            (UploadState::Transferring { sent, complete: true }, UploadEvent::DigestOutput(out)) => {
                match verify_upload(self.local_hash.as_str(), out.as_str()) {
                    Ok(()) => {
                        self.state = UploadState::Verified;
                        UploadAction::Done
                    },
                    Err(e) => {
                        self.state = UploadState::Failed;
                        UploadAction::Fail(e)
                    },
                }
            },
            _ => {
                self.state = UploadState::Failed;
                UploadAction::Fail(TransferError::UnexpectedEvent)
            },
        }
    }
}

/// Compares the digest of the bundle with what the digest tool printed on
/// the remote side. The upload is good exactly when the first token of
/// that output is the local digest, character for character.
pub fn verify_upload(local_hash: &str, remote_output: &str) -> (r: Result<(), TransferError>)
    ensures
        r is Ok <==> first_token_spec(remote_output@) == local_hash@,
        r matches Err(e) ==> (e matches TransferError::IntegrityMismatch { local, remote }
            && local@ == local_hash@ && remote@ == first_token_spec(remote_output@)),
{
    let remote = first_token(remote_output);
    if equal_texts(remote.as_str(), local_hash) {
        Ok(())
    } else {
        Err(TransferError::IntegrityMismatch { local: local_hash.to_owned(), remote })
    }
}

/// An upload ends as verified only by a digest from the remote side that
/// is the local one, and ends with an integrity mismatch exactly when
/// the two differ.
pub proof fn lemma_verified_iff_digests_agree(
    pre: UploadSession,
    event: UploadEvent,
    post: UploadState,
    action: UploadAction,
)
    requires
        upload_step(pre, event, post, action),
    ensures
        post == UploadState::Verified ==> (event matches UploadEvent::DigestOutput(out)
            && first_token_spec(out@) == pre.local_hash@),
        (action matches UploadAction::Fail(TransferError::IntegrityMismatch { .. })) <==> (
        pre.state matches UploadState::Transferring { complete: true, .. }
            && event matches UploadEvent::DigestOutput(out) && first_token_spec(out@)
            != pre.local_hash@),
{
}

/// An upload that has ended asks for nothing more.
pub proof fn lemma_ended_upload_stays(
    pre: UploadSession,
    event: UploadEvent,
    post: UploadState,
    action: UploadAction,
)
    requires
        upload_step(pre, event, post, action),
        pre.state == UploadState::Verified || pre.state == UploadState::Failed,
    ensures
        post == UploadState::Failed,
        action == UploadAction::Fail(TransferError::UnexpectedEvent),
{
}

/// A connection is asked for only at the beginning, and only where the
/// key file has passed the check: no step of an upload asks for one.
pub proof fn lemma_no_step_connects(
    pre: UploadSession,
    event: UploadEvent,
    post: UploadState,
    action: UploadAction,
)
    requires
        upload_step(pre, event, post, action),
    ensures
        action != UploadAction::Connect,
{
}


/// The command that lists the remote directory.
pub fn list_command(remote_dir: &str) -> (c: CommandLine)
    ensures
        c.is(Program::Ls.name_spec(), seq![remote_dir@], None),
{
    let mut args: Vec<String> = Vec::new();
    assert(views(args@) =~= Seq::<Seq<char>>::empty());
    push_arg(&mut args, remote_dir);
    assert(views(args@) =~= seq![remote_dir@]);
    CommandLine { program: "ls".to_owned(), args, current_dir: None }
}

/// The names that the listing of a directory holds, one on each line.
pub fn listed_names(output: &str) -> (names: Vec<String>)
    ensures
        views(names@) == split_on(output@, '\n'),
{
    split(output, '\n')
}

/// The command that deletes the file `file_name` of the remote directory.
pub fn remove_command(remote_dir: &str, file_name: &str) -> (c: CommandLine)
    ensures
        c.is("rm"@, seq![remote_path_spec(remote_dir@, file_name@)], None),
{
    let mut path = remote_dir.to_owned();
    path.push('/');
    path.append(file_name);
    assert(path@ =~= remote_path_spec(remote_dir@, file_name@));
    let mut args: Vec<String> = Vec::new();
    assert(views(args@) =~= Seq::<Seq<char>>::empty());
    push_arg(&mut args, path.as_str());
    assert(views(args@) =~= seq![path@]);
    CommandLine { program: "rm".to_owned(), args, current_dir: None }
}

/// Whether what the removal printed says that the file was not there.
pub fn reports_missing_file(output: &str) -> (missing: bool)
    ensures
        missing == contains_text(output@, "No such file"@),
{
    contains(output, "No such file")
}


/// The key file is checked before anything is sent: where the target
/// names one, a connection is asked for exactly when its mode is known
/// and its permission bits are `0600`.
pub proof fn lemma_key_is_checked_first(key_mode: Option<u32>)
    ensures
        first_action(true, key_mode) == UploadAction::Connect <==> (key_mode matches Some(mode)
            && key_mode_ok(mode)),
        first_action(false, key_mode) == UploadAction::Connect,
{
}

} // verus!
