//! File system operations on a session, and the teardown of a session.
//!
//! The program around this crate holds the SFTP subsystem and the channel;
//! this module decides which of their calls an operation amounts to.

use vstd::prelude::*;
use vstd::string::StringExecFns;

verus! {

/// Mode bits of a directory that is created: `rwxr-xr-x`.
pub const NEW_DIRECTORY_MODE: u32 = 0o755;

/// A file system operation as the caller asks for it.
#[derive(Debug, Clone, PartialEq, Eq)]
pub enum FsRequest {
    List { path: String },
    MakeDirectory { path: String },
    /// Removes `path`; `is_dir` is the caller's word on what it is.
    Delete { path: String, is_dir: bool },
    Rename { old_path: String, new_path: String },
    Chmod { path: String, mode: u32 },
}

/// The call to the SFTP subsystem that an operation amounts to.
#[derive(Debug, Clone, PartialEq, Eq)]
pub enum FsCall {
    ReadDirectory { path: String },
    MakeDirectory { path: String, mode: u32 },
    RemoveDirectory { path: String },
    Unlink { path: String },
    Rename { old_path: String, new_path: String },
    /// Reads the attributes of `path` and writes them back with these mode bits.
    SetMode { path: String, mode: u32 },
}

/// The attributes of a remote file, each present where the server told it.
#[derive(Debug, Clone, Copy, PartialEq, Eq, Structural)]
pub struct RemoteStat {
    pub size: Option<u64>,
    pub uid: Option<u32>,
    pub gid: Option<u32>,
    pub permissions: Option<u32>,
    pub accessed: Option<u64>,
    pub modified: Option<u64>,
}

impl FsRequest {
    /// The call that the request amounts to. A directory is created with mode
    /// `755`. A deletion removes a directory or unlinks a file as the caller's
    /// flag says; the flag is not checked against the remote entry.
    pub open spec fn call(self) -> FsCall {
        match self {
            FsRequest::List { path } => FsCall::ReadDirectory { path },
            FsRequest::MakeDirectory { path } => FsCall::MakeDirectory {
                path,
                mode: NEW_DIRECTORY_MODE,
            },
            FsRequest::Delete { path, is_dir } => if is_dir {
                FsCall::RemoveDirectory { path }
            } else {
                FsCall::Unlink { path }
            },
            FsRequest::Rename { old_path, new_path } => FsCall::Rename { old_path, new_path },
            FsRequest::Chmod { path, mode } => FsCall::SetMode { path, mode },
        }
    }

    /// Decides the call that the request amounts to.
    pub fn into_call(self) -> (call: FsCall)
        ensures
            call == self.call(),
    {
        match self {
            FsRequest::List { path } => FsCall::ReadDirectory { path },
            FsRequest::MakeDirectory { path } => FsCall::MakeDirectory {
                path,
                mode: NEW_DIRECTORY_MODE,
            },
            FsRequest::Delete { path, is_dir } => {
                if is_dir {
                    FsCall::RemoveDirectory { path }
                } else {
                    FsCall::Unlink { path }
                }
            },
            FsRequest::Rename { old_path, new_path } => FsCall::Rename { old_path, new_path },
            FsRequest::Chmod { path, mode } => FsCall::SetMode { path, mode },
        }
    }
}

/// Bits of the mode that tell the type of a file.
pub const FILE_TYPE_MASK: u32 = 0o170000;

/// Value of those bits for a directory.
pub const DIRECTORY_TYPE: u32 = 0o040000;

/// Whether mode bits are those of a directory; unknown mode bits are not.
pub open spec fn is_directory_mode(permissions: Option<u32>) -> bool {
    match permissions {
        Some(mode) => mode & FILE_TYPE_MASK == DIRECTORY_TYPE,
        None => false,
    }
}

/// Calls `ssh2::FileStat::is_dir` on these attributes: whether the file type
/// bits of the mode are those of a directory, with an absent mode read as 0.
#[verifier::external_body]
fn stat_is_dir(stat: &RemoteStat) -> (b: bool)
    ensures
        b == is_directory_mode(stat.permissions),
{
    let raw = ssh2::FileStat {
        size: stat.size,
        uid: stat.uid,
        gid: stat.gid,
        perm: stat.permissions,
        atime: stat.accessed,
        mtime: stat.modified,
    };
    raw.is_dir()
}

impl RemoteStat {
    /// Whether these are the attributes of a directory.
    pub fn is_dir(&self) -> (b: bool)
        ensures
            b == is_directory_mode(self.permissions),
    {
        stat_is_dir(self)
    }

    /// These attributes with the mode bits replaced.
    pub fn with_mode(self, mode: u32) -> (changed: RemoteStat)
        ensures
            changed == (RemoteStat { permissions: Some(mode), ..self }),
    {
        RemoteStat { permissions: Some(mode), ..self }
    }
}

/// The message of a failure to create the SFTP subsystem.
pub open spec fn init_failure_text(reason: Seq<char>) -> Seq<char> {
    "Failed to initialize SFTP: "@ + reason
}

/// The message of a failure to create the SFTP subsystem.
pub fn init_failure_message(reason: &str) -> (s: String)
    ensures
        s@ == init_failure_text(reason@),
{
    String::from_str("Failed to initialize SFTP: ").concat(reason)
}

/// The message of a file system operation that finds no SFTP subsystem.
pub open spec fn unavailable_text() -> Seq<char> {
    "SFTP session not available"@
}

/// The message of a file system operation that finds no SFTP subsystem.
pub fn unavailable_message() -> (s: String)
    ensures
        s@ == unavailable_text(),
{
    String::from_str("SFTP session not available")
}

/// A step of the teardown of a session's channel.
#[derive(Debug, Clone, Copy, PartialEq, Eq, Structural)]
pub enum TeardownStep {
    SendEof,
    CloseChannel,
    AwaitClose,
}

impl TeardownStep {
    /// The step that follows this one, if any: end of stream, close, wait.
    pub open spec fn following(self) -> Option<TeardownStep> {
        match self {
            TeardownStep::SendEof => Some(TeardownStep::CloseChannel),
            TeardownStep::CloseChannel => Some(TeardownStep::AwaitClose),
            TeardownStep::AwaitClose => None,
        }
    }

    /// What is logged when the step fails.
    pub open spec fn failure_text(self, session_id: Seq<char>, reason: Seq<char>) -> Seq<char> {
        let what = match self {
            TeardownStep::SendEof => "Failed to send EOF for session "@,
            TeardownStep::CloseChannel => "Failed to close channel for session "@,
            TeardownStep::AwaitClose => "Failed to wait for channel close for session "@,
        };
        what + session_id + ": "@ + reason
    }

    /// The first step of a teardown.
    pub fn first() -> (step: TeardownStep)
        ensures
            step == TeardownStep::SendEof,
    {
        TeardownStep::SendEof
    }

    /// The step to take after this one. A teardown goes on whether or not a
    /// step failed: a failure is logged, never handed on.
    pub fn next(self) -> (step: Option<TeardownStep>)
        ensures
            step == self.following(),
    {
        match self {
            TeardownStep::SendEof => Some(TeardownStep::CloseChannel),
            TeardownStep::CloseChannel => Some(TeardownStep::AwaitClose),
            TeardownStep::AwaitClose => None,
        }
    }

    /// What is logged when the step fails.
    pub fn failure_message(self, session_id: &str, reason: &str) -> (s: String)
        ensures
            s@ == self.failure_text(session_id@, reason@),
    {
        let what = match self {
            TeardownStep::SendEof => "Failed to send EOF for session ",
            TeardownStep::CloseChannel => "Failed to close channel for session ",
            TeardownStep::AwaitClose => "Failed to wait for channel close for session ",
        };
        String::from_str(what).concat(session_id).concat(": ").concat(reason)
    }
}

/// What is logged at the end of a close request.
pub open spec fn close_text(was_open: bool, session_id: Seq<char>) -> Seq<char> {
    if was_open {
        "Closed and removed session "@ + session_id
    } else {
        "Attempted to close non-existent session "@ + session_id
    }
}

/// What is logged at the end of a close request.
pub fn close_message(was_open: bool, session_id: &str) -> (s: String)
    ensures
        s@ == close_text(was_open, session_id@),
{
    if was_open {
        String::from_str("Closed and removed session ").concat(session_id)
    } else {
        String::from_str("Attempted to close non-existent session ").concat(session_id)
    }
}

} // verus!
