//! Path rules of file transfers: the final component of a local path and
//! the remote path of an SCP upload.

use vstd::prelude::*;
use vstd::string::*;
use crate::session::SessionError;
use crate::text::ends_with;
use crate::text::ends_with_char;

verus! {

/// The position after the last `/` among the first `n` characters of
/// `path`; 0 where there is none.
pub open spec fn component_start(path: Seq<char>, n: int) -> int
    decreases n,
{
    if n <= 0 {
        0
    } else if path[n - 1] == '/' {
        n
    } else {
        component_start(path, n - 1)
    }
}

/// The final component of a path: what follows its last `/`.
pub open spec fn final_component(path: Seq<char>) -> Seq<char> {
    path.subrange(component_start(path, path.len() as int), path.len() as int)
}

/// A component that names a file: not empty, not `.` and not `..`.
pub open spec fn names_file(component: Seq<char>) -> bool {
    component.len() > 0 && component != seq!['.'] && component != seq!['.', '.']
}

/// The file name of a path: its final component, where that names a file.
pub open spec fn file_name_of(path: Seq<char>) -> Option<Seq<char>> {
    if names_file(final_component(path)) {
        Some(final_component(path))
    } else {
        None
    }
}

/// The remote path of an upload of `local_path` to `remote_path`: a remote
/// path that ends in `/` is a directory, and the file goes into it under
/// its own name.
pub open spec fn upload_path(local_path: Seq<char>, remote_path: Seq<char>) -> Option<Seq<char>> {
    if ends_with_char(remote_path, '/') {
        match file_name_of(local_path) {
            Some(name) => Some(remote_path + name),
            None => None,
        }
    } else {
        Some(remote_path)
    }
}

/// The file name of a path, or `None` where the path ends in `/`, `.` or
/// `..` or is empty.
pub fn file_name(path: &str) -> (name: Option<String>)
    ensures
        match name {
            Some(n) => file_name_of(path@) == Some(n@),
            None => file_name_of(path@).is_none(),
        },
{
    let len = path.unicode_len();
    let mut start: usize = 0;
    let mut i: usize = 0;
    while i < len
        invariant
            len == path@.len(),
            i <= len,
            start == component_start(path@, i as int),
            start <= i,
        decreases len - i,
    {
        if path.get_char(i) == '/' {
            start = i + 1;
        }
        i += 1;
    }
    let component = path.substring_char(start, len);
    let n = component.unicode_len();
    if n == 0 {
        None
    } else if n == 1 && component.get_char(0) == '.' {
        assert(component@ =~= seq!['.']);
        None
    } else if n == 2 && component.get_char(0) == '.' && component.get_char(1) == '.' {
        assert(component@ =~= seq!['.', '.']);
        None
    } else {
        proof {
            if component@ == seq!['.'] {
                assert(component@.len() == 1 && component@[0] == '.');
            }
            if component@ == seq!['.', '.'] {
                assert(component@.len() == 2 && component@[0] == '.' && component@[1] == '.');
            }
        }
        Some(String::from_str(component))
    }
}

/// The remote path of an SCP upload. Fails where the remote path is a
/// directory and the local path has no file name.
pub fn scp_remote_path(local_path: &str, remote_path: String) -> (r: Result<String, SessionError>)
    ensures
        match r {
            Ok(p) => upload_path(local_path@, remote_path@) == Some(p@),
            Err(e) => upload_path(local_path@, remote_path@).is_none() && match e {
                SessionError::Io(m) => m@ == "Invalid local path"@,
                _ => false,
            },
        },
{
    if ends_with(remote_path.as_str(), '/') {
        match file_name(local_path) {
            Some(name) => {
                let mut target = remote_path;
                target.append(name.as_str());
                Ok(target)
            },
            None => Err(SessionError::Io(String::from_str("Invalid local path"))),
        }
    } else {
        Ok(remote_path)
    }
}

/// The steps that complete an SCP upload once the data is written.
#[derive(Clone, Copy, Debug, PartialEq, Eq, Structural)]
pub enum FinalizeStep {
    Flush,
    SendEof,
    WaitEof,
    Close,
    WaitClose,
}

/// The finalization handshake of an SCP upload, in order.
pub open spec fn scp_handshake() -> Seq<FinalizeStep> {
    seq![
        FinalizeStep::Flush,
        FinalizeStep::SendEof,
        FinalizeStep::WaitEof,
        FinalizeStep::Close,
        FinalizeStep::WaitClose,
    ]
}

/// The step of the finalization handshake that follows `done` completed
/// steps, or `None` once all five are done.
pub fn next_finalize_step(done: usize) -> (step: Option<FinalizeStep>)
    ensures
        done < 5 ==> step == Some(scp_handshake()[done as int]),
        done >= 5 ==> step.is_none(),
{
    if done == 0 {
        Some(FinalizeStep::Flush)
    } else if done == 1 {
        Some(FinalizeStep::SendEof)
    } else if done == 2 {
        Some(FinalizeStep::WaitEof)
    } else if done == 3 {
        Some(FinalizeStep::Close)
    } else if done == 4 {
        Some(FinalizeStep::WaitClose)
    } else {
        None
    }
}

/// What a read of a channel was doing when it failed.
#[derive(Clone, Copy, Debug, PartialEq, Eq, Structural)]
pub enum ReadStage {
    OpenChannel,
    Stdout,
    Stderr,
    WaitClose,
    ExitStatus,
}

/// The start of the message of a failed read at each stage.
pub open spec fn read_failure_prefix(stage: ReadStage) -> Seq<char> {
    match stage {
        ReadStage::OpenChannel => "Timed out establishing channel session.\n"@,
        ReadStage::Stdout => "Timeout reading stdout: "@,
        ReadStage::Stderr => "Timeout reading stderr: "@,
        ReadStage::WaitClose => "Timeout waiting for channel to close: "@,
        ReadStage::ExitStatus => "Timeout getting exit status: "@,
    }
}

/// The error of a command whose channel could not be read: a timeout whose
/// message names the stage and carries the cause.
pub fn read_error(stage: ReadStage, cause: &str) -> (e: SessionError)
    ensures
        match e {
            SessionError::Timeout(m) => m@ == read_failure_prefix(stage) + cause@,
            _ => false,
        },
{
    let mut message = match stage {
        ReadStage::OpenChannel => String::from_str("Timed out establishing channel session.\n"),
        ReadStage::Stdout => String::from_str("Timeout reading stdout: "),
        ReadStage::Stderr => String::from_str("Timeout reading stderr: "),
        ReadStage::WaitClose => String::from_str("Timeout waiting for channel to close: "),
        ReadStage::ExitStatus => String::from_str("Timeout getting exit status: "),
    };
    message.append(cause);
    SessionError::Timeout(message)
}

} // verus!
