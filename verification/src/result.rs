//! The outcome of one remote command.

use vstd::prelude::*;
use vstd::string::*;
use crate::text::decimal_int;
use crate::text::decimal_nat;
use crate::text::push_decimal;
use crate::text::push_decimal_signed;

verus! {

/// Exit status of an outcome that was made up on the client side.
pub const CLIENT_FAILURE_STATUS: i32 = -1;

/// One command outcome: both output streams as text and the exit status.
#[derive(Debug)]
pub struct SSHResult {
    pub stdout: String,
    pub stderr: String,
    pub status: i32,
}

/// The mathematical value of an `SSHResult`.
pub struct ResultView {
    pub stdout: Seq<char>,
    pub stderr: Seq<char>,
    pub status: int,
}

impl View for SSHResult {
    type V = ResultView;

    open spec fn view(&self) -> ResultView {
        ResultView { stdout: self.stdout@, stderr: self.stderr@, status: self.status as int }
    }
}

/// The outcome of an operation that produced no output and succeeded.
pub open spec fn empty_success() -> ResultView {
    ResultView { stdout: Seq::empty(), stderr: Seq::empty(), status: 0 }
}

/// The outcome of a successful upload: `Ok` on the output stream.
pub open spec fn transfer_success() -> ResultView {
    ResultView { stdout: "Ok"@, stderr: Seq::empty(), status: 0 }
}

/// The outcome of a successful download: the file's text on the output stream.
pub open spec fn contents_success(contents: Seq<char>) -> ResultView {
    ResultView { stdout: contents, stderr: Seq::empty(), status: 0 }
}

/// The outcome that stands for a client-side error: the message on the
/// error stream and the reserved status.
pub open spec fn client_failure(message: Seq<char>) -> ResultView {
    ResultView { stdout: Seq::empty(), stderr: message, status: -1 }
}

/// The message of an operation that ran out of time.
pub open spec fn operation_timeout_message(seconds: nat) -> Seq<char> {
    "Operation timed out after "@ + decimal_nat(seconds) + " seconds"@
}

/// The display form of an outcome.
pub open spec fn result_text(r: ResultView) -> Seq<char> {
    "stdout:\n"@ + r.stdout + "\nstderr:\n"@ + r.stderr + "\nstatus: "@ + decimal_int(r.status)
}

/// The debugging form of an outcome.
pub open spec fn result_repr(r: ResultView) -> Seq<char> {
    "SSHResult(stdout="@ + r.stdout + ", stderr="@ + r.stderr + ", status="@ + decimal_int(
        r.status,
    ) + ")"@
}

impl Clone for SSHResult {
    fn clone(&self) -> (copy: SSHResult)
        ensures
            copy == *self,
    {
        SSHResult { stdout: self.stdout.clone(), stderr: self.stderr.clone(), status: self.status }
    }
}

impl SSHResult {
    /// An outcome with the given streams and status.
    pub fn new(stdout: String, stderr: String, status: i32) -> (r: SSHResult)
        ensures
            r.stdout == stdout,
            r.stderr == stderr,
            r.status == status,
    {
        SSHResult { stdout, stderr, status }
    }

    /// The outcome of an operation without output that succeeded.
    pub fn success() -> (r: SSHResult)
        ensures
            r@ == empty_success(),
    {
        SSHResult { stdout: String::new(), stderr: String::new(), status: 0 }
    }

    /// The outcome of a successful upload.
    pub fn transfer_ok() -> (r: SSHResult)
        ensures
            r@ == transfer_success(),
    {
        SSHResult { stdout: String::from_str("Ok"), stderr: String::new(), status: 0 }
    }

    /// The outcome of a successful download of `contents`.
    pub fn with_contents(contents: String) -> (r: SSHResult)
        ensures
            r@ == contents_success(contents@),
    {
        SSHResult { stdout: contents, stderr: String::new(), status: 0 }
    }

    /// The outcome that reports a client-side error.
    pub fn failure(message: String) -> (r: SSHResult)
        ensures
            r@ == client_failure(message@),
    {
        SSHResult { stdout: String::new(), stderr: message, status: CLIENT_FAILURE_STATUS }
    }

    /// The outcome of an operation that was cut off after `seconds`.
    pub fn timed_out(seconds: u64) -> (r: SSHResult)
        ensures
            r@ == client_failure(operation_timeout_message(seconds as nat)),
    {
        SSHResult::failure(operation_timeout_text(seconds))
    }

    /// Whether the status reports success.
    pub fn succeeded(&self) -> (ok: bool)
        ensures
            ok == (self@.status == 0),
    {
        self.status == 0
    }

    /// The display form: both streams, then the status.
    pub fn to_text(&self) -> (text: String)
        ensures
            text@ == result_text(self@),
    {
        let mut text = String::from_str("stdout:\n");
        text.append(self.stdout.as_str());
        text.append("\nstderr:\n");
        text.append(self.stderr.as_str());
        text.append("\nstatus: ");
        push_decimal_signed(&mut text, self.status as i64);
        text
    }

    /// The debugging form.
    pub fn repr(&self) -> (text: String)
        ensures
            text@ == result_repr(self@),
    {
        let mut text = String::from_str("SSHResult(stdout=");
        text.append(self.stdout.as_str());
        text.append(", stderr=");
        text.append(self.stderr.as_str());
        text.append(", status=");
        push_decimal_signed(&mut text, self.status as i64);
        text.append(")");
        text
    }
}

/// The text `Operation timed out after N seconds`.
pub fn operation_timeout_text(seconds: u64) -> (text: String)
    ensures
        text@ == operation_timeout_message(seconds as nat),
{
    let mut text = String::from_str("Operation timed out after ");
    push_decimal(&mut text, seconds);
    text.append(" seconds");
    text
}

} // verus!
