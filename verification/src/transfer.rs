//! File transfer through the remote shell: the file travels base64-encoded
//! inside a command, for sessions that have no file-transfer channel.

use vstd::prelude::*;
use vstd::string::*;
use base64::Engine;
use crate::paths::file_name;
use crate::paths::file_name_of;
use crate::result::ResultView;
use crate::result::SSHResult;
use crate::session::SessionError;
use crate::text::decimal_nat;
use crate::text::has_substring;
use crate::text::push_decimal;
use crate::text::str_contains;

verus! {

/// The errors of base64 decoding.
#[verifier::external_type_specification]
#[verifier::external_body]
pub struct ExDecodeError(base64::DecodeError);

/// The standard base64 encoding, with padding, of a byte string.
pub uninterp spec fn base64_standard(data: Seq<u8>) -> Seq<char>;

/// The bytes that a text decodes to as standard base64 with padding, or
/// `None` where it is not such an encoding.
pub uninterp spec fn base64_standard_decoded(text: Seq<char>) -> Option<Seq<u8>>;

/// Calls `encode` of base64's `STANDARD` engine. The contract names the
/// encoding; nothing else is claimed of it. A slice is never so long that
/// the length of its encoding would overflow.
#[verifier::external_body]
pub(crate) fn base64_encode(data: &[u8]) -> (text: String)
    ensures
        text@ == base64_standard(data@),
{
    base64::engine::general_purpose::STANDARD.encode(data)
}

/// Calls `decode` of base64's `STANDARD` engine. The contract names what
/// the text decodes to: the bytes on success, nothing on an error.
#[verifier::external_body]
pub(crate) fn base64_decode(text: &str) -> (r: Result<Vec<u8>, base64::DecodeError>)
    ensures
        match r {
            Ok(bytes) => base64_standard_decoded(text@) == Some(bytes@),
            Err(_) => base64_standard_decoded(text@).is_none(),
        },
{
    base64::engine::general_purpose::STANDARD.decode(text)
}

/// Renders a decoding error through its `Display` impl. Nothing is claimed
/// of the text.
#[verifier::external_body]
pub(crate) fn decode_error_text(e: &base64::DecodeError) -> (text: String) {
    format!("{}", e)
}

/// The command that writes base64 text `encoded` to `remote_path`, making
/// the directory first.
pub open spec fn write_command_text(remote_path: Seq<char>, encoded: Seq<char>) -> Seq<char> {
    "mkdir -p $(dirname "@ + remote_path + ") && echo '"@ + encoded + "' | base64 -d > "@
        + remote_path
}

/// The command that prints the file at `remote_path` base64-encoded.
pub open spec fn read_command_text(remote_path: Seq<char>) -> Seq<char> {
    "cat "@ + remote_path + " | base64"@
}

/// The command that prints the file at `remote_path` as it is.
pub open spec fn cat_command_text(remote_path: Seq<char>) -> Seq<char> {
    "cat \""@ + remote_path + "\""@
}

/// The command that writes the given base64 text to `remote_path`.
pub fn write_command_for(remote_path: &str, encoded: &str) -> (command: String)
    ensures
        command@ == write_command_text(remote_path@, encoded@),
{
    let mut command = String::from_str("mkdir -p $(dirname ");
    command.append(remote_path);
    command.append(") && echo '");
    command.append(encoded);
    command.append("' | base64 -d > ");
    command.append(remote_path);
    command
}

/// The command that writes `data` to `remote_path`.
pub fn write_command(remote_path: &str, data: &Vec<u8>) -> (command: String)
    ensures
        command@ == write_command_text(remote_path@, base64_standard(data@)),
{
    let encoded = base64_encode(data.as_slice());
    write_command_for(remote_path, encoded.as_str())
}

/// The command that prints the file at `remote_path` base64-encoded.
pub fn read_command(remote_path: &str) -> (command: String)
    ensures
        command@ == read_command_text(remote_path@),
{
    let mut command = String::from_str("cat ");
    command.append(remote_path);
    command.append(" | base64");
    command
}

/// The command that prints the file at `remote_path` as it is.
pub fn cat_command(remote_path: &str) -> (command: String)
    ensures
        command@ == cat_command_text(remote_path@),
{
    let mut command = String::from_str("cat \"");
    command.append(remote_path);
    command.append("\"");
    command
}

/// The bytes of a file from the output of its read command. Fails with an
/// I/O error where the output is not base64.
pub fn decode_output(stdout: &str) -> (r: Result<Vec<u8>, SessionError>)
    ensures
        match r {
            Ok(bytes) => base64_standard_decoded(stdout@) == Some(bytes@),
            Err(e) => base64_standard_decoded(stdout@).is_none() && match e {
                SessionError::Io(m) => exists|cause: Seq<char>|
                    m@ == #[trigger] ("Failed to decode base64: "@ + cause),
                _ => false,
            },
        },
{
    match base64_decode(stdout) {
        Ok(bytes) => Ok(bytes),
        Err(e) => {
            let mut message = String::from_str("Failed to decode base64: ");
            let cause = decode_error_text(&e);
            message.append(cause.as_str());
            Err(SessionError::Io(message))
        },
    }
}

/// The remote path of an upload for which none was given: the file name of
/// the local path, empty where it has none.
pub fn default_remote_path(local_path: &str, remote_path: Option<String>) -> (target: String)
    ensures
        target@ == match remote_path {
            Some(r) => r@,
            None => match file_name_of(local_path@) {
                Some(n) => n,
                None => Seq::empty(),
            },
        },
{
    match remote_path {
        Some(r) => r,
        None => match file_name(local_path) {
            Some(n) => n,
            None => String::new(),
        },
    }
}

/// What the exit status of a transfer command means: success for 0, else an
/// I/O error with the name of the operation and the command's error output.
pub fn transfer_outcome(operation: &str, exit_status: u32, stderr: &str) -> (r: Result<
    (),
    SessionError,
>)
    ensures
        exit_status == 0 ==> r.is_ok(),
        exit_status != 0 ==> r.is_err() && match r.unwrap_err() {
            SessionError::Io(m) => m@ == operation@ + " failed: "@ + stderr@,
            _ => false,
        },
{
    if exit_status == 0 {
        Ok(())
    } else {
        let mut message = String::from_str(operation);
        message.append(" failed: ");
        message.append(stderr);
        Err(SessionError::Io(message))
    }
}

/// The error of a command that could not be run: a timeout where the cause
/// speaks of one, an I/O error otherwise.
pub fn execute_error(cause: &str) -> (e: SessionError)
    ensures
        match e {
            SessionError::Timeout(m) => has_substring(cause@, "timeout"@) && m@
                == "Command execution timed out: "@ + cause@,
            SessionError::Io(m) => !has_substring(cause@, "timeout"@) && m@
                == "Command execution failed: "@ + cause@,
            _ => false,
        },
{
    if str_contains(cause, "timeout") {
        let mut message = String::from_str("Command execution timed out: ");
        message.append(cause);
        SessionError::Timeout(message)
    } else {
        let mut message = String::from_str("Command execution failed: ");
        message.append(cause);
        SessionError::Io(message)
    }
}

/// The result of a command from what the transport reported: the streams
/// as they are and the exit status as a signed number.
pub fn result_from_exit(stdout: String, stderr: String, exit_status: u32) -> (r: SSHResult)
    ensures
        r@ == (ResultView { stdout: stdout@, stderr: stderr@, status: (exit_status as i32) as int }),
{
    SSHResult::new(stdout, stderr, #[verifier::truncate] (exit_status as i32))
}

/// The parameters of a session that transfers files through the shell.
pub struct PyAsyncConnection {
    pub host: String,
    pub port: u16,
    pub username: String,
    /// `****` where a password was given, empty otherwise.
    pub password_used: String,
    pub private_key_path: String,
    pub timeout_ms: u64,
}

/// What stands for the password: `****` where one was given.
pub open spec fn password_mask(password: Option<Seq<char>>) -> Seq<char> {
    match password {
        Some(p) => if p.len() == 0 {
            Seq::empty()
        } else {
            "****"@
        },
        None => Seq::empty(),
    }
}

/// The debugging form of such a session.
pub open spec fn py_connection_repr(
    host: Seq<char>,
    port: nat,
    username: Seq<char>,
    password_used: Seq<char>,
    private_key_path: Seq<char>,
) -> Seq<char> {
    "AsyncConnection(host="@ + host + ", port="@ + decimal_nat(port) + ", username="@ + username
        + ", password_used="@ + password_used + ", private_key_path="@ + private_key_path + ")"@
}

impl PyAsyncConnection {
    /// The record of a session. An absent port is 22, an absent user
    /// `root`, an absent timeout 0; the password itself is not kept.
    pub fn new(
        host: String,
        port: Option<u16>,
        username: Option<String>,
        password: Option<String>,
        private_key: Option<String>,
        timeout: Option<u64>,
    ) -> (c: PyAsyncConnection)
        ensures
            c.host == host,
            c.port == match port {
                Some(p) => p,
                None => 22,
            },
            c.username@ == match username {
                Some(u) => u@,
                None => "root"@,
            },
            c.password_used@ == password_mask(
                match password {
                    Some(p) => Some(p@),
                    None => None,
                },
            ),
            c.private_key_path@ == match private_key {
                Some(k) => k@,
                None => Seq::empty(),
            },
            c.timeout_ms == match timeout {
                Some(t) => t,
                None => 0,
            },
    {
        let password_used = match password {
            Some(p) => if p.as_str().unicode_len() == 0 {
                String::new()
            } else {
                String::from_str("****")
            },
            None => String::new(),
        };
        PyAsyncConnection {
            host,
            port: match port {
                Some(p) => p,
                None => 22,
            },
            username: match username {
                Some(u) => u,
                None => String::from_str("root"),
            },
            password_used,
            private_key_path: match private_key {
                Some(k) => k,
                None => String::new(),
            },
            timeout_ms: match timeout {
                Some(t) => t,
                None => 0,
            },
        }
    }

    /// The debugging form.
    pub fn repr(&self) -> (text: String)
        ensures
            text@ == py_connection_repr(
                self.host@,
                self.port as nat,
                self.username@,
                self.password_used@,
                self.private_key_path@,
            ),
    {
        let mut text = String::from_str("AsyncConnection(host=");
        text.append(self.host.as_str());
        text.append(", port=");
        push_decimal(&mut text, self.port as u64);
        text.append(", username=");
        text.append(self.username.as_str());
        text.append(", password_used=");
        text.append(self.password_used.as_str());
        text.append(", private_key_path=");
        text.append(self.private_key_path.as_str());
        text.append(")");
        text
    }
}

} // verus!
