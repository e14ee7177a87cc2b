//! The rules of one SSH session: its parameters and their defaults, the
//! order in which authentication strategies apply, its life cycle, and how
//! failures are classified.

use vstd::prelude::*;
use vstd::string::*;
use crate::text::decimal_int;
use crate::text::push_decimal_signed;

verus! {

/// The port of the SSH service.
pub const DEFAULT_PORT: u16 = 22;

/// The size of the buffer of every streaming copy, in bytes.
pub const MAX_BUFF_SIZE: usize = 65536;

/// The permission bits of a file created by an SCP upload.
pub const SCP_FILE_MODE: i32 = 0o644;

/// The terminal type of a pseudo-terminal request.
pub open spec fn pty_term() -> Seq<char> {
    "xterm"@
}

/// Where a session stands in its life.
#[derive(Clone, Copy, Debug, PartialEq, Eq, Structural)]
pub enum SessionState {
    Unconnected,
    Connected,
    Closed,
}

/// The step of connecting at which a failure occurred.
#[derive(Clone, Copy, Debug, PartialEq, Eq, Structural)]
pub enum ConnectStage {
    Tcp,
    Handshake,
    Authentication,
}

/// The failures of a single session.
#[derive(Debug)]
pub enum SessionError {
    /// The server or the credentials refused the authentication.
    Authentication(String),
    /// A connection, handshake, channel or read did not complete in time.
    Timeout(String),
    /// A file transfer or a channel operation failed.
    Io(String),
    /// An operation was attempted on a session that is not connected.
    NotConnected,
}

/// How a session proves its identity.
#[derive(Debug)]
pub enum AuthMethod {
    /// A private key file, with the passphrase that unlocks it if any.
    KeyFile { path: String, passphrase: Option<String> },
    /// A password.
    Password { password: String },
    /// The keys that the local SSH agent holds.
    Agent,
    /// The key files at the well-known places, tried in a fixed order.
    DefaultKeys,
}

/// The mathematical value of an `AuthMethod`.
pub enum AuthView {
    KeyFile { path: Seq<char>, passphrase: Option<Seq<char>> },
    Password { password: Seq<char> },
    Agent,
    DefaultKeys,
}

/// The text of an optional string.
pub open spec fn opt_text(s: Option<String>) -> Option<Seq<char>> {
    match s {
        Some(t) => Some(t@),
        None => None,
    }
}

impl View for AuthMethod {
    type V = AuthView;

    open spec fn view(&self) -> AuthView {
        match self {
            AuthMethod::KeyFile { path, passphrase } => AuthView::KeyFile {
                path: path@,
                passphrase: opt_text(*passphrase),
            },
            AuthMethod::Password { password } => AuthView::Password { password: password@ },
            AuthMethod::Agent => AuthView::Agent,
            AuthMethod::DefaultKeys => AuthView::DefaultKeys,
        }
    }
}

/// The strategy that applies: a key file where a key path is given, with the
/// password as its passphrase; else the password; else `fallback`.
pub open spec fn auth_choice(
    key_path: Option<Seq<char>>,
    password: Option<Seq<char>>,
    fallback: AuthView,
) -> AuthView {
    match key_path {
        Some(path) => AuthView::KeyFile { path, passphrase: password },
        None => match password {
            Some(p) => AuthView::Password { password: p },
            None => fallback,
        },
    }
}

/// Picks the first strategy that applies, in the order key file, password,
/// `fallback`.
pub fn choose_auth(key_path: Option<String>, password: Option<String>, fallback: AuthMethod) -> (m:
    AuthMethod)
    ensures
        m@ == auth_choice(opt_text(key_path), opt_text(password), fallback@),
{
    match key_path {
        Some(path) => AuthMethod::KeyFile { path, passphrase: password },
        None => match password {
            Some(p) => AuthMethod::Password { password: p },
            None => fallback,
        },
    }
}

/// A leading `~` of `path` stands alone or before a separator, so that it
/// may be replaced by the home directory.
pub open spec fn tilde_applies(path: Seq<char>) -> bool {
    path.len() >= 1 && path[0] == '~' && (path.len() == 1 || path[1] == '/' || path[1] == '\\')
}

/// `expanded` is what tilde expansion may make of `path`: the path itself,
/// or, where a leading `~` applies, some home directory in its place.
pub open spec fn is_tilde_expansion(path: Seq<char>, expanded: Seq<char>) -> bool {
    expanded == path || (tilde_applies(path) && exists|home: Seq<char>|
        expanded == #[trigger] (home + path.skip(1)))
}

/// Calls `shellexpand::tilde`. The home directory comes from the
/// environment, so the contract states what holds whatever it is: the text
/// is unchanged unless it starts with a `~` that stands alone or before a
/// separator, and then all that follows the `~` is kept.
#[verifier::external_body]
pub(crate) fn expand_tilde(path: &str) -> (expanded: String)
    ensures
        is_tilde_expansion(path@, expanded@),
{
    shellexpand::tilde(path).into_owned()
}

/// The path of a private key as it is handed to the transport.
pub fn resolve_key_path(path: &str) -> (expanded: String)
    ensures
        is_tilde_expansion(path@, expanded@),
        !tilde_applies(path@) ==> expanded@ == path@,
{
    expand_tilde(path)
}

/// The error that a failure at `stage` surfaces as: failures before
/// authentication count as timeouts, those of authentication stand apart.
pub fn connect_error(stage: ConnectStage, message: String) -> (e: SessionError)
    ensures
        match stage {
            ConnectStage::Authentication => e == SessionError::Authentication(message),
            _ => e == SessionError::Timeout(message),
        },
{
    match stage {
        ConnectStage::Authentication => SessionError::Authentication(message),
        _ => SessionError::Timeout(message),
    }
}

/// The timeouts of one command: the one in force while it runs and the one
/// that is put back afterwards, on every exit path.
pub struct TimeoutPlan {
    pub during: u32,
    pub restore: u32,
}

/// The parameters and the state of a blocking session.
pub struct Connection {
    host: String,
    port: i32,
    username: String,
    password: String,
    private_key: String,
    timeout: u32,
    state: SessionState,
    sftp_ready: bool,
}

/// The mathematical value of a `Connection`. An empty password or key path
/// means that none was given.
pub struct ConnectionView {
    pub host: Seq<char>,
    pub port: int,
    pub username: Seq<char>,
    pub password: Seq<char>,
    pub private_key: Seq<char>,
    pub timeout: nat,
    pub state: SessionState,
    pub sftp_ready: bool,
}

/// The text of an optional parameter, or `default` where it is absent.
pub open spec fn text_or(value: Option<&str>, default: Seq<char>) -> Seq<char> {
    match value {
        Some(t) => t@,
        None => default,
    }
}

/// A non-empty text, or nothing.
pub open spec fn non_empty(text: Seq<char>) -> Option<Seq<char>> {
    if text.len() == 0 {
        None
    } else {
        Some(text)
    }
}

/// The debugging form of a session, which never shows the password.
pub open spec fn connection_repr(host: Seq<char>, port: int, username: Seq<char>) -> Seq<char> {
    "Connection(host="@ + host + ", port="@ + decimal_int(port) + ", username="@ + username
        + ", password=*****)"@
}

fn owned_non_empty(text: &String) -> (r: Option<String>)
    ensures
        opt_text(r) == non_empty(text@),
{
    if text.as_str().unicode_len() == 0 {
        None
    } else {
        Some(text.clone())
    }
}

impl View for Connection {
    type V = ConnectionView;

    closed spec fn view(&self) -> ConnectionView {
        ConnectionView {
            host: self.host@,
            port: self.port as int,
            username: self.username@,
            password: self.password@,
            private_key: self.private_key@,
            timeout: self.timeout as nat,
            state: self.state,
            sftp_ready: self.sftp_ready,
        }
    }
}

impl Connection {
    /// A session that is not connected yet. An absent port is 22, an absent
    /// user `root`, an absent timeout 0 (none); an absent password or key
    /// path is empty.
    pub fn new(
        host: &str,
        port: Option<i32>,
        username: Option<&str>,
        password: Option<&str>,
        private_key: Option<&str>,
        timeout: Option<u32>,
    ) -> (c: Connection)
        ensures
            c@ == (ConnectionView {
                host: host@,
                port: match port {
                    Some(p) => p as int,
                    None => 22,
                },
                username: text_or(username, "root"@),
                password: text_or(password, Seq::empty()),
                private_key: text_or(private_key, Seq::empty()),
                timeout: match timeout {
                    Some(t) => t as nat,
                    None => 0,
                },
                state: SessionState::Unconnected,
                sftp_ready: false,
            }),
    {
        Connection {
            host: String::from_str(host),
            port: match port {
                Some(p) => p,
                None => 22,
            },
            username: match username {
                Some(u) => String::from_str(u),
                None => String::from_str("root"),
            },
            password: match password {
                Some(p) => String::from_str(p),
                None => String::new(),
            },
            private_key: match private_key {
                Some(k) => String::from_str(k),
                None => String::new(),
            },
            timeout: match timeout {
                Some(t) => t,
                None => 0,
            },
            state: SessionState::Unconnected,
            sftp_ready: false,
        }
    }

    /// The host of the session.
    pub fn get_host(&self) -> (r: &String)
        ensures
            r@ == self@.host,
    {
        &self.host
    }

    /// The port of the session.
    pub fn get_port(&self) -> (r: i32)
        ensures
            r == self@.port,
    {
        self.port
    }

    /// The user to authenticate as.
    pub fn get_username(&self) -> (r: &String)
        ensures
            r@ == self@.username,
    {
        &self.username
    }

    /// The password, empty where none was given.
    pub fn get_password(&self) -> (r: &String)
        ensures
            r@ == self@.password,
    {
        &self.password
    }

    /// The path of the private key as it was given, empty where none was.
    pub fn get_private_key(&self) -> (r: &String)
        ensures
            r@ == self@.private_key,
    {
        &self.private_key
    }

    /// The timeout of the session in milliseconds, 0 for none.
    pub fn get_timeout(&self) -> (r: u32)
        ensures
            r == self@.timeout,
    {
        self.timeout
    }

    /// Where the session stands in its life.
    pub fn state(&self) -> (r: SessionState)
        ensures
            r == self@.state,
    {
        self.state
    }

    /// The strategy by which this session authenticates, given the key path
    /// after tilde expansion: the key file if a key path was given, with
    /// the password as passphrase if there is one; else the password; else
    /// the agent.
    pub fn auth_method_for(&self, expanded_key: String) -> (m: AuthMethod)
        ensures
            m@ == auth_choice(
                if self@.private_key.len() == 0 {
                    None
                } else {
                    Some(expanded_key@)
                },
                non_empty(self@.password),
                AuthView::Agent,
            ),
    {
        let key = if self.private_key.as_str().unicode_len() == 0 {
            None
        } else {
            Some(expanded_key)
        };
        choose_auth(key, owned_non_empty(&self.password), AuthMethod::Agent)
    }

    /// The strategy by which this session authenticates. The key path is
    /// tilde-expanded first.
    pub fn auth_method(&self) -> (m: AuthMethod)
        ensures
            self@.private_key.len() == 0 ==> m@ == auth_choice(
                None,
                non_empty(self@.password),
                AuthView::Agent,
            ),
            self@.private_key.len() > 0 ==> exists|expanded: Seq<char>|
                is_tilde_expansion(self@.private_key, expanded) && m@ == #[trigger] auth_choice(
                    Some(expanded),
                    non_empty(self@.password),
                    AuthView::Agent,
                ),
    {
        let expanded = resolve_key_path(self.private_key.as_str());
        let ghost text = expanded@;
        let m = self.auth_method_for(expanded);
        proof {
            if self@.private_key.len() > 0 {
                assert(m@ == auth_choice(Some(text), non_empty(self@.password), AuthView::Agent));
            }
        }
        m
    }

    /// Records that connecting and authenticating succeeded. A closed
    /// session stays closed: it cannot be used again.
    pub fn mark_connected(&mut self) -> (accepted: bool)
        ensures
            accepted == (old(self)@.state != SessionState::Closed),
            accepted ==> final(self)@ == (ConnectionView {
                state: SessionState::Connected,
                ..old(self)@
            }),
            !accepted ==> final(self)@ == old(self)@,
    {
        match self.state {
            SessionState::Closed => false,
            _ => {
                self.state = SessionState::Connected;
                true
            },
        }
    }

    /// Fails with `NotConnected` unless the session is connected.
    pub fn require_connected(&self) -> (r: Result<(), SessionError>)
        ensures
            r.is_ok() <==> self@.state == SessionState::Connected,
            r.is_err() ==> r == Err::<(), SessionError>(SessionError::NotConnected),
    {
        match self.state {
            SessionState::Connected => Ok(()),
            _ => Err(SessionError::NotConnected),
        }
    }

    /// Prepares an SFTP operation. Tells whether the SFTP subsystem has to
    /// be opened now: on the first use only, after which it is reused.
    pub fn sftp(&mut self) -> (r: Result<bool, SessionError>)
        ensures
            old(self)@.state != SessionState::Connected ==> r == Err::<bool, SessionError>(
                SessionError::NotConnected,
            ) && final(self)@ == old(self)@,
            old(self)@.state == SessionState::Connected ==> r == Ok::<bool, SessionError>(
                !old(self)@.sftp_ready,
            ) && final(self)@ == (ConnectionView { sftp_ready: true, ..old(self)@ }),
    {
        match self.state {
            SessionState::Connected => {
                let open_now = !self.sftp_ready;
                self.sftp_ready = true;
                Ok(open_now)
            },
            _ => Err(SessionError::NotConnected),
        }
    }

    /// The timeouts of one command: a timeout given for the call is in
    /// force while it runs, and the session's own is put back afterwards.
    pub fn execute_timeouts(&self, per_call: Option<u32>) -> (plan: TimeoutPlan)
        ensures
            plan.restore == self@.timeout,
            plan.during == match per_call {
                Some(t) => t,
                None => self@.timeout as u32,
            },
    {
        TimeoutPlan {
            during: match per_call {
                Some(t) => t,
                None => self.timeout,
            },
            restore: self.timeout,
        }
    }

    /// Closes the session. Tells whether a disconnect has to be sent: only
    /// where the session was connected, so that closing again does nothing.
    pub fn close(&mut self) -> (disconnect: bool)
        ensures
            disconnect == (old(self)@.state == SessionState::Connected),
            final(self)@ == closed_connection(old(self)@),
    {
        let disconnect = match self.state {
            SessionState::Connected => true,
            _ => false,
        };
        self.state = SessionState::Closed;
        self.sftp_ready = false;
        disconnect
    }

    /// The debugging form; the password is never shown.
    pub fn repr(&self) -> (text: String)
        ensures
            text@ == connection_repr(self@.host, self@.port, self@.username),
    {
        let mut text = String::from_str("Connection(host=");
        text.append(self.host.as_str());
        text.append(", port=");
        push_decimal_signed(&mut text, self.port as i64);
        text.append(", username=");
        text.append(self.username.as_str());
        text.append(", password=*****)");
        text
    }
}

/// A blocking session after `close`.
pub open spec fn closed_connection(v: ConnectionView) -> ConnectionView {
    ConnectionView { state: SessionState::Closed, sftp_ready: false, ..v }
}

/// Closing is idempotent: a second `close` changes nothing and asks for no
/// disconnect.
pub proof fn lemma_close_idempotent(v: ConnectionView)
    ensures
        closed_connection(closed_connection(v)) == closed_connection(v),
        closed_connection(v).state != SessionState::Connected,
{
}

/// The size of the buffer for copying a file of `size` bytes: the file's
/// size, at most 64 KiB.
pub fn copy_buffer_len(size: u64) -> (n: usize)
    ensures
        n == if size < 65536 {
            size as int
        } else {
            65536
        },
{
    if size < 65536 {
        size as usize
    } else {
        MAX_BUFF_SIZE
    }
}

/// What a download returns: the literal `Ok` where the file was saved
/// locally, else the text that was read.
pub fn download_reply(saved_locally: bool, contents: String) -> (reply: String)
    ensures
        reply@ == if saved_locally {
            "Ok"@
        } else {
            contents@
        },
{
    if saved_locally {
        String::from_str("Ok")
    } else {
        contents
    }
}

/// The remote path of an SFTP upload: the local path where none is given.
pub fn upload_target(local_path: &str, remote_path: Option<String>) -> (target: String)
    ensures
        target@ == match remote_path {
            Some(r) => r@,
            None => local_path@,
        },
{
    match remote_path {
        Some(r) => r,
        None => String::from_str(local_path),
    }
}

/// A pseudo-terminal request.
pub struct PtyRequest {
    pub term: String,
    pub width: u32,
    pub height: u32,
}

/// The pseudo-terminal to ask for before a shell: an `xterm` of 80 columns
/// and 24 rows where one is wanted, none otherwise.
pub fn shell_pty(pty: Option<bool>) -> (request: Option<PtyRequest>)
    ensures
        request.is_some() <==> pty == Some(true),
        request.is_some() ==> request.unwrap().term@ == pty_term() && request.unwrap().width == 80
            && request.unwrap().height == 24,
{
    match pty {
        Some(true) => Some(PtyRequest { term: String::from_str("xterm"), width: 80, height: 24 }),
        _ => None,
    }
}

} // verus!
