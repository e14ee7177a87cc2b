//! The rules of a session of the asynchronous engine: parameters, the
//! authentication order with its search over default keys, deadlines and
//! life cycle.

use vstd::prelude::*;
use vstd::string::*;
use crate::session::auth_choice;
use crate::session::choose_auth;
use crate::session::is_tilde_expansion;
use crate::session::non_empty;
use crate::session::opt_text;
use crate::session::resolve_key_path;
use crate::session::AuthMethod;
use crate::session::AuthView;
use crate::session::Connection;
use crate::session::ConnectionView;
use crate::session::SessionError;
use crate::session::SessionState;

verus! {

/// The number of default key files.
pub const DEFAULT_KEY_COUNT: usize = 4;

/// The default key files in the order in which they are tried.
pub open spec fn default_key_path(index: int) -> Seq<char> {
    if index == 0 {
        "~/.ssh/id_rsa"@
    } else if index == 1 {
        "~/.ssh/id_ed25519"@
    } else if index == 2 {
        "~/.ssh/id_ecdsa"@
    } else {
        "~/.ssh/id_dsa"@
    }
}

/// The hash that a key signs with where the choice is the client's.
#[derive(Clone, Copy, Debug, PartialEq, Eq, Structural)]
pub enum SignatureHash {
    Sha256,
}

/// The signature hash to advertise for a key: SHA-256 for an RSA key; for
/// any other key its type decides, and none is advertised.
pub fn signature_hash(is_rsa: bool) -> (hash: Option<SignatureHash>)
    ensures
        hash == if is_rsa {
            Some(SignatureHash::Sha256)
        } else {
            None
        },
{
    if is_rsa {
        Some(SignatureHash::Sha256)
    } else {
        None
    }
}

/// What the transport reported of one authentication attempt.
#[derive(Debug)]
pub enum AuthAttempt {
    /// The server accepted the credentials.
    Accepted,
    /// The server refused them.
    Rejected,
    /// The attempt itself failed, with this message.
    Errored(String),
}

/// What became of one default key.
#[derive(Clone, Copy, Debug, PartialEq, Eq, Structural)]
pub enum KeyAttempt {
    /// No file at that path.
    Missing,
    /// The file could not be loaded as a private key.
    Unreadable,
    /// The server refused the key, or the attempt failed.
    Rejected,
    /// The server accepted the key.
    Accepted,
}

/// The next move of the search over the default keys.
#[derive(Clone, Copy, Debug, PartialEq, Eq, Structural)]
pub enum KeySearchStep {
    /// Try the default key with this index.
    Try(usize),
    /// A key was accepted: the session is authenticated.
    Authenticated,
    /// No default key was accepted.
    Exhausted,
}

/// The index of the first accepted attempt, if any.
pub open spec fn first_accepted(attempts: Seq<KeyAttempt>) -> Option<int>
    decreases attempts.len(),
{
    if attempts.len() == 0 {
        None
    } else if attempts[0] == KeyAttempt::Accepted {
        Some(0)
    } else {
        match first_accepted(attempts.skip(1)) {
            Some(i) => Some(i + 1),
            None => None,
        }
    }
}

/// The search over the default keys: each is tried in order until one is
/// accepted.
pub struct DefaultKeySearch {
    current: usize,
}

impl DefaultKeySearch {
    /// The index of the key that is being tried.
    pub closed spec fn current(&self) -> int {
        self.current as int
    }

    /// A search that tries the first default key.
    pub fn start() -> (r: (DefaultKeySearch, KeySearchStep))
        ensures
            r.0.current() == 0,
            r.1 == KeySearchStep::Try(0),
    {
        (DefaultKeySearch { current: 0 }, KeySearchStep::Try(0))
    }

    /// Takes the outcome of the key being tried: an accepted key ends the
    /// search, any other outcome moves on to the next key, and after the
    /// last key the search is exhausted.
    pub fn advance(&mut self, outcome: KeyAttempt) -> (step: KeySearchStep)
        ensures
            step == search_step(old(self).current(), outcome),
            final(self).current() == if outcome == KeyAttempt::Accepted || old(self).current()
                >= 4 {
                old(self).current()
            } else {
                old(self).current() + 1
            },
    {
        match outcome {
            KeyAttempt::Accepted => KeySearchStep::Authenticated,
            _ => {
                if self.current >= DEFAULT_KEY_COUNT {
                    KeySearchStep::Exhausted
                } else {
                    self.current = self.current + 1;
                    if self.current < DEFAULT_KEY_COUNT {
                        KeySearchStep::Try(self.current)
                    } else {
                        KeySearchStep::Exhausted
                    }
                }
            },
        }
    }
}

/// The move that follows the outcome of the key with index `current`: an
/// accepted key ends the search, any other outcome leads to the next key,
/// and after the last key the search is exhausted.
pub open spec fn search_step(current: int, outcome: KeyAttempt) -> KeySearchStep {
    if outcome == KeyAttempt::Accepted {
        KeySearchStep::Authenticated
    } else if current + 1 < 4 {
        KeySearchStep::Try((current + 1) as usize)
    } else {
        KeySearchStep::Exhausted
    }
}

/// The path of a default key as it is listed, before tilde expansion.
pub fn listed_default_key(index: usize) -> (path: &'static str)
    ensures
        path@ == default_key_path(index as int),
{
    if index == 0 {
        "~/.ssh/id_rsa"
    } else if index == 1 {
        "~/.ssh/id_ed25519"
    } else if index == 2 {
        "~/.ssh/id_ecdsa"
    } else {
        "~/.ssh/id_dsa"
    }
}

/// The path of a default key after tilde expansion.
pub fn default_key_file(index: usize) -> (path: String)
    ensures
        is_tilde_expansion(default_key_path(index as int), path@),
{
    resolve_key_path(listed_default_key(index))
}

/// Decides a search over the default keys whose outcomes are all known:
/// the index of the first key that was accepted among the first four.
pub fn search_default_keys(attempts: &Vec<KeyAttempt>) -> (found: Option<usize>)
    ensures
        match found {
            Some(i) => i < 4 && first_accepted(attempts@) == Some(i as int),
            None => match first_accepted(attempts@) {
                Some(i) => i >= 4,
                None => true,
            },
        },
{
    let mut i: usize = 0;
    proof {
        assert(attempts@.skip(0) =~= attempts@);
    }
    while i < attempts.len() && i < DEFAULT_KEY_COUNT
        invariant
            i <= attempts.len(),
            i <= 4,
            first_accepted(attempts@) == match first_accepted(attempts@.skip(i as int)) {
                Some(k) => Some(k + i),
                None => None,
            },
        decreases attempts.len() - i,
    {
        let ghost rest = attempts@.skip(i as int);
        proof {
            assert(rest[0] == attempts@[i as int]);
            assert(rest.skip(1) =~= attempts@.skip(i as int + 1));
        }
        match attempts[i] {
            KeyAttempt::Accepted => {
                return Some(i);
            },
            _ => {},
        }
        i += 1;
    }
    proof {
        lemma_first_accepted_bounds(attempts@.skip(i as int));
    }
    None
}

/// The index of the first accepted attempt lies within the attempts.
pub proof fn lemma_first_accepted_bounds(attempts: Seq<KeyAttempt>)
    ensures
        match first_accepted(attempts) {
            Some(i) => 0 <= i < attempts.len() && attempts[i] == KeyAttempt::Accepted,
            None => forall|k: int|
                0 <= k < attempts.len() ==> (#[trigger] attempts[k]) != KeyAttempt::Accepted,
        },
    decreases attempts.len(),
{
    if attempts.len() > 0 && attempts[0] != KeyAttempt::Accepted {
        let rest = attempts.skip(1);
        lemma_first_accepted_bounds(rest);
        match first_accepted(rest) {
            Some(i) => {
                assert(rest[i] == attempts[i + 1]);
            },
            None => {
                assert forall|k: int| 0 <= k < attempts.len() implies (#[trigger] attempts[k])
                    != KeyAttempt::Accepted by {
                    if k > 0 {
                        assert(rest[k - 1] == attempts[k]);
                    }
                }
            },
        }
    }
}

/// The parameters and the state of an asynchronous session.
pub struct AsyncConnection {
    host: String,
    port: u16,
    username: Option<String>,
    password: Option<String>,
    key_path: Option<String>,
    keepalive_interval: u64,
    timeout: u64,
    state: SessionState,
    sftp_ready: bool,
}

/// The mathematical value of an `AsyncConnection`.
pub struct AsyncConnectionView {
    pub host: Seq<char>,
    pub port: int,
    pub username: Option<Seq<char>>,
    pub password: Option<Seq<char>>,
    pub key_path: Option<Seq<char>>,
    pub keepalive_interval: nat,
    pub timeout: nat,
    pub state: SessionState,
    pub sftp_ready: bool,
}

/// The asynchronous session that takes over the parameters of a blocking
/// one: host, user and port, the password and the key path where they are
/// not empty, no keepalive, the given timeout, and no connection.
pub open spec fn from_blocking(c: ConnectionView, timeout: nat) -> AsyncConnectionView {
    AsyncConnectionView {
        host: c.host,
        port: (c.port as i32) as u16 as int,
        username: Some(c.username),
        password: non_empty(c.password),
        key_path: non_empty(c.private_key),
        keepalive_interval: 0,
        timeout,
        state: SessionState::Unconnected,
        sftp_ready: false,
    }
}

/// The message of an authentication that the server refused.
pub open spec fn rejection_message(explicit_credentials: bool) -> Seq<char> {
    if explicit_credentials {
        "Authentication failed"@
    } else {
        "Failed to authenticate with default SSH keys"@
    }
}

/// An asynchronous session after `close`: closed, and without its SFTP
/// subsystem.
pub open spec fn closed_session(v: AsyncConnectionView) -> AsyncConnectionView {
    AsyncConnectionView { state: SessionState::Closed, sftp_ready: false, ..v }
}

/// Closing is idempotent: a second `close` changes nothing.
pub proof fn lemma_close_idempotent(v: AsyncConnectionView)
    ensures
        closed_session(closed_session(v)) == closed_session(v),
{
}

fn clone_text(s: &Option<String>) -> (r: Option<String>)
    ensures
        r == *s,
{
    match s {
        Some(t) => Some(t.clone()),
        None => None,
    }
}

impl View for AsyncConnection {
    type V = AsyncConnectionView;

    closed spec fn view(&self) -> AsyncConnectionView {
        AsyncConnectionView {
            host: self.host@,
            port: self.port as int,
            username: opt_text(self.username),
            password: opt_text(self.password),
            key_path: opt_text(self.key_path),
            keepalive_interval: self.keepalive_interval as nat,
            timeout: self.timeout as nat,
            state: self.state,
            sftp_ready: self.sftp_ready,
        }
    }
}

impl Clone for AsyncConnection {
    fn clone(&self) -> (copy: AsyncConnection)
        ensures
            copy@ == self@,
    {
        AsyncConnection {
            host: self.host.clone(),
            port: self.port,
            username: clone_text(&self.username),
            password: clone_text(&self.password),
            key_path: clone_text(&self.key_path),
            keepalive_interval: self.keepalive_interval,
            timeout: self.timeout,
            state: self.state,
            sftp_ready: self.sftp_ready,
        }
    }
}

impl AsyncConnection {
    /// A session that is not connected yet.
    pub fn new(
        host: String,
        username: Option<String>,
        password: Option<String>,
        key_path: Option<String>,
        port: u16,
        keepalive_interval: u64,
        timeout: u64,
    ) -> (c: AsyncConnection)
        ensures
            c@ == (AsyncConnectionView {
                host: host@,
                port: port as int,
                username: opt_text(username),
                password: opt_text(password),
                key_path: opt_text(key_path),
                keepalive_interval: keepalive_interval as nat,
                timeout: timeout as nat,
                state: SessionState::Unconnected,
                sftp_ready: false,
            }),
    {
        AsyncConnection {
            host,
            port,
            username,
            password,
            key_path,
            keepalive_interval,
            timeout,
            state: SessionState::Unconnected,
            sftp_ready: false,
        }
    }

    /// A fresh, unconnected session with the parameters of a blocking one:
    /// its host, user and port, its password and key path where they are
    /// not empty, no keepalive, and the given timeout.
    pub fn from_connection(conn: &Connection, timeout: u64) -> (c: AsyncConnection)
        ensures
            c@ == from_blocking(conn@, timeout as nat),
    {
        let port = conn.get_port();
        let password = if conn.get_password().as_str().unicode_len() == 0 {
            None
        } else {
            Some(conn.get_password().clone())
        };
        let key_path = if conn.get_private_key().as_str().unicode_len() == 0 {
            None
        } else {
            Some(conn.get_private_key().clone())
        };
        AsyncConnection::new(
            conn.get_host().clone(),
            Some(conn.get_username().clone()),
            password,
            key_path,
            #[verifier::truncate]
            (port as u16),
            0,
            timeout,
        )
    }

    /// The host of the session.
    pub fn get_host(&self) -> (r: String)
        ensures
            r@ == self@.host,
    {
        self.host.clone()
    }

    /// The port of the session.
    pub fn get_port(&self) -> (r: u16)
        ensures
            r == self@.port,
    {
        self.port
    }

    /// Where the session stands in its life.
    pub fn state(&self) -> (r: SessionState)
        ensures
            r == self@.state,
    {
        self.state
    }

    /// The user to authenticate as: `root` where none was given.
    pub fn login_name(&self) -> (name: String)
        ensures
            name@ == match self@.username {
                Some(u) => u,
                None => "root"@,
            },
    {
        match &self.username {
            Some(u) => u.clone(),
            None => String::from_str("root"),
        }
    }

    /// The interval of keepalive frames in seconds, or `None` where none
    /// are to be sent.
    pub fn keepalive(&self) -> (interval: Option<u64>)
        ensures
            interval == if self@.keepalive_interval > 0 {
                Some(self@.keepalive_interval as u64)
            } else {
                None
            },
    {
        if self.keepalive_interval > 0 {
            Some(self.keepalive_interval)
        } else {
            None
        }
    }

    /// The deadline of a connection attempt in seconds: the timeout given
    /// for the call or else the session's own, where that is not 0.
    pub fn connect_deadline(&self, timeout: Option<u64>) -> (deadline: Option<u64>)
        ensures
            deadline == match timeout {
                Some(t) => if t > 0 {
                    Some(t)
                } else {
                    None
                },
                None => if self@.timeout > 0 {
                    Some(self@.timeout as u64)
                } else {
                    None
                },
            },
    {
        let seconds = match timeout {
            Some(t) => t,
            None => self.timeout,
        };
        if seconds > 0 {
            Some(seconds)
        } else {
            None
        }
    }

    /// The strategy by which this session authenticates, given the key
    /// path after tilde expansion: the key file where a key path was given,
    /// with the password as passphrase; else the password; else the search
    /// over the default keys.
    pub fn auth_method_for(&self, expanded_key: Option<String>) -> (m: AuthMethod)
        ensures
            m@ == auth_choice(
                match self@.key_path {
                    Some(k) => match expanded_key {
                        Some(e) => Some(e@),
                        None => Some(k),
                    },
                    None => None,
                },
                self@.password,
                AuthView::DefaultKeys,
            ),
    {
        let key = match &self.key_path {
            Some(k) => match expanded_key {
                Some(e) => Some(e),
                None => Some(k.clone()),
            },
            None => None,
        };
        choose_auth(key, clone_text(&self.password), AuthMethod::DefaultKeys)
    }

    /// The strategy by which this session authenticates. The key path is
    /// tilde-expanded first.
    pub fn auth_method(&self) -> (m: AuthMethod)
        ensures
            self@.key_path.is_none() ==> m@ == auth_choice(
                None,
                self@.password,
                AuthView::DefaultKeys,
            ),
            self@.key_path.is_some() ==> exists|expanded: Seq<char>|
                is_tilde_expansion(self@.key_path.unwrap(), expanded) && m@
                    == #[trigger] auth_choice(
                    Some(expanded),
                    self@.password,
                    AuthView::DefaultKeys,
                ),
    {
        let expanded = match &self.key_path {
            Some(k) => Some(resolve_key_path(k.as_str())),
            None => None,
        };
        let ghost text = opt_text(expanded);
        let m = self.auth_method_for(expanded);
        proof {
            if self@.key_path.is_some() {
                assert(m@ == auth_choice(
                    Some(text.unwrap()),
                    self@.password,
                    AuthView::DefaultKeys,
                ));
            }
        }
        m
    }

    /// What an authentication attempt means for the session: success, or an
    /// authentication error whose message tells a refusal of explicit
    /// credentials from one of the default keys, and carries the cause of a
    /// failed attempt.
    pub fn auth_outcome(&self, attempt: AuthAttempt) -> (r: Result<(), SessionError>)
        ensures
            match attempt {
                AuthAttempt::Accepted => r.is_ok(),
                AuthAttempt::Rejected => r.is_err() && match r.unwrap_err() {
                    SessionError::Authentication(m) => m@ == rejection_message(
                        self@.key_path.is_some() || self@.password.is_some(),
                    ),
                    _ => false,
                },
                AuthAttempt::Errored(cause) => r.is_err() && match r.unwrap_err() {
                    SessionError::Authentication(m) => m@ == "Authentication failed: "@ + cause@,
                    _ => false,
                },
            },
    {
        match attempt {
            AuthAttempt::Accepted => Ok(()),
            AuthAttempt::Rejected => {
                if self.key_path.is_some() || self.password.is_some() {
                    Err(SessionError::Authentication(String::from_str("Authentication failed")))
                } else {
                    Err(
                        SessionError::Authentication(
                            String::from_str("Failed to authenticate with default SSH keys"),
                        ),
                    )
                }
            },
            AuthAttempt::Errored(cause) => {
                let mut message = String::from_str("Authentication failed: ");
                message.append(cause.as_str());
                Err(SessionError::Authentication(message))
            },
        }
    }

    /// Records that connecting and authenticating succeeded. A closed
    /// session stays closed: it cannot be used again.
    pub fn mark_connected(&mut self) -> (accepted: bool)
        ensures
            accepted == (old(self)@.state != SessionState::Closed),
            accepted ==> final(self)@ == (AsyncConnectionView {
                state: SessionState::Connected,
                ..old(self)@
            }),
            !accepted ==> final(self)@ == old(self)@,
    {
        match self.state {
            SessionState::Closed => false,
            _ => {
                self.state = SessionState::Connected;
                true
            },
        }
    }

    /// Fails with `NotConnected` unless the session is connected.
    pub fn require_connected(&self) -> (r: Result<(), SessionError>)
        ensures
            r.is_ok() <==> self@.state == SessionState::Connected,
            r.is_err() ==> r == Err::<(), SessionError>(SessionError::NotConnected),
    {
        match self.state {
            SessionState::Connected => Ok(()),
            _ => Err(SessionError::NotConnected),
        }
    }

    /// Prepares an SFTP operation. Tells whether the SFTP subsystem has to
    /// be opened now: on the first use only, after which it is reused.
    pub fn get_or_init_sftp(&mut self) -> (r: Result<bool, SessionError>)
        ensures
            old(self)@.state != SessionState::Connected ==> r == Err::<bool, SessionError>(
                SessionError::NotConnected,
            ) && final(self)@ == old(self)@,
            old(self)@.state == SessionState::Connected ==> r == Ok::<bool, SessionError>(
                !old(self)@.sftp_ready,
            ) && final(self)@ == (AsyncConnectionView { sftp_ready: true, ..old(self)@ }),
    {
        match self.state {
            SessionState::Connected => {
                let open_now = !self.sftp_ready;
                self.sftp_ready = true;
                Ok(open_now)
            },
            _ => Err(SessionError::NotConnected),
        }
    }

    /// Closes the session and forgets its SFTP subsystem. Tells whether
    /// there was a connection to drop.
    pub fn close(&mut self) -> (disconnect: bool)
        ensures
            disconnect == (old(self)@.state == SessionState::Connected),
            final(self)@ == closed_session(old(self)@),
    {
        let disconnect = match self.state {
            SessionState::Connected => true,
            _ => false,
        };
        self.state = SessionState::Closed;
        self.sftp_ready = false;
        disconnect
    }
}

/// The deadline of one command in seconds: the timeout given for the call,
/// where that is not 0.
pub fn execute_deadline(timeout: Option<u64>) -> (deadline: Option<u64>)
    ensures
        deadline == match timeout {
            Some(t) => if t > 0 {
                Some(t)
            } else {
                None
            },
            None => None,
        },
{
    match timeout {
        Some(t) => if t > 0 {
            Some(t)
        } else {
            None
        },
        None => None,
    }
}

/// The error of a connection attempt whose deadline passed.
pub fn connect_timed_out() -> (e: SessionError)
    ensures
        match e {
            SessionError::Timeout(m) => m@ == "Connection timed out"@,
            _ => false,
        },
{
    SessionError::Timeout(String::from_str("Connection timed out"))
}

/// The error of a command whose deadline passed.
pub fn command_timed_out() -> (e: SessionError)
    ensures
        match e {
            SessionError::Timeout(m) => m@ == "Command timed out"@,
            _ => false,
        },
{
    SessionError::Timeout(String::from_str("Command timed out"))
}

} // verus!
