use hussh::asynchronous::command_timed_out;
use hussh::asynchronous::connect_timed_out;
use hussh::asynchronous::default_key_file;
use hussh::asynchronous::execute_deadline;
use hussh::asynchronous::listed_default_key;
use hussh::asynchronous::search_default_keys;
use hussh::asynchronous::signature_hash;
use hussh::asynchronous::AsyncConnection;
use hussh::asynchronous::AuthAttempt;
use hussh::asynchronous::DefaultKeySearch;
use hussh::asynchronous::KeyAttempt;
use hussh::asynchronous::KeySearchStep;
use hussh::asynchronous::SignatureHash;
use hussh::paths::file_name;
use hussh::paths::next_finalize_step;
use hussh::paths::read_error;
use hussh::paths::scp_remote_path;
use hussh::paths::FinalizeStep;
use hussh::paths::ReadStage;
use hussh::session::choose_auth;
use hussh::session::connect_error;
use hussh::session::copy_buffer_len;
use hussh::session::download_reply;
use hussh::session::resolve_key_path;
use hussh::session::shell_pty;
use hussh::session::upload_target;
use hussh::session::AuthMethod;
use hussh::session::ConnectStage;
use hussh::session::Connection;
use hussh::session::SessionError;
use hussh::session::SessionState;
use hussh::session::MAX_BUFF_SIZE;
use hussh::session::SCP_FILE_MODE;
use hussh::text::ends_with;
use hussh::transfer::cat_command;
use hussh::transfer::decode_output;
use hussh::transfer::default_remote_path;
use hussh::transfer::execute_error;
use hussh::transfer::read_command;
use hussh::transfer::result_from_exit;
use hussh::transfer::transfer_outcome;
use hussh::transfer::write_command;
use hussh::transfer::write_command_for;
use hussh::transfer::PyAsyncConnection;

#[test]
fn connection_defaults() {
    let c = Connection::new("example.org", None, None, None, None, None);
    assert_eq!(c.get_host(), "example.org");
    assert_eq!(c.get_port(), 22);
    assert_eq!(c.get_username(), "root");
    assert_eq!(c.get_password(), "");
    assert_eq!(c.get_private_key(), "");
    assert_eq!(c.get_timeout(), 0);
    assert_eq!(c.state(), SessionState::Unconnected);
}

#[test]
fn connection_given_parameters() {
    let c = Connection::new("h", Some(2222), Some("ann"), Some("pw"), Some("/k"), Some(1500));
    assert_eq!(c.get_port(), 2222);
    assert_eq!(c.get_username(), "ann");
    assert_eq!(c.get_password(), "pw");
    assert_eq!(c.get_private_key(), "/k");
    assert_eq!(c.get_timeout(), 1500);
}

#[test]
fn connection_repr_hides_the_password() {
    let c = Connection::new("h.example", Some(2222), Some("ann"), Some("secret"), None, None);
    assert_eq!(c.repr(), "Connection(host=h.example, port=2222, username=ann, password=*****)");
    assert!(!c.repr().contains("secret"));
    let d = Connection::new("h", Some(-1), None, None, None, None);
    assert_eq!(d.repr(), "Connection(host=h, port=-1, username=root, password=*****)");
}

#[test]
fn connection_auth_order() {
    let key_and_pass = Connection::new("h", None, None, Some("pw"), Some("/keys/id"), None);
    assert!(matches!(
        key_and_pass.auth_method(),
        AuthMethod::KeyFile { path, passphrase: Some(p) } if path == "/keys/id" && p == "pw"
    ));
    let key_only = Connection::new("h", None, None, None, Some("/keys/id"), None);
    assert!(matches!(
        key_only.auth_method(),
        AuthMethod::KeyFile { path, passphrase: None } if path == "/keys/id"
    ));
    let pass_only = Connection::new("h", None, None, Some("pw"), None, None);
    assert!(matches!(pass_only.auth_method(), AuthMethod::Password { password } if password == "pw"));
    let nothing = Connection::new("h", None, None, None, None, None);
    assert!(matches!(nothing.auth_method(), AuthMethod::Agent));
    let empty = Connection::new("h", None, None, Some(""), Some(""), None);
    assert!(matches!(empty.auth_method(), AuthMethod::Agent));
    assert!(matches!(
        key_only.auth_method_for("/home/ann/id".to_string()),
        AuthMethod::KeyFile { path, passphrase: None } if path == "/home/ann/id"
    ));
}

#[test]
fn key_path_tilde_expansion() {
    assert_eq!(resolve_key_path("/abs/key"), "/abs/key");
    assert_eq!(resolve_key_path("rel/~key"), "rel/~key");
    assert_eq!(resolve_key_path("~other/key"), "~other/key");
    assert_eq!(resolve_key_path(""), "");
    let expanded = resolve_key_path("~/.ssh/id_rsa");
    assert!(expanded.ends_with("/.ssh/id_rsa"));
    assert_ne!(expanded, "~/.ssh/id_rsa");
    assert!(!expanded.starts_with('~'));
}

#[test]
fn choose_auth_takes_the_first_that_applies() {
    assert!(matches!(
        choose_auth(Some("k".to_string()), Some("p".to_string()), AuthMethod::DefaultKeys),
        AuthMethod::KeyFile { path, passphrase: Some(p) } if path == "k" && p == "p"
    ));
    assert!(matches!(
        choose_auth(None, Some("p".to_string()), AuthMethod::DefaultKeys),
        AuthMethod::Password { password } if password == "p"
    ));
    assert!(matches!(choose_auth(None, None, AuthMethod::DefaultKeys), AuthMethod::DefaultKeys));
    assert!(matches!(choose_auth(None, None, AuthMethod::Agent), AuthMethod::Agent));
}

#[test]
fn connection_life_cycle() {
    let mut c = Connection::new("h", None, None, None, None, None);
    assert!(matches!(c.require_connected(), Err(SessionError::NotConnected)));
    assert!(matches!(c.sftp(), Err(SessionError::NotConnected)));
    assert!(c.mark_connected());
    assert_eq!(c.state(), SessionState::Connected);
    assert!(c.require_connected().is_ok());
    assert!(matches!(c.sftp(), Ok(true)));
    assert!(matches!(c.sftp(), Ok(false)));
    assert!(c.close());
    assert_eq!(c.state(), SessionState::Closed);
    assert!(!c.close());
    assert_eq!(c.state(), SessionState::Closed);
    assert!(!c.mark_connected());
    assert_eq!(c.state(), SessionState::Closed);
    assert!(matches!(c.sftp(), Err(SessionError::NotConnected)));
}

#[test]
fn connection_close_before_connect() {
    let mut c = Connection::new("h", None, None, None, None, None);
    assert!(!c.close());
    assert_eq!(c.state(), SessionState::Closed);
}

#[test]
fn connection_execute_timeouts() {
    let c = Connection::new("h", None, None, None, None, Some(3000));
    let plan = c.execute_timeouts(Some(500));
    assert_eq!((plan.during, plan.restore), (500, 3000));
    let plan = c.execute_timeouts(None);
    assert_eq!((plan.during, plan.restore), (3000, 3000));
    let plan = c.execute_timeouts(Some(0));
    assert_eq!((plan.during, plan.restore), (0, 3000));
}

#[test]
fn connect_failures_are_classified() {
    assert!(matches!(connect_error(ConnectStage::Tcp, "refused".to_string()), SessionError::Timeout(m) if m == "refused"));
    assert!(matches!(connect_error(ConnectStage::Handshake, "kex".to_string()), SessionError::Timeout(m) if m == "kex"));
    assert!(matches!(
        connect_error(ConnectStage::Authentication, "denied".to_string()),
        SessionError::Authentication(m) if m == "denied"
    ));
}

#[test]
fn read_failures_name_their_stage() {
    assert!(matches!(read_error(ReadStage::Stdout, "x"), SessionError::Timeout(m) if m == "Timeout reading stdout: x"));
    assert!(matches!(read_error(ReadStage::Stderr, "x"), SessionError::Timeout(m) if m == "Timeout reading stderr: x"));
    assert!(matches!(
        read_error(ReadStage::WaitClose, "x"),
        SessionError::Timeout(m) if m == "Timeout waiting for channel to close: x"
    ));
    assert!(matches!(
        read_error(ReadStage::ExitStatus, "x"),
        SessionError::Timeout(m) if m == "Timeout getting exit status: x"
    ));
    assert!(matches!(
        read_error(ReadStage::OpenChannel, "x"),
        SessionError::Timeout(m) if m == "Timed out establishing channel session.\nx"
    ));
}

#[test]
fn streaming_constants() {
    assert_eq!(MAX_BUFF_SIZE, 65536);
    assert_eq!(SCP_FILE_MODE, 0o644);
    assert_eq!(copy_buffer_len(0), 0);
    assert_eq!(copy_buffer_len(10), 10);
    assert_eq!(copy_buffer_len(65535), 65535);
    assert_eq!(copy_buffer_len(65536), 65536);
    assert_eq!(copy_buffer_len(u64::MAX), 65536);
}

#[test]
fn transfer_replies_and_targets() {
    assert_eq!(download_reply(true, "text".to_string()), "Ok");
    assert_eq!(download_reply(false, "text".to_string()), "text");
    assert_eq!(upload_target("/a/b", None), "/a/b");
    assert_eq!(upload_target("/a/b", Some("/c".to_string())), "/c");
}

#[test]
fn pty_request_defaults() {
    let req = shell_pty(Some(true)).expect("a pty is wanted");
    assert_eq!((req.term.as_str(), req.width, req.height), ("xterm", 80, 24));
    assert!(shell_pty(Some(false)).is_none());
    assert!(shell_pty(None).is_none());
}

#[test]
fn scp_remote_path_rule() {
    assert!(matches!(scp_remote_path("/home/a/file.txt", "/tmp/".to_string()), Ok(p) if p == "/tmp/file.txt"));
    assert!(matches!(scp_remote_path("file.txt", "dir/".to_string()), Ok(p) if p == "dir/file.txt"));
    assert!(matches!(scp_remote_path("/home/a/file.txt", "/tmp/x".to_string()), Ok(p) if p == "/tmp/x"));
    assert!(matches!(scp_remote_path("/home/a/", "/tmp/x".to_string()), Ok(p) if p == "/tmp/x"));
    assert!(matches!(
        scp_remote_path("/home/a/", "/tmp/".to_string()),
        Err(SessionError::Io(m)) if m == "Invalid local path"
    ));
    assert!(matches!(scp_remote_path("..", "/tmp/".to_string()), Err(SessionError::Io(_))));
    assert!(matches!(scp_remote_path("", "/".to_string()), Err(SessionError::Io(_))));
}

#[test]
fn file_name_is_the_final_component() {
    assert_eq!(file_name("/a/b/c.txt"), Some("c.txt".to_string()));
    assert_eq!(file_name("c.txt"), Some("c.txt".to_string()));
    assert_eq!(file_name("/a/b/"), None);
    assert_eq!(file_name("/"), None);
    assert_eq!(file_name(""), None);
    assert_eq!(file_name("a/.."), None);
    assert_eq!(file_name("a/."), None);
    assert_eq!(file_name("a/..."), Some("...".to_string()));
    assert_eq!(file_name("a/.b"), Some(".b".to_string()));
    assert_eq!(file_name("dir/é.txt"), Some("é.txt".to_string()));
    assert!(ends_with("dir/", '/'));
    assert!(!ends_with("dir", '/'));
    assert!(!ends_with("", '/'));
}

#[test]
fn scp_finalization_handshake() {
    assert_eq!(next_finalize_step(0), Some(FinalizeStep::Flush));
    assert_eq!(next_finalize_step(1), Some(FinalizeStep::SendEof));
    assert_eq!(next_finalize_step(2), Some(FinalizeStep::WaitEof));
    assert_eq!(next_finalize_step(3), Some(FinalizeStep::Close));
    assert_eq!(next_finalize_step(4), Some(FinalizeStep::WaitClose));
    assert_eq!(next_finalize_step(5), None);
    assert_eq!(next_finalize_step(usize::MAX), None);
}

#[test]
fn async_connection_parameters() {
    let c = AsyncConnection::new("h".to_string(), None, None, None, 22, 0, 0);
    assert_eq!(c.get_host(), "h");
    assert_eq!(c.get_port(), 22);
    assert_eq!(c.login_name(), "root");
    assert_eq!(c.keepalive(), None);
    assert_eq!(c.connect_deadline(None), None);
    assert_eq!(c.connect_deadline(Some(5)), Some(5));
    assert_eq!(c.state(), SessionState::Unconnected);
    let d = AsyncConnection::new("h".to_string(), Some("ann".to_string()), None, None, 22, 15, 8);
    assert_eq!(d.login_name(), "ann");
    assert_eq!(d.keepalive(), Some(15));
    assert_eq!(d.connect_deadline(None), Some(8));
    assert_eq!(d.connect_deadline(Some(0)), None);
    let copy = d.clone();
    assert_eq!((copy.get_host(), copy.get_port(), copy.keepalive()), ("h".to_string(), 22, Some(15)));
}

#[test]
fn async_connection_from_blocking_truncates_the_port() {
    let c = Connection::new("h", Some(65536 + 22), None, None, None, None);
    assert_eq!(AsyncConnection::from_connection(&c, 0).get_port(), 22);
    let c = Connection::new("h", Some(-1), None, None, None, None);
    assert_eq!(AsyncConnection::from_connection(&c, 0).get_port(), 65535);
}

#[test]
fn async_connection_auth_order() {
    let both = AsyncConnection::new("h".to_string(), None, Some("pw".to_string()), Some("/k".to_string()), 22, 0, 0);
    assert!(matches!(
        both.auth_method(),
        AuthMethod::KeyFile { path, passphrase: Some(p) } if path == "/k" && p == "pw"
    ));
    let pass = AsyncConnection::new("h".to_string(), None, Some("pw".to_string()), None, 22, 0, 0);
    assert!(matches!(pass.auth_method(), AuthMethod::Password { password } if password == "pw"));
    let none = AsyncConnection::new("h".to_string(), None, None, None, 22, 0, 0);
    assert!(matches!(none.auth_method(), AuthMethod::DefaultKeys));
    let key = AsyncConnection::new("h".to_string(), None, None, Some("~/k".to_string()), 22, 0, 0);
    assert!(matches!(key.auth_method(), AuthMethod::KeyFile { path, passphrase: None } if path.ends_with("/k")));
    assert!(matches!(
        key.auth_method_for(None),
        AuthMethod::KeyFile { path, passphrase: None } if path == "~/k"
    ));
    assert!(matches!(none.auth_method_for(Some("/x".to_string())), AuthMethod::DefaultKeys));
}

#[test]
fn async_connection_auth_outcomes() {
    let explicit = AsyncConnection::new("h".to_string(), None, Some("pw".to_string()), None, 22, 0, 0);
    let implicit = AsyncConnection::new("h".to_string(), None, None, None, 22, 0, 0);
    assert!(explicit.auth_outcome(AuthAttempt::Accepted).is_ok());
    assert!(matches!(
        explicit.auth_outcome(AuthAttempt::Rejected),
        Err(SessionError::Authentication(m)) if m == "Authentication failed"
    ));
    assert!(matches!(
        implicit.auth_outcome(AuthAttempt::Rejected),
        Err(SessionError::Authentication(m)) if m == "Failed to authenticate with default SSH keys"
    ));
    assert!(matches!(
        implicit.auth_outcome(AuthAttempt::Errored("disconnected".to_string())),
        Err(SessionError::Authentication(m)) if m == "Authentication failed: disconnected"
    ));
}

#[test]
fn async_connection_life_cycle() {
    let mut c = AsyncConnection::new("h".to_string(), None, None, None, 22, 0, 0);
    assert!(matches!(c.require_connected(), Err(SessionError::NotConnected)));
    assert!(matches!(c.get_or_init_sftp(), Err(SessionError::NotConnected)));
    assert!(c.mark_connected());
    assert!(c.require_connected().is_ok());
    assert!(matches!(c.get_or_init_sftp(), Ok(true)));
    assert!(matches!(c.get_or_init_sftp(), Ok(false)));
    assert!(c.close());
    assert!(!c.close());
    assert_eq!(c.state(), SessionState::Closed);
    assert!(!c.mark_connected());
    assert!(matches!(c.require_connected(), Err(SessionError::NotConnected)));
}

#[test]
fn deadlines_and_their_errors() {
    assert_eq!(execute_deadline(None), None);
    assert_eq!(execute_deadline(Some(0)), None);
    assert_eq!(execute_deadline(Some(4)), Some(4));
    assert!(matches!(connect_timed_out(), SessionError::Timeout(m) if m == "Connection timed out"));
    assert!(matches!(command_timed_out(), SessionError::Timeout(m) if m == "Command timed out"));
}

#[test]
fn default_keys_in_order() {
    assert_eq!(listed_default_key(0), "~/.ssh/id_rsa");
    assert_eq!(listed_default_key(1), "~/.ssh/id_ed25519");
    assert_eq!(listed_default_key(2), "~/.ssh/id_ecdsa");
    assert_eq!(listed_default_key(3), "~/.ssh/id_dsa");
    assert!(default_key_file(1).ends_with("/.ssh/id_ed25519"));
}

#[test]
fn default_key_search_stops_at_the_first_accepted() {
    let (mut search, first) = DefaultKeySearch::start();
    assert_eq!(first, KeySearchStep::Try(0));
    assert_eq!(search.advance(KeyAttempt::Missing), KeySearchStep::Try(1));
    assert_eq!(search.advance(KeyAttempt::Unreadable), KeySearchStep::Try(2));
    assert_eq!(search.advance(KeyAttempt::Accepted), KeySearchStep::Authenticated);
    let (mut search, _) = DefaultKeySearch::start();
    assert_eq!(search.advance(KeyAttempt::Rejected), KeySearchStep::Try(1));
    assert_eq!(search.advance(KeyAttempt::Rejected), KeySearchStep::Try(2));
    assert_eq!(search.advance(KeyAttempt::Rejected), KeySearchStep::Try(3));
    assert_eq!(search.advance(KeyAttempt::Rejected), KeySearchStep::Exhausted);
    assert_eq!(search.advance(KeyAttempt::Missing), KeySearchStep::Exhausted);
}

#[test]
fn default_key_search_over_known_outcomes() {
    let (a, m, r, u) =
        (KeyAttempt::Accepted, KeyAttempt::Missing, KeyAttempt::Rejected, KeyAttempt::Unreadable);
    assert_eq!(search_default_keys(&vec![m, a, a, m]), Some(1));
    assert_eq!(search_default_keys(&vec![a]), Some(0));
    assert_eq!(search_default_keys(&vec![m, u, r, a]), Some(3));
    assert_eq!(search_default_keys(&vec![m, u, r, r]), None);
    assert_eq!(search_default_keys(&vec![m, m, m, m, a]), None);
    assert_eq!(search_default_keys(&Vec::new()), None);
}

#[test]
fn shell_transfer_commands() {
    assert_eq!(
        write_command("/tmp/d/f", &b"hello".to_vec()),
        "mkdir -p $(dirname /tmp/d/f) && echo 'aGVsbG8=' | base64 -d > /tmp/d/f"
    );
    assert_eq!(
        write_command("f", &Vec::new()),
        "mkdir -p $(dirname f) && echo '' | base64 -d > f"
    );
    assert_eq!(
        write_command_for("f", "QUJD"),
        "mkdir -p $(dirname f) && echo 'QUJD' | base64 -d > f"
    );
    assert_eq!(read_command("/etc/hosts"), "cat /etc/hosts | base64");
    assert_eq!(cat_command("/etc/my hosts"), "cat \"/etc/my hosts\"");
}

#[test]
fn shell_transfer_decoding() {
    assert!(matches!(decode_output("aGVsbG8="), Ok(b) if b == b"hello"));
    assert!(matches!(decode_output(""), Ok(b) if b.is_empty()));
    assert!(matches!(decode_output("/+8="), Ok(b) if b == vec![0xff, 0xef]));
    assert!(matches!(
        decode_output("not base64!"),
        Err(SessionError::Io(m)) if m.starts_with("Failed to decode base64: ")
    ));
    assert!(matches!(decode_output("aGVsbG8"), Err(SessionError::Io(_))));
}

#[test]
fn shell_transfer_outcomes() {
    assert!(transfer_outcome("scp_write", 0, "ignored").is_ok());
    assert!(matches!(
        transfer_outcome("scp_write_data", 1, "denied"),
        Err(SessionError::Io(m)) if m == "scp_write_data failed: denied"
    ));
    assert!(matches!(
        execute_error("read timeout elapsed"),
        SessionError::Timeout(m) if m == "Command execution timed out: read timeout elapsed"
    ));
    assert!(matches!(
        execute_error("broken pipe"),
        SessionError::Io(m) if m == "Command execution failed: broken pipe"
    ));
    let r = result_from_exit("o".to_string(), "e".to_string(), 2);
    assert_eq!((r.stdout.as_str(), r.stderr.as_str(), r.status), ("o", "e", 2));
    assert_eq!(result_from_exit(String::new(), String::new(), u32::MAX).status, -1);
    assert_eq!(default_remote_path("/a/b.txt", None), "b.txt");
    assert_eq!(default_remote_path("/a/b.txt", Some("/r".to_string())), "/r");
    assert_eq!(default_remote_path("/a/", None), "");
}

#[test]
fn shell_transfer_session_record() {
    let c = PyAsyncConnection::new("h".to_string(), None, None, Some("pw".to_string()), None, None);
    assert_eq!((c.port, c.username.as_str(), c.password_used.as_str(), c.timeout_ms), (22, "root", "****", 0));
    assert_eq!(
        c.repr(),
        "AsyncConnection(host=h, port=22, username=root, password_used=****, private_key_path=)"
    );
    let d = PyAsyncConnection::new(
        "h".to_string(),
        Some(2200),
        Some("ann".to_string()),
        Some(String::new()),
        Some("~/k".to_string()),
        Some(50),
    );
    assert_eq!(
        d.repr(),
        "AsyncConnection(host=h, port=2200, username=ann, password_used=, private_key_path=~/k)"
    );
}

#[test]
fn rsa_keys_sign_with_sha256() {
    assert_eq!(signature_hash(true), Some(SignatureHash::Sha256));
    assert_eq!(signature_hash(false), None);
}
