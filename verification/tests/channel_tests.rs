use hussh::channel::read_from_channel;
use hussh::channel::ChannelMsg;
use hussh::channel::ChannelReader;
use hussh::session::SessionError;
use hussh::shell::shell_payload;
use hussh::shell::AsyncInteractiveShell;
use hussh::shell::InteractiveShell;
use hussh::shell::Poll;
use hussh::shell::ShellReader;
use hussh::shell::ShellState;

fn data(s: &str) -> ChannelMsg {
    ChannelMsg::Data(s.as_bytes().to_vec())
}

fn ext(code: u32, s: &str) -> ChannelMsg {
    ChannelMsg::ExtendedData { ext: code, data: s.as_bytes().to_vec() }
}

#[test]
fn channel_happy_exec() {
    let r = read_from_channel(&vec![data("alice\n"), ChannelMsg::ExitStatus(0), ChannelMsg::Other]);
    assert_eq!((r.stdout.as_str(), r.stderr.as_str(), r.status), ("alice\n", "", 0));
}

#[test]
fn channel_gathers_both_streams_across_packets() {
    let r = read_from_channel(&vec![
        data("he"),
        ext(1, "warn"),
        ChannelMsg::Other,
        data("llo"),
        ext(2, "not stderr"),
        ext(1, "ing"),
        ChannelMsg::ExitStatus(3),
        data("!"),
    ]);
    assert_eq!((r.stdout.as_str(), r.stderr.as_str(), r.status), ("hello!", "warning", 3));
}

#[test]
fn channel_keeps_the_first_exit_status() {
    let r = read_from_channel(&vec![ChannelMsg::ExitStatus(7), ChannelMsg::ExitStatus(9)]);
    assert_eq!(r.status, 7);
}

#[test]
fn channel_without_exit_status_reports_zero() {
    let r = read_from_channel(&vec![data("x")]);
    assert_eq!(r.status, 0);
    let r = read_from_channel(&Vec::new());
    assert_eq!((r.stdout.as_str(), r.stderr.as_str(), r.status), ("", "", 0));
}

#[test]
fn channel_exit_status_is_taken_as_signed() {
    let r = read_from_channel(&vec![ChannelMsg::ExitStatus(255)]);
    assert_eq!(r.status, 255);
    let r = read_from_channel(&vec![ChannelMsg::ExitStatus(u32::MAX)]);
    assert_eq!(r.status, -1);
    let r = read_from_channel(&vec![ChannelMsg::ExitStatus(2147483648)]);
    assert_eq!(r.status, i32::MIN);
}

#[test]
fn channel_decodes_lossily() {
    let r = read_from_channel(&vec![
        ChannelMsg::Data(vec![0xe2, 0x82]),
        ChannelMsg::Data(vec![0xac, b'!']),
        ChannelMsg::ExtendedData { ext: 1, data: vec![0xff] },
    ]);
    assert_eq!(r.stdout, "\u{20ac}!");
    assert_eq!(r.stderr, "\u{fffd}");
}

#[test]
fn channel_reader_step_by_step() {
    let mut reader = ChannelReader::new();
    reader.feed(&data("a"));
    reader.feed(&ChannelMsg::ExitStatus(2));
    reader.feed(&ext(1, "e"));
    let r = reader.finish();
    assert_eq!((r.stdout.as_str(), r.stderr.as_str(), r.status), ("a", "e", 2));
}

#[test]
fn shell_payload_newline_rule() {
    assert_eq!(shell_payload("echo hi".to_string(), None), "echo hi\n");
    assert_eq!(shell_payload("echo hi".to_string(), Some(true)), "echo hi\n");
    assert_eq!(shell_payload("echo hi\n".to_string(), None), "echo hi\n");
    assert_eq!(shell_payload("echo hi".to_string(), Some(false)), "echo hi");
    assert_eq!(shell_payload(String::new(), None), "\n");
    assert_eq!(shell_payload(String::new(), Some(false)), "");
    assert_eq!(shell_payload("a\n\n".to_string(), Some(true)), "a\n\n");
}

#[test]
fn shell_interactive_pty_scope() {
    let mut shell = InteractiveShell::new(true);
    assert_eq!(shell.state(), ShellState::Open);
    assert!(shell.result().is_none());
    assert!(matches!(shell.send("echo hi".to_string(), None), Ok(p) if p == "echo hi\n"));
    assert_eq!(shell.exit_command(), Some("exit\n".to_string()));
    shell.exit(&vec![data("$ echo hi\r\nhi\r\n$ exit\r\n"), ChannelMsg::ExitStatus(0)]);
    assert_eq!(shell.state(), ShellState::Closed);
    let result = shell.result().expect("the scope stored a result");
    assert!(result.stdout.contains("hi"));
    assert_eq!(result.status, 0);
    assert_eq!(shell.exit_command(), None);
}

#[test]
fn shell_without_pty_writes_no_exit() {
    let shell = InteractiveShell::new(false);
    assert_eq!(shell.exit_command(), None);
}

#[test]
fn shell_takes_no_sends_after_read() {
    let mut shell = InteractiveShell::new(false);
    let r = shell.read(&vec![data("out"), ext(1, "err"), ChannelMsg::ExitStatus(4)]);
    assert_eq!((r.stdout.as_str(), r.stderr.as_str(), r.status), ("out", "err", 4));
    assert_eq!(shell.state(), ShellState::ReadFinalized);
    assert!(matches!(
        shell.send("ls".to_string(), None),
        Err(SessionError::Io(m)) if m == "Shell is not open for sending"
    ));
    assert!(shell.result().is_none());
    assert!(shell.close());
    assert_eq!(shell.state(), ShellState::Closed);
    assert!(!shell.close());
    assert!(shell.send("ls".to_string(), None).is_err());
}

#[test]
fn shell_reader_waits_long_then_short() {
    let mut r = ShellReader::new();
    assert_eq!(r.next_wait(), Some(2000));
    r.feed(&Poll::Message(ChannelMsg::Other));
    assert_eq!(r.next_wait(), Some(2000));
    r.feed(&Poll::Message(ChannelMsg::ExitStatus(5)));
    assert_eq!(r.next_wait(), Some(2000));
    r.feed(&Poll::Message(data("he")));
    assert_eq!(r.next_wait(), Some(50));
    r.feed(&Poll::Message(data("llo")));
    r.feed(&Poll::Message(ChannelMsg::Other));
    assert_eq!(r.next_wait(), Some(50));
    r.feed(&Poll::Message(ext(2, "any code")));
    r.feed(&Poll::TimedOut);
    assert_eq!(r.next_wait(), None);
    r.feed(&Poll::Message(data("late")));
    let result = r.finish();
    assert_eq!((result.stdout.as_str(), result.stderr.as_str(), result.status), ("hello", "any code", 0));
}

#[test]
fn shell_reader_first_wait_runs_out() {
    let mut r = ShellReader::new();
    r.feed(&Poll::TimedOut);
    assert_eq!(r.next_wait(), None);
    let result = r.finish();
    assert_eq!((result.stdout.as_str(), result.stderr.as_str(), result.status), ("", "", 0));
}

#[test]
fn shell_reader_closed_channel() {
    let mut r = ShellReader::new();
    r.feed(&Poll::Closed);
    assert_eq!(r.next_wait(), None);
    let mut r = ShellReader::new();
    r.feed(&Poll::Message(ext(1, "e")));
    assert_eq!(r.next_wait(), Some(50));
    r.feed(&Poll::Closed);
    assert_eq!(r.next_wait(), None);
    assert_eq!(r.finish().stderr, "e");
}

#[test]
fn async_shell_send_and_close() {
    let mut shell = AsyncInteractiveShell::new();
    assert!(matches!(shell.send("pwd".to_string(), None), Ok(p) if p == "pwd\n"));
    assert!(matches!(shell.send("pwd".to_string(), Some(false)), Ok(p) if p == "pwd"));
    assert_eq!(shell.read().next_wait(), Some(2000));
    assert!(shell.close());
    assert!(!shell.close());
    assert!(matches!(shell.send("pwd".to_string(), None), Err(SessionError::Io(_))));
}
