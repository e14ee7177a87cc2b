//! Interactive shells: what is written for a `send`, the life cycle of a
//! shell, and the two-phase read of the asynchronous engine.

use vstd::prelude::*;
use vstd::string::*;
use crate::channel::gathered;
use crate::channel::msg_views;
use crate::channel::read_from_channel;
use crate::channel::reader_result;
use crate::channel::ChannelMsg;
use crate::channel::MsgView;
use crate::result::ResultView;
use crate::result::SSHResult;
use crate::session::SessionError;
use crate::text::ends_with;
use crate::text::ends_with_char;
use crate::text::lossy_text;
use crate::text::utf8_lossy;

verus! {

/// How long a read waits for the first data of a shell, in milliseconds.
pub const FIRST_PACKET_WAIT_MS: u64 = 2000;

/// How long a read waits for further data once some has come, in
/// milliseconds.
pub const IDLE_DRAIN_MS: u64 = 50;

/// What is written for a `send`: the data, with a newline after it where
/// one is wanted and the data does not end in one.
pub open spec fn payload_text(data: Seq<char>, add_newline: bool) -> Seq<char> {
    if add_newline && !ends_with_char(data, '\n') {
        data + "\n"@
    } else {
        data
    }
}

/// Whether a newline is to be added: yes, unless the caller says no.
pub open spec fn wants_newline(add_newline: Option<bool>) -> bool {
    match add_newline {
        Some(b) => b,
        None => true,
    }
}

/// The bytes to write for a `send`.
pub fn shell_payload(data: String, add_newline: Option<bool>) -> (payload: String)
    ensures
        payload@ == payload_text(data@, wants_newline(add_newline)),
{
    let add = match add_newline {
        Some(b) => b,
        None => true,
    };
    if add && !ends_with(data.as_str(), '\n') {
        let mut payload = data;
        payload.append("\n");
        payload
    } else {
        data
    }
}

/// Where a shell stands in its life.
#[derive(Clone, Copy, Debug, PartialEq, Eq, Structural)]
pub enum ShellState {
    /// The shell takes sends.
    Open,
    /// The shell has been read: its write side is at its end.
    ReadFinalized,
    /// The channel is closed.
    Closed,
}

/// The state of a shell as mathematical values.
pub struct ShellView {
    pub pty: bool,
    pub state: ShellState,
    pub result: Option<ResultView>,
}

/// A shell on a channel of a blocking session.
pub struct InteractiveShell {
    pty: bool,
    state: ShellState,
    result: Option<SSHResult>,
}

impl View for InteractiveShell {
    type V = ShellView;

    closed spec fn view(&self) -> ShellView {
        ShellView {
            pty: self.pty,
            state: self.state,
            result: match self.result {
                Some(r) => Some(r@),
                None => None,
            },
        }
    }
}

/// The state after a read.
pub open spec fn state_after_read(state: ShellState) -> ShellState {
    match state {
        ShellState::Open => ShellState::ReadFinalized,
        other => other,
    }
}

impl InteractiveShell {
    /// An open shell without a result.
    pub fn new(pty: bool) -> (s: InteractiveShell)
        ensures
            s@ == (ShellView { pty, state: ShellState::Open, result: None }),
    {
        InteractiveShell { pty, state: ShellState::Open, result: None }
    }

    /// Where the shell stands.
    pub fn state(&self) -> (s: ShellState)
        ensures
            s == self@.state,
    {
        self.state
    }

    /// The result that the scope exit stored.
    pub fn result(&self) -> (r: Option<SSHResult>)
        ensures
            match r {
                Some(x) => self@.result == Some(x@),
                None => self@.result.is_none(),
            },
    {
        match &self.result {
            Some(x) => Some(x.clone()),
            None => None,
        }
    }

    /// The bytes to write for a `send`. Only an open shell takes sends;
    /// after a read or a close the send is refused.
    pub fn send(&self, data: String, add_newline: Option<bool>) -> (r: Result<String, SessionError>)
        ensures
            self@.state == ShellState::Open ==> r.is_ok() && r.unwrap()@ == payload_text(
                data@,
                wants_newline(add_newline),
            ),
            self@.state != ShellState::Open ==> r.is_err() && match r.unwrap_err() {
                SessionError::Io(m) => m@ == "Shell is not open for sending"@,
                _ => false,
            },
    {
        match self.state {
            ShellState::Open => Ok(shell_payload(data, add_newline)),
            _ => Err(SessionError::Io(String::from_str("Shell is not open for sending"))),
        }
    }

    /// What the scope exit writes before it reads: `exit` and a newline for
    /// a shell with a pseudo-terminal that is still open, nothing otherwise.
    pub fn exit_command(&self) -> (command: Option<String>)
        ensures
            command.is_some() <==> self@.pty && self@.state == ShellState::Open,
            command.is_some() ==> command.unwrap()@ == "exit\n"@,
    {
        match self.state {
            ShellState::Open => if self.pty {
                Some(String::from_str("exit\n"))
            } else {
                None
            },
            _ => None,
        }
    }

    /// Reads the shell: the caller has flushed the channel, ended its write
    /// side and drained it into `msgs`. The shell takes no sends afterwards.
    pub fn read(&mut self, msgs: &Vec<ChannelMsg>) -> (r: SSHResult)
        ensures
            r@ == reader_result(gathered(msg_views(msgs@))),
            final(self)@ == (ShellView {
                state: state_after_read(old(self)@.state),
                ..old(self)@
            }),
    {
        match self.state {
            ShellState::Open => {
                self.state = ShellState::ReadFinalized;
            },
            _ => {},
        }
        read_from_channel(msgs)
    }

    /// Leaves the scope: reads the shell, stores the result and closes.
    pub fn exit(&mut self, msgs: &Vec<ChannelMsg>)
        ensures
            final(self)@ == (ShellView {
                state: ShellState::Closed,
                result: Some(reader_result(gathered(msg_views(msgs@)))),
                ..old(self)@
            }),
    {
        let r = self.read(msgs);
        self.result = Some(r);
        self.state = ShellState::Closed;
    }

    /// Closes the shell. Tells whether the channel has to be closed: not
    /// where it is closed already.
    pub fn close(&mut self) -> (close_channel: bool)
        ensures
            close_channel == (old(self)@.state != ShellState::Closed),
            final(self)@ == (ShellView { state: ShellState::Closed, ..old(self)@ }),
    {
        let close_channel = match self.state {
            ShellState::Closed => false,
            _ => true,
        };
        self.state = ShellState::Closed;
        close_channel
    }
}

/// What one wait on the channel of a shell gave.
#[derive(Debug)]
pub enum Poll {
    /// A message came in time.
    Message(ChannelMsg),
    /// The channel is closed.
    Closed,
    /// Nothing came in time.
    TimedOut,
}

/// The mathematical value of a `Poll`.
pub enum PollView {
    Message(MsgView),
    Closed,
    TimedOut,
}

impl View for Poll {
    type V = PollView;

    open spec fn view(&self) -> PollView {
        match self {
            Poll::Message(m) => PollView::Message(m@),
            Poll::Closed => PollView::Closed,
            Poll::TimedOut => PollView::TimedOut,
        }
    }
}

/// The phases of a read of an interactive shell.
#[derive(Clone, Copy, Debug, PartialEq, Eq, Structural)]
pub enum ReadPhase {
    /// No data has come yet: wait long.
    FirstPacket,
    /// Data has come: collect what follows closely.
    TailDrain,
    /// The read is over.
    Finished,
}

/// The state of a read as mathematical values.
pub struct ShellReadView {
    pub phase: ReadPhase,
    pub stdout: Seq<u8>,
    pub stderr: Seq<u8>,
}

/// How long to wait in a phase, in milliseconds; `None` once the read is
/// over.
pub open spec fn phase_wait(phase: ReadPhase) -> Option<u64> {
    match phase {
        ReadPhase::FirstPacket => Some(2000u64),
        ReadPhase::TailDrain => Some(50u64),
        ReadPhase::Finished => None,
    }
}

/// The state after one wait. Data of either stream is collected and starts
/// the tail drain; other messages are passed over; a closed channel or a
/// wait that ran out ends the read.
pub open spec fn after_poll(v: ShellReadView, poll: PollView) -> ShellReadView {
    if v.phase == ReadPhase::Finished {
        v
    } else {
        match poll {
            PollView::Message(MsgView::Data(d)) => ShellReadView {
                phase: ReadPhase::TailDrain,
                stdout: v.stdout + d,
                ..v
            },
            PollView::Message(MsgView::ExtendedData { ext, data }) => ShellReadView {
                phase: ReadPhase::TailDrain,
                stderr: v.stderr + data,
                ..v
            },
            PollView::Message(_) => v,
            PollView::Closed => ShellReadView { phase: ReadPhase::Finished, ..v },
            PollView::TimedOut => ShellReadView { phase: ReadPhase::Finished, ..v },
        }
    }
}

/// The result of a read: both streams decoded lossily, with status 0.
pub open spec fn shell_read_result(v: ShellReadView) -> ResultView {
    ResultView { stdout: utf8_lossy(v.stdout), stderr: utf8_lossy(v.stderr), status: 0 }
}

/// One read of an interactive shell of the asynchronous engine.
pub struct ShellReader {
    phase: ReadPhase,
    stdout: Vec<u8>,
    stderr: Vec<u8>,
}

impl View for ShellReader {
    type V = ShellReadView;

    closed spec fn view(&self) -> ShellReadView {
        ShellReadView { phase: self.phase, stdout: self.stdout@, stderr: self.stderr@ }
    }
}

impl ShellReader {
    /// A read that waits for its first data.
    pub fn new() -> (r: ShellReader)
        ensures
            r@ == (ShellReadView {
                phase: ReadPhase::FirstPacket,
                stdout: Seq::empty(),
                stderr: Seq::empty(),
            }),
    {
        ShellReader { phase: ReadPhase::FirstPacket, stdout: Vec::new(), stderr: Vec::new() }
    }

    /// How long the next wait may take, in milliseconds: 2000 for the first
    /// data, 50 for what follows; `None` once the read is over.
    pub fn next_wait(&self) -> (wait: Option<u64>)
        ensures
            wait == phase_wait(self@.phase),
    {
        match self.phase {
            ReadPhase::FirstPacket => Some(FIRST_PACKET_WAIT_MS),
            ReadPhase::TailDrain => Some(IDLE_DRAIN_MS),
            ReadPhase::Finished => None,
        }
    }

    /// Takes in what one wait gave.
    pub fn feed(&mut self, poll: &Poll)
        ensures
            final(self)@ == after_poll(old(self)@, poll@),
    {
        match self.phase {
            ReadPhase::Finished => {},
            _ => {
                match poll {
                    Poll::Message(ChannelMsg::Data(d)) => {
                        self.stdout.extend_from_slice(d.as_slice());
                        self.phase = ReadPhase::TailDrain;
                    },
                    Poll::Message(ChannelMsg::ExtendedData { ext, data }) => {
                        self.stderr.extend_from_slice(data.as_slice());
                        self.phase = ReadPhase::TailDrain;
                    },
                    Poll::Message(_) => {},
                    Poll::Closed => {
                        self.phase = ReadPhase::Finished;
                    },
                    Poll::TimedOut => {
                        self.phase = ReadPhase::Finished;
                    },
                }
            },
        }
        proof {
            let expected = after_poll(old(self)@, poll@);
            assert(self@.stdout =~= expected.stdout);
            assert(self@.stderr =~= expected.stderr);
        }
    }

    /// The result of the read.
    pub fn finish(&self) -> (r: SSHResult)
        ensures
            r@ == shell_read_result(self@),
            self@.stdout.len() == 0 ==> r@.stdout.len() == 0,
            self@.stderr.len() == 0 ==> r@.stderr.len() == 0,
    {
        let stdout = lossy_text(&self.stdout);
        let stderr = lossy_text(&self.stderr);
        proof {
            if self@.stdout.len() == 0 {
                assert(vstd::utf8::valid_utf8(self.stdout@));
                assert(vstd::utf8::decode_utf8(self.stdout@) =~= Seq::<char>::empty());
            }
            if self@.stderr.len() == 0 {
                assert(vstd::utf8::valid_utf8(self.stderr@));
                assert(vstd::utf8::decode_utf8(self.stderr@) =~= Seq::<char>::empty());
            }
        }
        SSHResult::new(stdout, stderr, 0)
    }
}

/// A shell on a channel of an asynchronous session.
pub struct AsyncInteractiveShell {
    closed: bool,
}

impl AsyncInteractiveShell {
    /// Whether the channel has been closed.
    pub closed spec fn is_closed(&self) -> bool {
        self.closed
    }

    /// An open shell.
    pub fn new() -> (s: AsyncInteractiveShell)
        ensures
            !s.is_closed(),
    {
        AsyncInteractiveShell { closed: false }
    }

    /// The bytes to write for a `send`; a closed shell refuses.
    pub fn send(&self, data: String, add_newline: Option<bool>) -> (r: Result<String, SessionError>)
        ensures
            !self.is_closed() ==> r.is_ok() && r.unwrap()@ == payload_text(
                data@,
                wants_newline(add_newline),
            ),
            self.is_closed() ==> r.is_err() && match r.unwrap_err() {
                SessionError::Io(m) => m@ == "Shell is not open for sending"@,
                _ => false,
            },
    {
        if self.closed {
            Err(SessionError::Io(String::from_str("Shell is not open for sending")))
        } else {
            Ok(shell_payload(data, add_newline))
        }
    }

    /// Starts a read: it waits for its first data.
    pub fn read(&self) -> (r: ShellReader)
        ensures
            r@ == (ShellReadView {
                phase: ReadPhase::FirstPacket,
                stdout: Seq::empty(),
                stderr: Seq::empty(),
            }),
    {
        ShellReader::new()
    }

    /// Closes the shell. Tells whether the channel has to be closed: not
    /// where it is closed already.
    pub fn close(&mut self) -> (close_channel: bool)
        ensures
            close_channel == !old(self).is_closed(),
            final(self).is_closed(),
    {
        let close_channel = !self.closed;
        self.closed = true;
        close_channel
    }
}

} // verus!
