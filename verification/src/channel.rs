//! Draining a channel into a result: output data, error data and the exit
//! status are picked out of the messages that the channel yields.

use vstd::prelude::*;
use vstd::string::*;
use crate::result::ResultView;
use crate::result::SSHResult;
use crate::text::lossy_text;
use crate::text::utf8_lossy;

verus! {

/// The extended-data code of the error stream.
pub const STDERR_CODE: u32 = 1;

/// One message of a channel, as far as a reader tells them apart.
#[derive(Debug)]
pub enum ChannelMsg {
    /// Bytes of the output stream.
    Data(Vec<u8>),
    /// Bytes of an extended stream; code 1 is the error stream.
    ExtendedData { ext: u32, data: Vec<u8> },
    /// The exit status of the remote process.
    ExitStatus(u32),
    /// Any other message.
    Other,
}

/// The mathematical value of a `ChannelMsg`.
pub enum MsgView {
    Data(Seq<u8>),
    ExtendedData { ext: u32, data: Seq<u8> },
    ExitStatus(u32),
    Other,
}

impl View for ChannelMsg {
    type V = MsgView;

    open spec fn view(&self) -> MsgView {
        match self {
            ChannelMsg::Data(d) => MsgView::Data(d@),
            ChannelMsg::ExtendedData { ext, data } => MsgView::ExtendedData {
                ext: *ext,
                data: data@,
            },
            ChannelMsg::ExitStatus(s) => MsgView::ExitStatus(*s),
            ChannelMsg::Other => MsgView::Other,
        }
    }
}

/// The messages as mathematical values.
pub open spec fn msg_views(msgs: Seq<ChannelMsg>) -> Seq<MsgView> {
    Seq::new(msgs.len(), |i: int| msgs[i]@)
}

/// The bytes that a message adds to the output stream.
pub open spec fn stdout_part(m: MsgView) -> Seq<u8> {
    match m {
        MsgView::Data(d) => d,
        _ => Seq::empty(),
    }
}

/// The bytes that a message adds to the error stream.
pub open spec fn stderr_part(m: MsgView) -> Seq<u8> {
    match m {
        MsgView::ExtendedData { ext, data } => if ext == 1 {
            data
        } else {
            Seq::empty()
        },
        _ => Seq::empty(),
    }
}

/// The whole output stream of a run of messages.
pub open spec fn stdout_stream(msgs: Seq<MsgView>) -> Seq<u8>
    decreases msgs.len(),
{
    if msgs.len() == 0 {
        Seq::empty()
    } else {
        stdout_stream(msgs.drop_last()) + stdout_part(msgs.last())
    }
}

/// The whole error stream of a run of messages.
pub open spec fn stderr_stream(msgs: Seq<MsgView>) -> Seq<u8>
    decreases msgs.len(),
{
    if msgs.len() == 0 {
        Seq::empty()
    } else {
        stderr_stream(msgs.drop_last()) + stderr_part(msgs.last())
    }
}

/// The first exit status among the messages, if there is one.
pub open spec fn first_exit(msgs: Seq<MsgView>) -> Option<u32>
    decreases msgs.len(),
{
    if msgs.len() == 0 {
        None
    } else {
        match first_exit(msgs.drop_last()) {
            Some(s) => Some(s),
            None => match msgs.last() {
                MsgView::ExitStatus(s) => Some(s),
                _ => None,
            },
        }
    }
}

/// What a reader has gathered, as mathematical values.
pub struct ReaderView {
    pub stdout: Seq<u8>,
    pub stderr: Seq<u8>,
    pub exit_status: Option<u32>,
}

/// What a reader holds after the given messages.
pub open spec fn gathered(msgs: Seq<MsgView>) -> ReaderView {
    ReaderView {
        stdout: stdout_stream(msgs),
        stderr: stderr_stream(msgs),
        exit_status: first_exit(msgs),
    }
}

/// What a reader holds after one more message.
pub open spec fn after_msg(v: ReaderView, m: MsgView) -> ReaderView {
    ReaderView {
        stdout: v.stdout + stdout_part(m),
        stderr: v.stderr + stderr_part(m),
        exit_status: match v.exit_status {
            Some(s) => Some(s),
            None => match m {
                MsgView::ExitStatus(s) => Some(s),
                _ => None,
            },
        },
    }
}

/// The result that the gathered streams and status make: both streams
/// decoded lossily, and the exit status that was reported, 0 where none was.
pub open spec fn reader_result(v: ReaderView) -> ResultView {
    ResultView {
        stdout: utf8_lossy(v.stdout),
        stderr: utf8_lossy(v.stderr),
        status: match v.exit_status {
            Some(s) => (s as i32) as int,
            None => 0,
        },
    }
}

/// What was gathered does not depend on how the output arrived: two runs of
/// messages, one after the other, give the streams of the first followed by
/// those of the second, and the first exit status of the two.
pub proof fn lemma_gathered_concat(a: Seq<MsgView>, b: Seq<MsgView>)
    ensures
        stdout_stream(a + b) == stdout_stream(a) + stdout_stream(b),
        stderr_stream(a + b) == stderr_stream(a) + stderr_stream(b),
        first_exit(a + b) == match first_exit(a) {
            Some(s) => Some(s),
            None => first_exit(b),
        },
    decreases b.len(),
{
    if b.len() == 0 {
        assert(a + b =~= a);
        assert(stdout_stream(a) + stdout_stream(b) =~= stdout_stream(a));
        assert(stderr_stream(a) + stderr_stream(b) =~= stderr_stream(a));
    } else {
        lemma_gathered_concat(a, b.drop_last());
        assert((a + b).drop_last() =~= a + b.drop_last());
        assert((a + b).last() == b.last());
        assert(stdout_stream(a + b) =~= stdout_stream(a) + stdout_stream(b));
        assert(stderr_stream(a + b) =~= stderr_stream(a) + stderr_stream(b));
    }
}

/// Gathers the messages of one channel.
pub struct ChannelReader {
    stdout: Vec<u8>,
    stderr: Vec<u8>,
    exit_status: Option<u32>,
}

impl View for ChannelReader {
    type V = ReaderView;

    closed spec fn view(&self) -> ReaderView {
        ReaderView { stdout: self.stdout@, stderr: self.stderr@, exit_status: self.exit_status }
    }
}

impl ChannelReader {
    /// A reader that has gathered nothing.
    pub fn new() -> (r: ChannelReader)
        ensures
            r@ == gathered(Seq::empty()),
    {
        ChannelReader { stdout: Vec::new(), stderr: Vec::new(), exit_status: None }
    }

    /// Takes in one message: output data, error data (extended data with
    /// code 1) or the first exit status; anything else is ignored.
    pub fn feed(&mut self, msg: &ChannelMsg)
        ensures
            final(self)@ == after_msg(old(self)@, msg@),
    {
        match msg {
            ChannelMsg::Data(d) => {
                self.stdout.extend_from_slice(d.as_slice());
            },
            ChannelMsg::ExtendedData { ext, data } => {
                if *ext == STDERR_CODE {
                    self.stderr.extend_from_slice(data.as_slice());
                }
            },
            ChannelMsg::ExitStatus(s) => {
                if self.exit_status.is_none() {
                    self.exit_status = Some(*s);
                }
            },
            ChannelMsg::Other => {},
        }
        proof {
            let expected = after_msg(old(self)@, msg@);
            assert(self@.stdout =~= expected.stdout);
            assert(self@.stderr =~= expected.stderr);
        }
    }

    /// The result of what was gathered.
    pub fn finish(&self) -> (r: SSHResult)
        ensures
            r@ == reader_result(self@),
    {
        let status = match self.exit_status {
            Some(s) => #[verifier::truncate]
            (s as i32),
            None => 0,
        };
        SSHResult::new(lossy_text(&self.stdout), lossy_text(&self.stderr), status)
    }
}

/// Drains a channel that has reached its end: the result of all its
/// messages, in the order in which they came.
pub fn read_from_channel(msgs: &Vec<ChannelMsg>) -> (r: SSHResult)
    ensures
        r@ == reader_result(gathered(msg_views(msgs@))),
{
    let mut reader = ChannelReader::new();
    let mut i: usize = 0;
    let ghost all = msg_views(msgs@);
    assert(all.take(0) =~= Seq::<MsgView>::empty());
    while i < msgs.len()
        invariant
            i <= msgs.len(),
            all == msg_views(msgs@),
            reader@ == gathered(all.take(i as int)),
        decreases msgs.len() - i,
    {
        proof {
            let next = all.take(i as int + 1);
            assert(next.drop_last() =~= all.take(i as int));
            assert(next.last() == msgs@[i as int]@);
        }
        reader.feed(&msgs[i]);
        i += 1;
    }
    assert(all.take(i as int) =~= all);
    reader.finish()
}

} // verus!
