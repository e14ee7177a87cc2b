//! Tailing a remote file: the position from which its new bytes are read,
//! and the text captured between the entry into a scope and its exit.
//!
//! The caller fetches the file's size and bytes; the tailer keeps the
//! positions and cuts the text.

use vstd::prelude::*;
use vstd::slice::slice_subrange;
use vstd::string::*;
use vstd::utf8::decode_utf8;
use vstd::utf8::valid_utf8;
use crate::session::SessionError;
use crate::text::decode_lossy;
use crate::text::utf8_lossy;

verus! {

/// The state of a tailer as mathematical values.
pub struct TailerView {
    pub remote_file: Seq<char>,
    /// The position recorded at the first `seek_end` or on scope entry.
    pub init_pos: Option<nat>,
    /// The length of the file when it was last looked at.
    pub last_pos: nat,
    /// The text captured by the last scope, once it has been left.
    pub contents: Option<Seq<char>>,
}

/// The size that a stat reported, 0 where it reported none.
pub open spec fn reported_size(size: Option<u64>) -> nat {
    match size {
        Some(s) => s as nat,
        None => 0,
    }
}

/// The bytes of `file` from position `from` on; none where the file is
/// shorter than that.
pub open spec fn tail_bytes(file: Seq<u8>, from: nat) -> Seq<u8> {
    if from > file.len() {
        Seq::empty()
    } else {
        file.subrange(from as int, file.len() as int)
    }
}

/// The text of `file` from position `from` on, decoded lossily; empty where
/// the file is shorter than that.
pub open spec fn tail_text(file: Seq<u8>, from: nat) -> Seq<char> {
    if from > file.len() {
        Seq::empty()
    } else {
        utf8_lossy(tail_bytes(file, from))
    }
}

/// The state after `seek_end` on a file of the reported size.
pub open spec fn after_seek(v: TailerView, size: Option<u64>) -> TailerView {
    TailerView {
        last_pos: reported_size(size),
        init_pos: match v.init_pos {
            Some(p) => Some(p),
            None => Some(reported_size(size)),
        },
        ..v
    }
}

/// The position that a read starts from.
pub open spec fn read_start(v: TailerView, from_pos: Option<u64>) -> nat {
    match from_pos {
        Some(p) => p as nat,
        None => v.last_pos,
    }
}

/// The state after a read of a file with the given bytes.
pub open spec fn after_read(v: TailerView, file: Seq<u8>) -> TailerView {
    TailerView { last_pos: file.len(), ..v }
}

/// The position that the capture of a scope starts from: the one recorded
/// on entry, or the last position where none was recorded.
pub open spec fn capture_start(v: TailerView) -> nat {
    match v.init_pos {
        Some(p) => p,
        None => v.last_pos,
    }
}

/// The state after a scope was left while the file had the given bytes.
pub open spec fn after_exit(v: TailerView, file: Seq<u8>) -> TailerView {
    TailerView {
        last_pos: file.len(),
        contents: Some(tail_text(file, capture_start(v))),
        ..v
    }
}

/// A scope captures exactly what was appended while it was open: entered
/// on a file `before` and left on `before + appended`, a fresh tailer holds
/// the text of `appended`, however many writes produced it.
pub proof fn lemma_scope_captures_appended(
    v: TailerView,
    before: Seq<u8>,
    appended: Seq<u8>,
)
    requires
        v.init_pos.is_none(),
        before.len() <= u64::MAX,
    ensures
        after_exit(after_seek(v, Some(before.len() as u64)), before + appended).contents == Some(
            utf8_lossy(appended),
        ),
{
    let file = before + appended;
    assert(tail_bytes(file, before.len()) =~= appended);
}

/// A file that shrank below the starting position reads as empty, the range
/// read is empty, and the position falls back to the new length.
pub proof fn lemma_truncated_reads_empty(v: TailerView, file: Seq<u8>, from: nat)
    requires
        from > file.len(),
    ensures
        tail_text(file, from) == Seq::<char>::empty(),
        tail_bytes(file, from).len() == 0,
        after_read(v, file).last_pos == file.len(),
{
}

/// While the file does not shrink, the last position never moves back.
pub proof fn lemma_last_pos_monotonic(v: TailerView, file: Seq<u8>)
    requires
        file.len() >= v.last_pos,
    ensures
        after_read(v, file).last_pos >= v.last_pos,
        after_exit(v, file).last_pos >= v.last_pos,
{
}

/// The initial position is recorded once: a later `seek_end` keeps it.
pub proof fn lemma_init_pos_set_once(v: TailerView, first: Option<u64>, second: Option<u64>)
    ensures
        after_seek(v, first).init_pos.is_some(),
        after_seek(after_seek(v, first), second).init_pos == after_seek(v, first).init_pos,
{
}

/// Cuts the text of `file` from `from` on.
pub fn read_tail(file: &Vec<u8>, from: u64) -> (text: String)
    ensures
        text@ == tail_text(file@, from as nat),
        from <= file@.len() && valid_utf8(tail_bytes(file@, from as nat)) ==> text@ == decode_utf8(
            tail_bytes(file@, from as nat),
        ),
        from >= file@.len() ==> text@.len() == 0,
{
    let len = file.len();
    if from > len as u64 {
        String::new()
    } else {
        let tail = slice_subrange(file.as_slice(), from as usize, len);
        let text = decode_lossy(tail);
        proof {
            if from as nat == file@.len() {
                assert(tail@ =~= Seq::<u8>::empty());
                assert(valid_utf8(tail@));
                assert(decode_utf8(tail@) =~= Seq::<char>::empty());
            }
        }
        text
    }
}

/// Follows one remote file.
pub struct FileTailer {
    remote_file: String,
    init_pos: Option<u64>,
    last_pos: u64,
    contents: Option<String>,
}

impl View for FileTailer {
    type V = TailerView;

    closed spec fn view(&self) -> TailerView {
        TailerView {
            remote_file: self.remote_file@,
            init_pos: match self.init_pos {
                Some(p) => Some(p as nat),
                None => None,
            },
            last_pos: self.last_pos as nat,
            contents: match self.contents {
                Some(c) => Some(c@),
                None => None,
            },
        }
    }
}

impl Clone for FileTailer {
    fn clone(&self) -> (copy: FileTailer)
        ensures
            copy@ == self@,
    {
        FileTailer {
            remote_file: self.remote_file.clone(),
            init_pos: self.init_pos,
            last_pos: self.last_pos,
            contents: match &self.contents {
                Some(c) => Some(c.clone()),
                None => None,
            },
        }
    }
}

impl FileTailer {
    /// A tailer of `remote_file` that has read nothing yet.
    pub fn new(remote_file: String, init_pos: Option<u64>) -> (t: FileTailer)
        ensures
            t@ == (TailerView {
                remote_file: remote_file@,
                init_pos: match init_pos {
                    Some(p) => Some(p as nat),
                    None => None,
                },
                last_pos: 0,
                contents: None,
            }),
    {
        FileTailer { remote_file, init_pos, last_pos: 0, contents: None }
    }

    /// The path of the file.
    pub fn remote_file(&self) -> (path: &String)
        ensures
            path@ == self@.remote_file,
    {
        &self.remote_file
    }

    /// The position recorded at the first `seek_end` or on scope entry.
    pub fn init_pos(&self) -> (p: Option<u64>)
        ensures
            match p {
                Some(x) => self@.init_pos == Some(x as nat),
                None => self@.init_pos.is_none(),
            },
    {
        self.init_pos
    }

    /// The length of the file when it was last looked at.
    pub fn last_pos(&self) -> (p: u64)
        ensures
            p == self@.last_pos,
    {
        self.last_pos
    }

    /// The text captured by the last scope.
    pub fn contents(&self) -> (c: Option<String>)
        ensures
            match c {
                Some(t) => self@.contents == Some(t@),
                None => self@.contents.is_none(),
            },
    {
        match &self.contents {
            Some(t) => Some(t.clone()),
            None => None,
        }
    }

    /// Moves to the end of the file, whose size a stat reported. The first
    /// time, that size also becomes the initial position.
    pub fn seek_end(&mut self, size: Option<u64>) -> (end: u64)
        ensures
            end == reported_size(size),
            final(self)@ == after_seek(old(self)@, size),
    {
        let end = match size {
            Some(s) => s,
            None => 0,
        };
        self.last_pos = end;
        if self.init_pos.is_none() {
            self.init_pos = Some(end);
        }
        end
    }

    /// Reads the text of the file, whose bytes are `file`, from `from_pos`
    /// or else from the last position, and moves the last position to the
    /// end of the file. A file that has become shorter than the starting
    /// position reads as empty.
    pub fn read(&mut self, from_pos: Option<u64>, file: &Vec<u8>) -> (text: String)
        ensures
            text@ == tail_text(file@, read_start(old(self)@, from_pos)),
            final(self)@ == after_read(old(self)@, file@),
            read_start(old(self)@, from_pos) >= file@.len() ==> text@.len() == 0,
            read_start(old(self)@, from_pos) <= file@.len() && valid_utf8(
                tail_bytes(file@, read_start(old(self)@, from_pos)),
            ) ==> text@ == decode_utf8(tail_bytes(file@, read_start(old(self)@, from_pos))),
    {
        let from = match from_pos {
            Some(p) => p,
            None => self.last_pos,
        };
        let text = read_tail(file, from);
        self.last_pos = file.len() as u64;
        text
    }

    /// Enters a scope on a file of the reported size: records where the
    /// capture starts.
    pub fn enter(&mut self, size: Option<u64>) -> (end: u64)
        ensures
            end == reported_size(size),
            final(self)@ == after_seek(old(self)@, size),
    {
        self.seek_end(size)
    }

    /// Leaves a scope while the file has the bytes `file`: captures the
    /// text from the initial position to the end of the file.
    pub fn exit(&mut self, file: &Vec<u8>)
        ensures
            final(self)@ == after_exit(old(self)@, file@),
            capture_start(old(self)@) >= file@.len() ==> final(self)@.contents == Some(
                Seq::<char>::empty(),
            ),
    {
        let from = match self.init_pos {
            Some(p) => p,
            None => self.last_pos,
        };
        let text = read_tail(file, from);
        self.last_pos = file.len() as u64;
        proof {
            if capture_start(old(self)@) >= file@.len() {
                assert(text@ =~= Seq::<char>::empty());
            }
        }
        self.contents = Some(text);
    }
}

/// A tailer of the asynchronous engine: it reads only once its SFTP
/// subsystem has been opened.
pub struct AsyncFileTailer {
    tailer: FileTailer,
    sftp_ready: bool,
}

impl Clone for AsyncFileTailer {
    fn clone(&self) -> (copy: AsyncFileTailer)
        ensures
            copy.tailer() == self.tailer(),
            copy.ready() == self.ready(),
    {
        AsyncFileTailer { tailer: self.tailer.clone(), sftp_ready: self.sftp_ready }
    }
}

impl AsyncFileTailer {
    /// The positions and the captured text.
    pub closed spec fn tailer(&self) -> TailerView {
        self.tailer@
    }

    /// Whether the SFTP subsystem has been opened.
    pub closed spec fn ready(&self) -> bool {
        self.sftp_ready
    }

    /// A tailer of `remote_file` without an SFTP subsystem yet.
    pub fn new(remote_file: String) -> (t: AsyncFileTailer)
        ensures
            !t.ready(),
            t.tailer() == (TailerView {
                remote_file: remote_file@,
                init_pos: None,
                last_pos: 0,
                contents: None,
            }),
    {
        AsyncFileTailer { tailer: FileTailer::new(remote_file, None), sftp_ready: false }
    }

    /// The path of the file.
    pub fn remote_file(&self) -> (path: &String)
        ensures
            path@ == self.tailer().remote_file,
    {
        self.tailer.remote_file()
    }

    /// Whether the SFTP subsystem has been opened.
    pub fn is_ready(&self) -> (r: bool)
        ensures
            r == self.ready(),
    {
        self.sftp_ready
    }

    /// The text captured by the last scope.
    pub fn contents(&self) -> (c: Option<String>)
        ensures
            match c {
                Some(t) => self.tailer().contents == Some(t@),
                None => self.tailer().contents.is_none(),
            },
    {
        self.tailer.contents()
    }

    /// Moves to the end of the file. Fails where the SFTP subsystem has not
    /// been opened.
    pub fn seek_end(&mut self, size: Option<u64>) -> (r: Result<u64, SessionError>)
        ensures
            final(self).ready() == old(self).ready(),
            old(self).ready() ==> r == Ok::<u64, SessionError>(reported_size(size) as u64)
                && final(self).tailer() == after_seek(old(self).tailer(), size),
            !old(self).ready() ==> r == Err::<u64, SessionError>(SessionError::NotConnected)
                && final(self).tailer() == old(self).tailer(),
    {
        if self.sftp_ready {
            Ok(self.tailer.seek_end(size))
        } else {
            Err(SessionError::NotConnected)
        }
    }

    /// Reads the new text of the file. Fails where the SFTP subsystem has
    /// not been opened.
    pub fn read(&mut self, from_pos: Option<u64>, file: &Vec<u8>) -> (r: Result<
        String,
        SessionError,
    >)
        ensures
            final(self).ready() == old(self).ready(),
            old(self).ready() ==> r.is_ok() && r.unwrap()@ == tail_text(
                file@,
                read_start(old(self).tailer(), from_pos),
            ) && final(self).tailer() == after_read(old(self).tailer(), file@),
            !old(self).ready() ==> r == Err::<String, SessionError>(SessionError::NotConnected)
                && final(self).tailer() == old(self).tailer(),
    {
        if self.sftp_ready {
            Ok(self.tailer.read(from_pos, file))
        } else {
            Err(SessionError::NotConnected)
        }
    }

    /// Enters a scope: the SFTP subsystem is open from now on, and the
    /// capture starts at the reported size.
    pub fn enter(&mut self, size: Option<u64>) -> (end: u64)
        ensures
            final(self).ready(),
            end == reported_size(size),
            final(self).tailer() == after_seek(old(self).tailer(), size),
    {
        self.sftp_ready = true;
        self.tailer.seek_end(size)
    }

    /// Leaves a scope: captures the text from the initial position to the
    /// end of the file. Without an SFTP subsystem nothing is captured.
    pub fn exit(&mut self, file: &Vec<u8>)
        ensures
            final(self).ready() == old(self).ready(),
            old(self).ready() ==> final(self).tailer() == after_exit(old(self).tailer(), file@),
            !old(self).ready() ==> final(self).tailer() == old(self).tailer(),
    {
        if self.sftp_ready {
            self.tailer.exit(file);
        }
    }
}

} // verus!
