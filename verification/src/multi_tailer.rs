//! Tailing one file per host: the tailers of a scope, what each host's read
//! becomes, and the texts captured when the scope is left.

use vstd::prelude::*;
use vstd::string::*;
use crate::host_texts::HostTexts;
use crate::scheduler::Scheduler;
use crate::scheduler::SchedulerView;
use crate::session::SessionError;
use crate::tailer::after_exit;
use crate::tailer::after_read;
use crate::tailer::after_seek;
use crate::tailer::read_start;
use crate::tailer::reported_size;
use crate::tailer::tail_text;
use crate::tailer::AsyncFileTailer;
use crate::tailer::TailerView;

verus! {

/// What the caller reports of one host's tailer task.
#[derive(Debug)]
pub enum TailerReport {
    /// The task succeeded; for a read this is the text that was read.
    Done(String),
    /// The task failed with this error text.
    Failed(String),
    /// The task was torn down before it could report.
    Panicked(String),
}

/// The mathematical value of a `TailerReport`.
pub enum TailerReportView {
    Done(Seq<char>),
    Failed(Seq<char>),
    Panicked(Seq<char>),
}

impl View for TailerReport {
    type V = TailerReportView;

    open spec fn view(&self) -> TailerReportView {
        match self {
            TailerReport::Done(t) => TailerReportView::Done(t@),
            TailerReport::Failed(m) => TailerReportView::Failed(m@),
            TailerReport::Panicked(m) => TailerReportView::Panicked(m@),
        }
    }
}

/// The failures that end a multi-host tailer operation.
#[derive(Debug)]
pub enum TailerError {
    /// The tailer of `host` could not be initialized.
    Init { host: String, message: String },
    /// A task was torn down while the tailers were initialized.
    InitPanic { message: String },
    /// A task was torn down during a read.
    ReadPanic { message: String },
}

/// The mathematical value of a `TailerError`.
pub enum TailerErrorView {
    Init { host: Seq<char>, message: Seq<char> },
    InitPanic { message: Seq<char> },
    ReadPanic { message: Seq<char> },
}

impl View for TailerError {
    type V = TailerErrorView;

    open spec fn view(&self) -> TailerErrorView {
        match self {
            TailerError::Init { host, message } => TailerErrorView::Init {
                host: host@,
                message: message@,
            },
            TailerError::InitPanic { message } => TailerErrorView::InitPanic { message: message@ },
            TailerError::ReadPanic { message } => TailerErrorView::ReadPanic { message: message@ },
        }
    }
}

/// The text of a `TailerError`.
pub open spec fn tailer_error_text(e: TailerErrorView) -> Seq<char> {
    match e {
        TailerErrorView::Init { host, message } => "Failed to initialize tailer for "@ + host
            + ": "@ + message,
        TailerErrorView::InitPanic { message } => "Task panic during tailer initialization: "@
            + message,
        TailerErrorView::ReadPanic { message } => "Task panic during file tailing: "@ + message,
    }
}

impl TailerError {
    /// The text of the error.
    pub fn message(&self) -> (text: String)
        ensures
            text@ == tailer_error_text(self@),
    {
        match self {
            TailerError::Init { host, message } => {
                let mut text = String::from_str("Failed to initialize tailer for ");
                text.append(host.as_str());
                text.append(": ");
                text.append(message.as_str());
                text
            },
            TailerError::InitPanic { message } => {
                let mut text = String::from_str("Task panic during tailer initialization: ");
                text.append(message.as_str());
                text
            },
            TailerError::ReadPanic { message } => {
                let mut text = String::from_str("Task panic during file tailing: ");
                text.append(message.as_str());
                text
            },
        }
    }
}

/// The text that stands for a host whose read failed.
pub open spec fn host_error_text(message: Seq<char>) -> Seq<char> {
    "Error: "@ + message
}

/// What a host's entry becomes after its report: the text that was read,
/// the error text of a failure, or nothing for a task that was torn down.
pub open spec fn report_entry(report: TailerReportView) -> Option<Seq<char>> {
    match report {
        TailerReportView::Done(t) => Some(t),
        TailerReportView::Failed(m) => Some(host_error_text(m)),
        TailerReportView::Panicked(_) => None,
    }
}

/// What the report of an initialization means: a failure of any host, or a
/// torn-down task, ends the entry into the scope.
pub open spec fn enter_failure(host: Seq<char>, report: TailerReportView) -> Option<
    TailerErrorView,
> {
    match report {
        TailerReportView::Done(_) => None,
        TailerReportView::Failed(m) => Some(TailerErrorView::Init { host, message: m }),
        TailerReportView::Panicked(m) => Some(TailerErrorView::InitPanic { message: m }),
    }
}

/// The text `Error: <message>`.
pub fn host_error(message: &str) -> (text: String)
    ensures
        text@ == host_error_text(message@),
{
    let mut text = String::from_str("Error: ");
    text.append(message);
    text
}

/// Judges the report of one host's initialization.
pub fn check_enter(host: &str, report: TailerReport) -> (r: Result<(), TailerError>)
    ensures
        match r {
            Ok(_) => enter_failure(host@, report@).is_none(),
            Err(e) => enter_failure(host@, report@) == Some(e@),
        },
{
    match report {
        TailerReport::Done(_) => Ok(()),
        TailerReport::Failed(m) => Err(
            TailerError::Init { host: String::from_str(host), message: m },
        ),
        TailerReport::Panicked(m) => Err(TailerError::InitPanic { message: m }),
    }
}

/// Takes the report of one host's read into the texts gathered so far. A
/// failure becomes that host's text, as `Error: <message>`; a torn-down
/// task ends the read.
pub fn collect_read(texts: &mut HostTexts, host: &str, report: TailerReport) -> (r: Result<
    (),
    TailerError,
>)
    requires
        old(texts).wf(),
    ensures
        final(texts).wf(),
        match report@ {
            TailerReportView::Panicked(m) => r.is_err() && r.unwrap_err()@
                == (TailerErrorView::ReadPanic { message: m }) && final(texts)@ == old(texts)@,
            other => r.is_ok() && final(texts)@ == old(texts)@.insert(
                host@,
                report_entry(other).unwrap(),
            ),
        },
{
    match report {
        TailerReport::Done(t) => {
            texts.insert(String::from_str(host), t);
            Ok(())
        },
        TailerReport::Failed(m) => {
            texts.insert(String::from_str(host), host_error(m.as_str()));
            Ok(())
        },
        TailerReport::Panicked(m) => Err(TailerError::ReadPanic { message: m }),
    }
}

/// The state of a multi-host tailer as mathematical values.
pub struct MultiTailerView {
    pub hosts: Seq<Seq<char>>,
    pub files: Seq<Seq<char>>,
    pub batch_size: nat,
    pub contents: Map<Seq<char>, Seq<char>>,
}

/// One tailer per host, with the texts captured by the last scope.
pub struct MultiFileTailer {
    hosts: Vec<String>,
    tailers: Vec<AsyncFileTailer>,
    contents: HostTexts,
    batch_size: usize,
}

impl View for MultiFileTailer {
    type V = MultiTailerView;

    closed spec fn view(&self) -> MultiTailerView {
        MultiTailerView {
            hosts: Seq::new(self.hosts@.len(), |i: int| self.hosts@[i]@),
            files: Seq::new(self.tailers@.len(), |i: int| self.tailers@[i].tailer().remote_file),
            batch_size: self.batch_size as nat,
            contents: self.contents@,
        }
    }
}

impl MultiFileTailer {
    /// Hosts and tailers are aligned, and at least one task may run at a
    /// time.
    pub closed spec fn wf(&self) -> bool {
        self.hosts@.len() == self.tailers@.len() && self.batch_size >= 1 && self.contents.wf()
    }

    /// The positions of the tailer with the given index.
    pub closed spec fn tailer(&self, index: int) -> TailerView {
        self.tailers@[index].tailer()
    }

    /// Whether the tailer with the given index has its SFTP subsystem.
    pub closed spec fn ready(&self, index: int) -> bool {
        self.tailers@[index].ready()
    }

    /// A tailer for each host on the file at the same index. Nothing has
    /// been captured yet.
    pub fn new(hosts: Vec<String>, files: Vec<String>, batch_size: usize) -> (t: MultiFileTailer)
        requires
            hosts@.len() == files@.len(),
            batch_size >= 1,
        ensures
            t.wf(),
            t@ == (MultiTailerView {
                hosts: Seq::new(hosts@.len(), |i: int| hosts@[i]@),
                files: Seq::new(files@.len(), |i: int| files@[i]@),
                batch_size: batch_size as nat,
                contents: Map::empty(),
            }),
            forall|i: int|
                0 <= i < hosts@.len() ==> !t.ready(i) && #[trigger] t.tailer(i) == (TailerView {
                    remote_file: files@[i]@,
                    init_pos: None,
                    last_pos: 0,
                    contents: None,
                }),
    {
        let mut tailers: Vec<AsyncFileTailer> = Vec::new();
        let mut i: usize = 0;
        while i < files.len()
            invariant
                i <= files.len(),
                tailers@.len() == i,
                forall|k: int|
                    0 <= k < i ==> !(#[trigger] tailers@[k]).ready() && tailers@[k].tailer() == (
                    TailerView {
                        remote_file: files@[k]@,
                        init_pos: None,
                        last_pos: 0,
                        contents: None,
                    }),
            decreases files.len() - i,
        {
            tailers.push(AsyncFileTailer::new(files[i].clone()));
            i += 1;
        }
        let t = MultiFileTailer { hosts, tailers, contents: HostTexts::empty(), batch_size };
        assert(t@.files =~= Seq::new(files@.len(), |i: int| files@[i]@));
        t
    }

    /// The number of tailers.
    pub fn len(&self) -> (n: usize)
        requires
            self.wf(),
        ensures
            n == self@.hosts.len(),
    {
        self.hosts.len()
    }

    /// The host with the given index.
    pub fn host(&self, index: usize) -> (h: Option<&String>)
        requires
            self.wf(),
        ensures
            index < self@.hosts.len() ==> h.is_some() && h.unwrap()@ == self@.hosts[index as int],
            index >= self@.hosts.len() ==> h.is_none(),
    {
        if index < self.hosts.len() {
            Some(&self.hosts[index])
        } else {
            None
        }
    }

    /// The file that the tailer with the given index follows.
    pub fn remote_file(&self, index: usize) -> (f: Option<&String>)
        requires
            self.wf(),
        ensures
            index < self@.files.len() ==> f.is_some() && f.unwrap()@ == self@.files[index as int],
            index >= self@.files.len() ==> f.is_none(),
    {
        if index < self.tailers.len() {
            Some(self.tailers[index].remote_file())
        } else {
            None
        }
    }

    /// A schedule for one task per tailer under the batch size.
    pub fn schedule(&self) -> (s: Scheduler)
        requires
            self.wf(),
        ensures
            s.wf(),
            s@ == (SchedulerView {
                total: self@.hosts.len(),
                batch_size: self@.batch_size,
                started: 0,
                running: Seq::empty(),
                halted: false,
            }),
    {
        Scheduler::new(self.tailers.len(), self.batch_size)
    }

    /// The texts captured by the last scope.
    pub fn contents(&self) -> (texts: &HostTexts)
        requires
            self.wf(),
        ensures
            texts.wf(),
            texts@ == self@.contents,
    {
        &self.contents
    }

    /// Enters the scope on the host with the given index, whose file has
    /// the reported size: its SFTP subsystem is open from now on and its
    /// capture starts there. An index without a tailer changes nothing.
    pub fn enter_host(&mut self, index: usize, size: Option<u64>) -> (end: Option<u64>)
        requires
            old(self).wf(),
        ensures
            final(self).wf(),
            final(self)@ == old(self)@,
            index < old(self)@.hosts.len() ==> end == Some(reported_size(size) as u64)
                && final(self).ready(index as int) && final(self).tailer(index as int)
                == after_seek(old(self).tailer(index as int), size),
            index >= old(self)@.hosts.len() ==> end.is_none(),
            forall|j: int|
                0 <= j < old(self)@.hosts.len() && j != index ==> #[trigger] final(self).tailer(j)
                    == old(self).tailer(j) && final(self).ready(j) == old(self).ready(j),
    {
        if index < self.tailers.len() {
            let mut t = self.tailers[index].clone();
            let end = t.enter(size);
            self.tailers[index] = t;
            assert(self@.files =~= old(self)@.files);
            Some(end)
        } else {
            None
        }
    }

    /// Reads the new text on the host with the given index, whose file has
    /// the bytes `file`. Fails where that tailer has no SFTP subsystem;
    /// `None` for an index without a tailer.
    pub fn read_host(&mut self, index: usize, from_pos: Option<u64>, file: &Vec<u8>) -> (r: Option<
        Result<String, SessionError>,
    >)
        requires
            old(self).wf(),
        ensures
            final(self).wf(),
            final(self)@ == old(self)@,
            index >= old(self)@.hosts.len() ==> r.is_none(),
            index < old(self)@.hosts.len() ==> r.is_some() && final(self).ready(index as int)
                == old(self).ready(index as int),
            index < old(self)@.hosts.len() && old(self).ready(index as int) ==> r.unwrap().is_ok()
                && r.unwrap().unwrap()@ == tail_text(
                file@,
                read_start(old(self).tailer(index as int), from_pos),
            ) && final(self).tailer(index as int) == after_read(
                old(self).tailer(index as int),
                file@,
            ),
            index < old(self)@.hosts.len() && !old(self).ready(index as int) ==> r.unwrap()
                == Err::<String, SessionError>(SessionError::NotConnected) && final(self).tailer(
                index as int,
            ) == old(self).tailer(index as int),
            forall|j: int|
                0 <= j < old(self)@.hosts.len() && j != index ==> #[trigger] final(self).tailer(j)
                    == old(self).tailer(j) && final(self).ready(j) == old(self).ready(j),
    {
        if index < self.tailers.len() {
            let mut t = self.tailers[index].clone();
            let r = t.read(from_pos, file);
            self.tailers[index] = t;
            assert(self@.files =~= old(self)@.files);
            Some(r)
        } else {
            None
        }
    }

    /// Leaves the scope on the host with the given index, whose file has
    /// the bytes `file`, and hands back the text that its tailer captured;
    /// `None` for an index without a tailer or a tailer without an SFTP
    /// subsystem, which captures nothing.
    pub fn exit_host(&mut self, index: usize, file: &Vec<u8>) -> (captured: Option<String>)
        requires
            old(self).wf(),
        ensures
            final(self).wf(),
            final(self)@ == old(self)@,
            captured.is_some() <==> index < old(self)@.hosts.len() && old(self).ready(index as int),
            captured.is_some() ==> final(self).tailer(index as int) == after_exit(
                old(self).tailer(index as int),
                file@,
            ) && Some(captured.unwrap()@) == final(self).tailer(index as int).contents,
            index < old(self)@.hosts.len() && !old(self).ready(index as int) ==> final(self).tailer(
                index as int,
            ) == old(self).tailer(index as int),
            forall|j: int|
                0 <= j < old(self)@.hosts.len() && j != index ==> #[trigger] final(self).tailer(j)
                    == old(self).tailer(j) && final(self).ready(j) == old(self).ready(j),
    {
        if index < self.tailers.len() {
            let mut t = self.tailers[index].clone();
            let was_ready = t.is_ready();
            t.exit(file);
            let captured = if was_ready {
                t.contents()
            } else {
                None
            };
            self.tailers[index] = t;
            assert(self@.files =~= old(self)@.files);
            captured
        } else {
            None
        }
    }

    /// Takes the report of one host's exit into the captured texts. A
    /// failure becomes that host's text, as `Error: <message>`; a task that
    /// was torn down leaves no entry; an index without a tailer changes
    /// nothing.
    pub fn collect_exit(&mut self, index: usize, report: TailerReport)
        requires
            old(self).wf(),
        ensures
            final(self).wf(),
            final(self)@ == (MultiTailerView {
                contents: if index < old(self)@.hosts.len() && report_entry(report@).is_some() {
                    old(self)@.contents.insert(
                        old(self)@.hosts[index as int],
                        report_entry(report@).unwrap(),
                    )
                } else {
                    old(self)@.contents
                },
                ..old(self)@
            }),
    {
        if index < self.hosts.len() {
            let host = self.hosts[index].clone();
            match report {
                TailerReport::Done(t) => {
                    self.contents.insert(host, t);
                },
                TailerReport::Failed(m) => {
                    self.contents.insert(host, host_error(m.as_str()));
                },
                TailerReport::Panicked(_) => {},
            }
        }
    }
}

} // verus!
