//! One multi-host operation in flight: the tasks to run, the budget they
//! run under, how each task's report becomes a result, and the mapping that
//! is handed back when all have ended.
//!
//! The caller runs the tasks. It asks `poll` what to do, starts the task it
//! is told to start, and hands each report to `complete`.

use vstd::prelude::*;
use vstd::string::*;
use crate::multi_result::MultiResult;
use crate::result::client_failure;
use crate::result::contents_success;
use crate::result::empty_success;
use crate::result::operation_timeout_message;
use crate::result::transfer_success;
use crate::result::ResultView;
use crate::result::SSHResult;
use crate::scheduler::after_step;
use crate::scheduler::has_ended;
use crate::scheduler::is_over;
use crate::scheduler::next_step;
use crate::scheduler::within_budget;
use crate::scheduler::Scheduler;
use crate::scheduler::SchedulerView;
use crate::scheduler::Step;
use crate::text::decimal_nat;
use crate::text::has_substring;
use crate::text::push_decimal;
use crate::text::str_contains;

verus! {

broadcast use vstd::set::group_set_axioms, vstd::map::group_map_axioms;

/// The operations that a controller fans out.
#[derive(Clone, Copy, Debug, PartialEq, Eq, Structural)]
pub enum OperationKind {
    Connect,
    Execute,
    ExecuteMap,
    SftpWrite,
    SftpRead,
    SftpWriteData,
}

/// What one task has to do on its session.
#[derive(Debug)]
pub enum Job {
    Connect,
    Execute { command: String },
    SftpWrite { local_path: String, remote_path: String },
    SftpRead { remote_path: String, save_to: Option<String> },
    SftpWriteData { data: String, remote_path: String },
}

/// The mathematical value of a `Job`.
pub enum JobView {
    Connect,
    Execute { command: Seq<char> },
    SftpWrite { local_path: Seq<char>, remote_path: Seq<char> },
    SftpRead { remote_path: Seq<char>, save_to: Option<Seq<char>> },
    SftpWriteData { data: Seq<char>, remote_path: Seq<char> },
}

impl View for Job {
    type V = JobView;

    open spec fn view(&self) -> JobView {
        match self {
            Job::Connect => JobView::Connect,
            Job::Execute { command } => JobView::Execute { command: command@ },
            Job::SftpWrite { local_path, remote_path } => JobView::SftpWrite {
                local_path: local_path@,
                remote_path: remote_path@,
            },
            Job::SftpRead { remote_path, save_to } => JobView::SftpRead {
                remote_path: remote_path@,
                save_to: match save_to {
                    Some(p) => Some(p@),
                    None => None,
                },
            },
            Job::SftpWriteData { data, remote_path } => JobView::SftpWriteData {
                data: data@,
                remote_path: remote_path@,
            },
        }
    }
}

impl Clone for Job {
    fn clone(&self) -> (copy: Job)
        ensures
            copy@ == self@,
    {
        match self {
            Job::Connect => Job::Connect,
            Job::Execute { command } => Job::Execute { command: command.clone() },
            Job::SftpWrite { local_path, remote_path } => Job::SftpWrite {
                local_path: local_path.clone(),
                remote_path: remote_path.clone(),
            },
            Job::SftpRead { remote_path, save_to } => Job::SftpRead {
                remote_path: remote_path.clone(),
                save_to: match save_to {
                    Some(p) => Some(p.clone()),
                    None => None,
                },
            },
            Job::SftpWriteData { data, remote_path } => Job::SftpWriteData {
                data: data.clone(),
                remote_path: remote_path.clone(),
            },
        }
    }
}

/// One task: a host, the index of its session in the controller, its job.
#[derive(Debug)]
pub struct Target {
    pub host: String,
    pub session: usize,
    pub job: Job,
}

/// What the caller reports of a task that ended.
#[derive(Debug)]
pub enum TaskReport {
    /// The session is connected.
    Connected,
    /// The command ran; this is its outcome.
    Output(SSHResult),
    /// The upload is complete.
    Written,
    /// The download is complete; this is the text of the file, or `Ok`
    /// where it was saved locally.
    Contents(String),
    /// The task failed with this error text.
    Failed(String),
    /// The deadline of the task passed.
    Elapsed,
    /// The task was torn down before it could report.
    Panicked(String),
}

/// The mathematical value of a `TaskReport`.
pub enum ReportView {
    Connected,
    Output(ResultView),
    Written,
    Contents(Seq<char>),
    Failed(Seq<char>),
    Elapsed,
    Panicked(Seq<char>),
}

impl View for TaskReport {
    type V = ReportView;

    open spec fn view(&self) -> ReportView {
        match self {
            TaskReport::Connected => ReportView::Connected,
            TaskReport::Output(r) => ReportView::Output(r@),
            TaskReport::Written => ReportView::Written,
            TaskReport::Contents(c) => ReportView::Contents(c@),
            TaskReport::Failed(m) => ReportView::Failed(m@),
            TaskReport::Elapsed => ReportView::Elapsed,
            TaskReport::Panicked(m) => ReportView::Panicked(m@),
        }
    }
}

/// The failures that end a whole multi-host operation.
#[derive(Debug)]
pub enum FanOutError {
    /// The process ran out of file descriptors.
    TooManyOpenFiles { batch_size: usize },
    /// A task was torn down before it could report.
    TaskPanic { message: String },
}

/// The mathematical value of a `FanOutError`.
pub enum FanOutErrorView {
    TooManyOpenFiles { batch_size: nat },
    TaskPanic { message: Seq<char> },
}

impl View for FanOutError {
    type V = FanOutErrorView;

    open spec fn view(&self) -> FanOutErrorView {
        match self {
            FanOutError::TooManyOpenFiles { batch_size } => FanOutErrorView::TooManyOpenFiles {
                batch_size: *batch_size as nat,
            },
            FanOutError::TaskPanic { message } => FanOutErrorView::TaskPanic { message: message@ },
        }
    }
}

/// The text of a `FanOutError`.
pub open spec fn fan_out_error_text(e: FanOutErrorView) -> Seq<char> {
    match e {
        FanOutErrorView::TooManyOpenFiles { batch_size } =>
            "Too many open files. Try reducing batch_size (current: "@ + decimal_nat(batch_size)
                + ") or increasing ulimit -n"@,
        FanOutErrorView::TaskPanic { message } => "Task panic: "@ + message,
    }
}

impl FanOutError {
    /// The text of the error. That of descriptor exhaustion says what to do
    /// about it.
    pub fn message(&self) -> (text: String)
        ensures
            text@ == fan_out_error_text(self@),
    {
        match self {
            FanOutError::TooManyOpenFiles { batch_size } => {
                let mut text = String::from_str(
                    "Too many open files. Try reducing batch_size (current: ",
                );
                push_decimal(&mut text, *batch_size as u64);
                text.append(") or increasing ulimit -n");
                text
            },
            FanOutError::TaskPanic { message } => {
                let mut text = String::from_str("Task panic: ");
                text.append(message.as_str());
                text
            },
        }
    }
}

/// An error text that tells of descriptor exhaustion.
pub open spec fn tells_exhaustion(message: Seq<char>) -> bool {
    has_substring(message, "Too many open files"@) || has_substring(message, "EMFILE"@)
}

/// The operations in which descriptor exhaustion ends the whole operation.
pub open spec fn escalates_exhaustion(kind: OperationKind) -> bool {
    kind == OperationKind::Connect || kind == OperationKind::Execute
}

/// The seconds of a deadline, 0 where there is none.
pub open spec fn deadline_seconds(deadline: Option<u64>) -> nat {
    match deadline {
        Some(s) => s as nat,
        None => 0,
    }
}

/// What a report becomes: the result for its host, or the error that ends
/// the operation. A failure or a passed deadline becomes a result with
/// status -1 and the message on the error stream; descriptor exhaustion in
/// an operation that escalates it, and a torn-down task, end the operation.
pub open spec fn translated(
    kind: OperationKind,
    deadline: Option<u64>,
    batch_size: nat,
    report: ReportView,
) -> Result<ResultView, FanOutErrorView> {
    match report {
        ReportView::Connected => Ok(empty_success()),
        ReportView::Output(r) => Ok(r),
        ReportView::Written => Ok(transfer_success()),
        ReportView::Contents(c) => Ok(contents_success(c)),
        ReportView::Failed(m) => if escalates_exhaustion(kind) && tells_exhaustion(m) {
            Err(FanOutErrorView::TooManyOpenFiles { batch_size })
        } else {
            Ok(client_failure(m))
        },
        ReportView::Elapsed => if kind == OperationKind::Connect {
            Ok(client_failure("Connection timed out"@))
        } else {
            Ok(client_failure(operation_timeout_message(deadline_seconds(deadline))))
        },
        ReportView::Panicked(m) => Err(FanOutErrorView::TaskPanic { message: m }),
    }
}

/// The mathematical value of a translation.
pub open spec fn translation_view(r: Result<SSHResult, FanOutError>) -> Result<
    ResultView,
    FanOutErrorView,
> {
    match r {
        Ok(v) => Ok(v@),
        Err(e) => Err(e@),
    }
}

/// Tests whether an error text tells of descriptor exhaustion.
pub fn is_exhaustion(message: &str) -> (found: bool)
    ensures
        found == tells_exhaustion(message@),
{
    str_contains(message, "Too many open files") || str_contains(message, "EMFILE")
}

/// Turns the report of one task into the result for its host, or into the
/// error that ends the operation.
pub fn translate(kind: OperationKind, deadline: Option<u64>, batch_size: usize, report: TaskReport)
    -> (r: Result<SSHResult, FanOutError>)
    ensures
        translation_view(r) == translated(kind, deadline, batch_size as nat, report@),
{
    match report {
        TaskReport::Connected => Ok(SSHResult::success()),
        TaskReport::Output(r) => Ok(r),
        TaskReport::Written => Ok(SSHResult::transfer_ok()),
        TaskReport::Contents(c) => Ok(SSHResult::with_contents(c)),
        TaskReport::Failed(m) => {
            let escalate = match kind {
                OperationKind::Connect => true,
                OperationKind::Execute => true,
                _ => false,
            };
            if escalate && is_exhaustion(m.as_str()) {
                Err(FanOutError::TooManyOpenFiles { batch_size })
            } else {
                Ok(SSHResult::failure(m))
            }
        },
        TaskReport::Elapsed => {
            match kind {
                OperationKind::Connect => Ok(
                    SSHResult::failure(String::from_str("Connection timed out")),
                ),
                _ => {
                    let seconds = match deadline {
                        Some(s) => s,
                        None => 0,
                    };
                    Ok(SSHResult::timed_out(seconds))
                },
            }
        },
        TaskReport::Panicked(m) => Err(FanOutError::TaskPanic { message: m }),
    }
}

/// The hosts of a list of targets.
pub open spec fn target_hosts(targets: Seq<Target>) -> Seq<Seq<char>> {
    Seq::new(targets.len(), |i: int| targets[i].host@)
}

/// The hosts whose tasks have ended.
pub open spec fn ended_hosts(hosts: Seq<Seq<char>>, v: SchedulerView) -> Set<Seq<char>> {
    Set::new(|h: Seq<char>| exists|i: int| has_ended(v, i) && i < hosts.len() && hosts[i] == h)
}

/// The state of an operation in flight as mathematical values.
pub struct FanOutView {
    pub kind: OperationKind,
    pub deadline: Option<u64>,
    pub hosts: Seq<Seq<char>>,
    pub schedule: SchedulerView,
    pub results: Map<Seq<char>, ResultView>,
    pub failure: Option<FanOutErrorView>,
}

/// The state of an operation of which no task has started.
pub open spec fn fresh_run(
    kind: OperationKind,
    deadline: Option<u64>,
    hosts: Seq<Seq<char>>,
    batch_size: nat,
) -> FanOutView {
    FanOutView {
        kind,
        deadline,
        hosts,
        schedule: SchedulerView {
            total: hosts.len(),
            batch_size,
            started: 0,
            running: Seq::empty(),
            halted: false,
        },
        results: Map::empty(),
        failure: None,
    }
}

/// The state after the report of task `index` has been taken in. A report
/// of a task that does not run changes nothing. Otherwise the task no
/// longer runs; while no failure has ended the operation, its report
/// becomes the result of its host or the failure, and after a failure no
/// further task is started.
pub open spec fn after_report(v: FanOutView, index: usize, report: ReportView) -> FanOutView {
    if !v.schedule.running.contains(index) {
        v
    } else {
        let k = choose|k: int| 0 <= k < v.schedule.running.len() && v.schedule.running[k] == index;
        let ended = SchedulerView { running: v.schedule.running.remove(k), ..v.schedule };
        if v.failure.is_some() {
            FanOutView { schedule: ended, ..v }
        } else {
            match translated(v.kind, v.deadline, v.schedule.batch_size, report) {
                Ok(r) => FanOutView {
                    schedule: ended,
                    results: v.results.insert(v.hosts[index as int], r),
                    ..v
                },
                Err(e) => FanOutView {
                    schedule: SchedulerView { halted: true, ..ended },
                    failure: Some(e),
                    ..v
                },
            }
        }
    }
}

/// A multi-host operation in flight.
pub struct FanOut {
    kind: OperationKind,
    deadline: Option<u64>,
    targets: Vec<Target>,
    scheduler: Scheduler,
    results: MultiResult,
    failure: Option<FanOutError>,
}

/// The mathematical value of an optional failure.
pub open spec fn failure_view(failure: Option<FanOutError>) -> Option<FanOutErrorView> {
    match failure {
        Some(e) => Some(e@),
        None => None,
    }
}

impl View for FanOut {
    type V = FanOutView;

    closed spec fn view(&self) -> FanOutView {
        FanOutView {
            kind: self.kind,
            deadline: self.deadline,
            hosts: target_hosts(self.targets@),
            schedule: self.scheduler@,
            results: self.results@,
            failure: failure_view(self.failure),
        }
    }
}

/// The state of an operation is consistent: it is within its budget, it
/// has one task per target, and while no failure has ended it the hosts
/// that have a result are those whose tasks have ended.
pub open spec fn consistent(v: FanOutView) -> bool {
    &&& within_budget(v.schedule)
    &&& v.schedule.total == v.hosts.len()
    &&& v.schedule.total <= usize::MAX
    &&& v.failure.is_some() ==> v.schedule.halted
    &&& v.failure.is_none() ==> !v.schedule.halted && v.results.dom() == ended_hosts(
        v.hosts,
        v.schedule,
    )
}

/// Starting a task changes nothing about which tasks have ended.
pub proof fn lemma_step_keeps_ended(hosts: Seq<Seq<char>>, v: SchedulerView)
    requires
        within_budget(v),
        v.total <= usize::MAX,
    ensures
        ended_hosts(hosts, after_step(v)) == ended_hosts(hosts, v),
{
    let w = after_step(v);
    match next_step(v) {
        Step::Spawn(s) => {
            assert forall|i: int| has_ended(w, i) <==> has_ended(v, i) by {
                if 0 <= i < v.started {
                    if w.running.contains(i as usize) {
                        let k = choose|k: int| 0 <= k < w.running.len() && w.running[k] == i;
                        assert(k < v.running.len());
                        assert(v.running[k] == i);
                    }
                    if v.running.contains(i as usize) {
                        let k = choose|k: int| 0 <= k < v.running.len() && v.running[k] == i;
                        assert(w.running[k] == i);
                    }
                } else if i == v.started {
                    assert(w.running[w.running.len() - 1] == i);
                    assert(w.running.contains(i as usize));
                } else {
                }
            }
            assert(ended_hosts(hosts, w) =~= ended_hosts(hosts, v));
        },
        _ => {},
    }
}

/// When the task of a running index ends, its host joins the hosts whose
/// tasks have ended.
pub proof fn lemma_end_adds_host(hosts: Seq<Seq<char>>, v: SchedulerView, w: SchedulerView, k: int)
    requires
        within_budget(v),
        v.total == hosts.len(),
        v.total <= usize::MAX,
        0 <= k < v.running.len(),
        w.started == v.started,
        w.running == v.running.remove(k),
    ensures
        ended_hosts(hosts, w) == ended_hosts(hosts, v).insert(hosts[v.running[k] as int]),
{
    let index = v.running[k];
    crate::scheduler::lemma_remove_running(v.running, k);
    assert(index < v.started);
    assert forall|i: int| has_ended(w, i) <==> has_ended(v, i) || i == index by {
        if 0 <= i < v.started {
            assert(w.running.contains(i as usize) <==> v.running.contains(i as usize) && i as usize
                != index);
        }
    }
    assert forall|h: Seq<char>|
        ended_hosts(hosts, w).contains(h) <==> ended_hosts(hosts, v).insert(
            hosts[index as int],
        ).contains(h) by {
        if ended_hosts(hosts, w).contains(h) {
            let i = choose|i: int| has_ended(w, i) && i < hosts.len() && hosts[i] == h;
            if i != index {
                assert(has_ended(v, i));
            }
        }
        if ended_hosts(hosts, v).contains(h) {
            let i = choose|i: int| has_ended(v, i) && i < hosts.len() && hosts[i] == h;
            assert(has_ended(w, i));
        }
        if h == hosts[index as int] {
            assert(has_ended(w, index as int));
        }
    }
    assert(ended_hosts(hosts, w) =~= ended_hosts(hosts, v).insert(hosts[index as int]));
}

/// When an operation is over without a failure, every host of its targets
/// has ended.
pub proof fn lemma_over_covers_hosts(hosts: Seq<Seq<char>>, v: SchedulerView)
    requires
        within_budget(v),
        v.total == hosts.len(),
        is_over(v),
        !v.halted,
    ensures
        ended_hosts(hosts, v) == hosts.to_set(),
{
    assert forall|h: Seq<char>| ended_hosts(hosts, v).contains(h) <==> hosts.to_set().contains(
        h,
    ) by {
        if hosts.to_set().contains(h) {
            let i = choose|i: int| 0 <= i < hosts.len() && hosts[i] == h;
            assert(has_ended(v, i));
        }
        if ended_hosts(hosts, v).contains(h) {
            let i = choose|i: int| has_ended(v, i) && i < hosts.len() && hosts[i] == h;
            assert(hosts[i] == h);
        }
    }
    assert(ended_hosts(hosts, v) =~= hosts.to_set());
}

/// Starting a task keeps the state consistent, and never takes the number
/// of running tasks above the batch size.
pub proof fn lemma_step_keeps_consistent(v: FanOutView)
    requires
        consistent(v),
    ensures
        consistent(FanOutView { schedule: after_step(v.schedule), ..v }),
        after_step(v.schedule).running.len() <= v.schedule.batch_size,
{
    crate::scheduler::lemma_step_within_budget(v.schedule);
    lemma_step_keeps_ended(v.hosts, v.schedule);
}

/// Taking in a report keeps the state consistent: the budget holds, and
/// while no failure has ended the operation the hosts with a result are
/// still those whose tasks have ended.
pub proof fn lemma_report_keeps_consistent(v: FanOutView, index: usize, report: ReportView)
    requires
        consistent(v),
    ensures
        consistent(after_report(v, index, report)),
        after_report(v, index, report).hosts == v.hosts,
        after_report(v, index, report).schedule.running.len() <= v.schedule.running.len(),
{
    if v.schedule.running.contains(index) {
        let k = choose|k: int| 0 <= k < v.schedule.running.len() && v.schedule.running[k] == index;
        let ended = SchedulerView { running: v.schedule.running.remove(k), ..v.schedule };
        crate::scheduler::lemma_remove_running(v.schedule.running, k);
        assert forall|a: int| 0 <= a < ended.running.len() implies (#[trigger] ended.running[a])
            < ended.started by {
            if a < k {
                assert(v.schedule.running[a] < v.schedule.started);
            } else {
                assert(v.schedule.running[a + 1] < v.schedule.started);
            }
        }
        assert(v.schedule.running[k] < v.schedule.started);
        lemma_end_adds_host(v.hosts, v.schedule, ended, k);
        let w = after_report(v, index, report);
        if v.failure.is_none() {
            match translated(v.kind, v.deadline, v.schedule.batch_size, report) {
                Ok(r) => {
                    assert(w.results.dom() =~= v.results.dom().insert(v.hosts[index as int]));
                },
                Err(e) => {},
            }
        }
    }
}

/// When an operation is over and no failure has ended it, its results hold
/// exactly the hosts of its targets.
pub proof fn lemma_over_results_cover_hosts(v: FanOutView)
    requires
        consistent(v),
        is_over(v.schedule),
        v.failure.is_none(),
    ensures
        v.results.dom() == v.hosts.to_set(),
{
    lemma_over_covers_hosts(v.hosts, v.schedule);
}

impl FanOut {
    /// The state is consistent and its results are well formed.
    pub closed spec fn wf(&self) -> bool {
        consistent(self@) && self.scheduler.wf() && self.results.wf()
    }

    /// The targets of the operation, in the order in which they start.
    pub closed spec fn targets(&self) -> Seq<Target> {
        self.targets@
    }

    /// What well-formedness means for the state, and that the hosts are
    /// those of the targets.
    pub proof fn lemma_wf(&self)
        requires
            self.wf(),
        ensures
            consistent(self@),
            self@.schedule.running.len() <= self@.schedule.batch_size,
            self@.hosts == target_hosts(self.targets()),
    {
    }

    /// An operation of which no task has started.
    pub fn new(kind: OperationKind, deadline: Option<u64>, targets: Vec<Target>, batch_size: usize)
        -> (run: FanOut)
        requires
            batch_size >= 1,
        ensures
            run.wf(),
            run.targets() == targets@,
            run@ == fresh_run(kind, deadline, target_hosts(targets@), batch_size as nat),
    {
        let scheduler = Scheduler::new(targets.len(), batch_size);
        let run = FanOut {
            kind,
            deadline,
            targets,
            scheduler,
            results: MultiResult::empty(),
            failure: None,
        };
        proof {
            assert(ended_hosts(run@.hosts, run@.schedule) =~= Set::empty());
            assert(run@.results.dom() =~= Set::empty());
        }
        run
    }

    /// Decides the next step. Where it is to start a task, that task counts
    /// as running from now on; never more than `batch_size` do.
    pub fn poll(&mut self) -> (step: Step)
        requires
            old(self).wf(),
        ensures
            final(self).wf(),
            final(self).targets() == old(self).targets(),
            step == next_step(old(self)@.schedule),
            final(self)@ == (FanOutView { schedule: after_step(old(self)@.schedule), ..old(self)@ }),
            final(self)@.schedule.running.len() <= final(self)@.schedule.batch_size,
    {
        proof {
            lemma_step_keeps_ended(self@.hosts, self@.schedule);
        }
        self.scheduler.poll()
    }

    /// The target with the given index.
    pub fn target(&self, index: usize) -> (t: Option<&Target>)
        ensures
            index < self.targets().len() ==> t == Some(&self.targets()[index as int]),
            index >= self.targets().len() ==> t.is_none(),
    {
        if index < self.targets.len() {
            Some(&self.targets[index])
        } else {
            None
        }
    }

    /// The deadline in seconds that each task runs under, if any.
    pub fn deadline(&self) -> (d: Option<u64>)
        ensures
            d == self@.deadline,
    {
        self.deadline
    }

    /// The number of tasks that run now.
    pub fn active(&self) -> (n: usize)
        requires
            self.wf(),
        ensures
            n == self@.schedule.running.len(),
            n <= self@.schedule.batch_size,
    {
        self.scheduler.active()
    }

    /// Takes in the report of the task with the given index. Returns
    /// whether that task was running; a report of any other is dropped.
    pub fn complete(&mut self, index: usize, report: TaskReport) -> (accepted: bool)
        requires
            old(self).wf(),
        ensures
            final(self).wf(),
            final(self).targets() == old(self).targets(),
            accepted == old(self)@.schedule.running.contains(index),
            final(self)@ == after_report(old(self)@, index, report@),
    {
        let ghost before = self@;
        let accepted = self.scheduler.complete(index);
        if !accepted {
            return false;
        }
        proof {
            let k = choose|k: int|
                0 <= k < before.schedule.running.len() && before.schedule.running[k] == index;
            let k2 = choose|k: int|
                0 <= k < before.schedule.running.len() && before.schedule.running[k] == index
                    && self.scheduler@ == (SchedulerView {
                    running: before.schedule.running.remove(k),
                    ..before.schedule
                });
            assert(k == k2);
            assert(before.schedule.running[k] < before.schedule.started);
            lemma_end_adds_host(before.hosts, before.schedule, self.scheduler@, k);
        }
        if self.failure.is_some() {
            return true;
        }
        let batch_size = self.scheduler.batch_size();
        match translate(self.kind, self.deadline, batch_size, report) {
            Ok(result) => {
                let host = self.targets[index].host.clone();
                self.results.insert(host, result);
                proof {
                    assert(self@.results.dom() =~= before.results.dom().insert(
                        before.hosts[index as int],
                    ));
                }
            },
            Err(e) => {
                self.failure = Some(e);
                self.scheduler.halt();
            },
        }
        true
    }

    /// Whether every task that was started has ended and none is left to
    /// start.
    pub fn is_done(&self) -> (done: bool)
        ensures
            done == is_over(self@.schedule),
    {
        self.scheduler.is_done()
    }

    /// Ends the operation. While tasks run or are left to start there is
    /// nothing to hand back. Otherwise the failure that ended the operation
    /// comes back, or else the mapping, which holds exactly the hosts of
    /// the targets.
    pub fn finish(self) -> (outcome: Option<Result<MultiResult, FanOutError>>)
        requires
            self.wf(),
        ensures
            outcome.is_some() <==> is_over(self@.schedule),
            outcome.is_some() ==> match outcome.unwrap() {
                Ok(m) => self@.failure.is_none() && m.wf() && m@ == self@.results && m@.dom()
                    == self@.hosts.to_set(),
                Err(e) => self@.failure == Some(e@),
            },
    {
        if !self.scheduler.is_done() {
            return None;
        }
        proof {
            if self@.failure.is_none() {
                lemma_over_covers_hosts(self@.hosts, self@.schedule);
            }
        }
        match self.failure {
            Some(e) => Some(Err(e)),
            None => Some(Ok(self.results)),
        }
    }
}

} // verus!
