//! The fan-out controller: an ordered pool of sessions that share one
//! concurrency budget, the operations it plans across them, and the pruning
//! of hosts that could not be connected.

use vstd::prelude::*;
use vstd::string::*;
use crate::asynchronous::closed_session;
use crate::asynchronous::from_blocking;
use crate::asynchronous::AsyncConnection;
use crate::asynchronous::AsyncConnectionView;
use crate::fanout::fresh_run;
use crate::fanout::target_hosts;
use crate::fanout::FanOut;
use crate::fanout::FanOutError;
use crate::fanout::Job;
use crate::fanout::JobView;
use crate::fanout::OperationKind;
use crate::fanout::Target;
use crate::multi_result::host_succeeded;
use crate::multi_result::MultiResult;
use crate::multi_tailer::MultiFileTailer;
use crate::multi_tailer::MultiTailerView;
use crate::result::ResultView;
use crate::scheduler::is_over;
use crate::session::opt_text;
use crate::session::upload_target;
use crate::session::Connection;
use crate::session::SessionState;
use crate::text::decimal_nat;
use crate::text::push_decimal;

verus! {

/// The number of tasks that run at once where none is given.
pub const DEFAULT_BATCH_SIZE: usize = 100;

/// The state of a controller as mathematical values.
pub struct ControllerView {
    /// The sessions in order; each knows its host.
    pub sessions: Seq<AsyncConnectionView>,
    pub batch_size: nat,
    /// The deadline of a connection attempt in seconds, 0 for none.
    pub timeout: nat,
}

/// The sessions as mathematical values.
pub open spec fn session_views(sessions: Seq<AsyncConnection>) -> Seq<AsyncConnectionView> {
    Seq::new(sessions.len(), |i: int| sessions[i]@)
}

/// The hosts of the sessions, in order.
pub open spec fn session_hosts(sessions: Seq<AsyncConnectionView>) -> Seq<Seq<char>> {
    Seq::new(sessions.len(), |i: int| sessions[i].host)
}

/// The texts of a list of strings.
pub open spec fn texts(items: Seq<String>) -> Seq<Seq<char>> {
    Seq::new(items.len(), |i: int| items[i]@)
}

/// The batch size that applies: the one given, or 100.
pub open spec fn batch_or_default(batch_size: Option<usize>) -> nat {
    match batch_size {
        Some(b) => b as nat,
        None => 100,
    }
}

/// The timeout that applies: the one given, or 0 for none.
pub open spec fn timeout_or_none(timeout: Option<u64>) -> nat {
    match timeout {
        Some(t) => t as nat,
        None => 0,
    }
}

/// Every target does `job` on the session with its own index, for that
/// session's host.
pub open spec fn uniform_targets(targets: Seq<Target>, hosts: Seq<Seq<char>>, job: JobView) -> bool {
    &&& targets.len() == hosts.len()
    &&& forall|i: int|
        0 <= i < targets.len() ==> (#[trigger] targets[i]).host@ == hosts[i] && targets[i].session
            == i && targets[i].job@ == job
}

/// The command that a mapping holds for `host`; of two entries for one host
/// the later one counts.
pub open spec fn command_for(map: Seq<(Seq<char>, Seq<char>)>, host: Seq<char>) -> Option<
    Seq<char>,
>
    decreases map.len(),
{
    if map.len() == 0 {
        None
    } else if map.last().0 == host {
        Some(map.last().1)
    } else {
        command_for(map.drop_last(), host)
    }
}

/// The entries of a mapping as mathematical values.
pub open spec fn map_views(map: Seq<(String, String)>) -> Seq<(Seq<char>, Seq<char>)> {
    Seq::new(map.len(), |i: int| (map[i].0@, map[i].1@))
}

/// One planned task of a per-host operation.
pub struct Planned {
    pub host: Seq<char>,
    pub session: int,
    pub argument: Seq<char>,
}

/// The tasks of a per-host operation over the first `n` hosts: one for each
/// host that the mapping holds, in the order of the hosts, with the host's
/// own entry as its argument. Hosts without an entry get no task.
pub open spec fn mapped(hosts: Seq<Seq<char>>, map: Seq<(Seq<char>, Seq<char>)>, n: nat) -> Seq<
    Planned,
>
    decreases n,
{
    if n == 0 {
        Seq::empty()
    } else {
        let rest = mapped(hosts, map, (n - 1) as nat);
        match command_for(map, hosts[n - 1]) {
            Some(c) => rest.push(Planned { host: hosts[n - 1], session: n - 1, argument: c }),
            None => rest,
        }
    }
}

/// A per-host operation leaves out exactly the hosts that the mapping does
/// not hold: each task belongs to a host of the pool and carries that
/// host's entry, and each host with an entry has a task.
pub proof fn lemma_mapped_hosts(hosts: Seq<Seq<char>>, map: Seq<(Seq<char>, Seq<char>)>, n: nat)
    requires
        n <= hosts.len(),
    ensures
        mapped(hosts, map, n).len() <= n,
        forall|k: int|
            0 <= k < mapped(hosts, map, n).len() ==> {
                let t = #[trigger] mapped(hosts, map, n)[k];
                0 <= t.session < n && hosts[t.session] == t.host && command_for(map, t.host)
                    == Some(t.argument)
            },
        forall|i: int|
            0 <= i < n && command_for(map, #[trigger] hosts[i]).is_some() ==> exists|k: int|
                0 <= k < mapped(hosts, map, n).len() && (#[trigger] mapped(hosts, map, n)[k]).session
                    == i,
    decreases n,
{
    if n > 0 {
        let prev = (n - 1) as nat;
        lemma_mapped_hosts(hosts, map, prev);
        let rest = mapped(hosts, map, prev);
        let all = mapped(hosts, map, n);
        assert forall|k: int| 0 <= k < all.len() implies {
            let t = #[trigger] all[k];
            0 <= t.session < n && hosts[t.session] == t.host && command_for(map, t.host) == Some(
                t.argument,
            )
        } by {
            if k < rest.len() {
                assert(all[k] == rest[k]);
            }
        }
        assert forall|i: int|
            0 <= i < n && command_for(map, #[trigger] hosts[i]).is_some() implies exists|k: int|
            0 <= k < all.len() && (#[trigger] all[k]).session == i by {
            if i < prev {
                let k = choose|k: int| 0 <= k < rest.len() && (#[trigger] rest[k]).session == i;
                assert(all[k] == rest[k]);
            } else {
                assert(all[all.len() - 1].session == i);
            }
        }
    }
}

/// What a planned task is for a target: its host, its session and, for a
/// command, the command.
pub open spec fn planned_of(t: Target) -> Planned {
    Planned {
        host: t.host@,
        session: t.session as int,
        argument: match t.job {
            Job::Execute { command } => command@,
            _ => Seq::empty(),
        },
    }
}

/// Every target runs a command.
pub open spec fn all_commands(targets: Seq<Target>) -> bool {
    forall|k: int| 0 <= k < targets.len() ==> (#[trigger] targets[k]).job is Execute
}

/// The planned tasks of a list of targets.
pub open spec fn planned_targets(targets: Seq<Target>) -> Seq<Planned> {
    Seq::new(targets.len(), |i: int| planned_of(targets[i]))
}

/// A session after a successful connection attempt: connected, unless it
/// was closed, which it then stays.
pub open spec fn connected(s: AsyncConnectionView) -> AsyncConnectionView {
    if s.state == SessionState::Closed {
        s
    } else {
        AsyncConnectionView { state: SessionState::Connected, ..s }
    }
}

/// The pool after a connect whose results are `m`: each session whose host
/// succeeded is connected; of the others each stays as it is, or leaves
/// the pool where failures are pruned. The order of those that stay is kept.
pub open spec fn settled(
    sessions: Seq<AsyncConnectionView>,
    m: Map<Seq<char>, ResultView>,
    prune: bool,
) -> Seq<AsyncConnectionView>
    decreases sessions.len(),
{
    if sessions.len() == 0 {
        Seq::empty()
    } else {
        let rest = settled(sessions.drop_last(), m, prune);
        let s = sessions.last();
        if host_succeeded(m, s.host) {
            rest.push(connected(s))
        } else if prune {
            rest
        } else {
            rest.push(s)
        }
    }
}

/// `host` is the host of one of the sessions.
pub open spec fn in_pool(sessions: Seq<AsyncConnectionView>, host: Seq<char>) -> bool {
    exists|i: int| 0 <= i < sessions.len() && (#[trigger] sessions[i]).host == host
}

/// After a connect that prunes, the hosts of the pool are the hosts of the
/// pool before whose connect result has status 0.
pub proof fn lemma_pruned_hosts(sessions: Seq<AsyncConnectionView>, m: Map<Seq<char>, ResultView>)
    ensures
        settled(sessions, m, true).len() <= sessions.len(),
        forall|h: Seq<char>| #[trigger]
            in_pool(settled(sessions, m, true), h) <==> in_pool(sessions, h) && host_succeeded(
                m,
                h,
            ),
    decreases sessions.len(),
{
    let kept = settled(sessions, m, true);
    if sessions.len() > 0 {
        let front = sessions.drop_last();
        let rest = settled(front, m, true);
        let s = sessions.last();
        lemma_pruned_hosts(front, m);
        assert forall|h: Seq<char>| #[trigger]
            in_pool(kept, h) <==> in_pool(sessions, h) && host_succeeded(m, h) by {
            assert(in_pool(rest, h) <==> in_pool(front, h) && host_succeeded(m, h));
            if in_pool(kept, h) {
                let k = choose|k: int| 0 <= k < kept.len() && (#[trigger] kept[k]).host == h;
                if k < rest.len() {
                    assert(rest[k].host == h);
                    assert(in_pool(rest, h));
                    let j = choose|j: int| 0 <= j < front.len() && (#[trigger] front[j]).host == h;
                    assert(sessions[j].host == h);
                } else {
                    assert(sessions[sessions.len() - 1].host == h);
                }
            }
            if in_pool(sessions, h) && host_succeeded(m, h) {
                let j = choose|j: int|
                    0 <= j < sessions.len() && (#[trigger] sessions[j]).host == h;
                if j < front.len() {
                    assert(front[j].host == h);
                    assert(in_pool(front, h));
                    let k = choose|k: int| 0 <= k < rest.len() && (#[trigger] rest[k]).host == h;
                    assert(kept[k].host == h);
                } else {
                    assert(kept[kept.len() - 1].host == h);
                }
            }
        }
    }
}

/// Without pruning a connect keeps every host of the pool, in order.
pub proof fn lemma_unpruned_hosts(sessions: Seq<AsyncConnectionView>, m: Map<Seq<char>, ResultView>)
    ensures
        session_hosts(settled(sessions, m, false)) == session_hosts(sessions),
    decreases sessions.len(),
{
    if sessions.len() > 0 {
        let front = sessions.drop_last();
        lemma_unpruned_hosts(front, m);
        let rest = settled(front, m, false);
        assert(session_hosts(rest).len() == front.len());
        assert(session_hosts(settled(sessions, m, false)) =~= session_hosts(rest).push(
            sessions.last().host,
        ));
        assert(session_hosts(sessions) =~= session_hosts(front).push(sessions.last().host));
    } else {
        assert(session_hosts(settled(sessions, m, false)) =~= session_hosts(sessions));
    }
}

/// Whether the session of `host` stays in the pool after a connect: always
/// where failures are not pruned, else where its host succeeded.
pub fn stays(results: &MultiResult, host: &String, prune_failures: bool) -> (keep: bool)
    requires
        results.wf(),
    ensures
        keep == (!prune_failures || host_succeeded(results@, host@)),
{
    !prune_failures || results.succeeded_on(host)
}

/// The number of sessions that are connected.
pub open spec fn connected_count(sessions: Seq<AsyncConnectionView>) -> nat
    decreases sessions.len(),
{
    if sessions.len() == 0 {
        0
    } else {
        connected_count(sessions.drop_last()) + if sessions.last().state
            == SessionState::Connected {
            1nat
        } else {
            0nat
        }
    }
}

/// The sessions of a pool after `close`.
pub open spec fn all_closed(sessions: Seq<AsyncConnectionView>) -> Seq<AsyncConnectionView> {
    Seq::new(sessions.len(), |i: int| closed_session(sessions[i]))
}

/// Closing a pool is idempotent.
pub proof fn lemma_close_idempotent(sessions: Seq<AsyncConnectionView>)
    ensures
        all_closed(all_closed(sessions)) == all_closed(sessions),
{
    assert(all_closed(all_closed(sessions)) =~= all_closed(sessions));
}

/// The debugging form of a controller.
pub open spec fn controller_repr(hosts: nat, batch_size: nat) -> Seq<char> {
    "MultiConnection("@ + decimal_nat(hosts) + " hosts, batch_size="@ + decimal_nat(batch_size)
        + ")"@
}

/// Looks up the command of `host`; of two entries for one host the later
/// one counts.
pub fn lookup_command(map: &Vec<(String, String)>, host: &String) -> (found: Option<String>)
    ensures
        opt_text(found) == command_for(map_views(map@), host@),
{
    let mut found: Option<String> = None;
    let mut i: usize = 0;
    let ghost all = map_views(map@);
    assert(all.take(0) =~= Seq::<(Seq<char>, Seq<char>)>::empty());
    while i < map.len()
        invariant
            i <= map.len(),
            all == map_views(map@),
            opt_text(found) == command_for(all.take(i as int), host@),
        decreases map.len() - i,
    {
        proof {
            let next = all.take(i as int + 1);
            assert(next.drop_last() =~= all.take(i as int));
            assert(next.last() == (map@[i as int].0@, map@[i as int].1@));
        }
        if map[i].0 == *host {
            found = Some(map[i].1.clone());
        }
        i += 1;
    }
    assert(all.take(i as int) =~= all);
    found
}

/// An ordered pool of sessions with a shared concurrency budget.
pub struct MultiConnection {
    connections: Vec<AsyncConnection>,
    hosts: Vec<String>,
    batch_size: usize,
    timeout: u64,
}

impl View for MultiConnection {
    type V = ControllerView;

    closed spec fn view(&self) -> ControllerView {
        ControllerView {
            sessions: session_views(self.connections@),
            batch_size: self.batch_size as nat,
            timeout: self.timeout as nat,
        }
    }
}

impl MultiConnection {
    /// Hosts and sessions are aligned index by index, and at least one task
    /// may run at a time.
    pub closed spec fn wf(&self) -> bool {
        &&& self.batch_size >= 1
        &&& self.hosts@.len() == self.connections@.len()
        &&& forall|i: int|
            0 <= i < self.hosts@.len() ==> (#[trigger] self.hosts@[i])@ == self.connections@[i]@.host
    }

    /// What well-formedness means for the state.
    pub proof fn lemma_wf(&self)
        requires
            self.wf(),
        ensures
            self@.batch_size >= 1,
    {
    }

    /// A controller of the given sessions.
    pub fn new(connections: Vec<AsyncConnection>, batch_size: Option<usize>, timeout: Option<u64>)
        -> (mc: MultiConnection)
        requires
            batch_size != Some(0usize),
        ensures
            mc.wf(),
            mc@ == (ControllerView {
                sessions: session_views(connections@),
                batch_size: batch_or_default(batch_size),
                timeout: timeout_or_none(timeout),
            }),
    {
        let mut hosts: Vec<String> = Vec::new();
        let mut i: usize = 0;
        while i < connections.len()
            invariant
                i <= connections.len(),
                hosts@.len() == i,
                forall|k: int| 0 <= k < i ==> (#[trigger] hosts@[k])@ == connections@[k]@.host,
            decreases connections.len() - i,
        {
            hosts.push(connections[i].get_host());
            i += 1;
        }
        MultiConnection {
            connections,
            hosts,
            batch_size: match batch_size {
                Some(b) => b,
                None => DEFAULT_BATCH_SIZE,
            },
            timeout: match timeout {
                Some(t) => t,
                None => 0,
            },
        }
    }

    /// A controller of fresh sessions that take over the parameters of the
    /// given blocking sessions. Nothing of their connections is shared.
    pub fn from_connections(
        connections: &Vec<Connection>,
        batch_size: Option<usize>,
        timeout: Option<u64>,
    ) -> (mc: MultiConnection)
        requires
            batch_size != Some(0usize),
        ensures
            mc.wf(),
            mc@.batch_size == batch_or_default(batch_size),
            mc@.timeout == timeout_or_none(timeout),
            mc@.sessions.len() == connections@.len(),
            forall|i: int|
                0 <= i < connections@.len() ==> (#[trigger] mc@.sessions[i]) == from_blocking(
                    connections@[i]@,
                    timeout_or_none(timeout),
                ),
    {
        let seconds = match timeout {
            Some(t) => t,
            None => 0,
        };
        let mut sessions: Vec<AsyncConnection> = Vec::new();
        let mut i: usize = 0;
        while i < connections.len()
            invariant
                i <= connections.len(),
                sessions@.len() == i,
                seconds as nat == timeout_or_none(timeout),
                forall|k: int|
                    0 <= k < i ==> (#[trigger] sessions@[k])@ == from_blocking(
                        connections@[k]@,
                        seconds as nat,
                    ),
            decreases connections.len() - i,
        {
            sessions.push(AsyncConnection::from_connection(&connections[i], seconds));
            i += 1;
        }
        MultiConnection::new(sessions, batch_size, timeout)
    }

    /// A controller of one fresh session per host, all with the same
    /// credentials, port and timeout.
    pub fn from_shared_auth(
        hosts: Vec<String>,
        username: Option<String>,
        password: Option<String>,
        key_path: Option<String>,
        port: u16,
        timeout: u64,
        batch_size: Option<usize>,
    ) -> (mc: MultiConnection)
        requires
            batch_size != Some(0usize),
        ensures
            mc.wf(),
            mc@.batch_size == batch_or_default(batch_size),
            mc@.timeout == timeout as nat,
            mc@.sessions.len() == hosts@.len(),
            forall|i: int|
                0 <= i < hosts@.len() ==> (#[trigger] mc@.sessions[i]) == (AsyncConnectionView {
                    host: hosts@[i]@,
                    port: port as int,
                    username: opt_text(username),
                    password: opt_text(password),
                    key_path: opt_text(key_path),
                    keepalive_interval: 0,
                    timeout: timeout as nat,
                    state: SessionState::Unconnected,
                    sftp_ready: false,
                }),
    {
        let mut sessions: Vec<AsyncConnection> = Vec::new();
        let mut i: usize = 0;
        while i < hosts.len()
            invariant
                i <= hosts.len(),
                sessions@.len() == i,
                forall|k: int|
                    0 <= k < i ==> (#[trigger] sessions@[k])@ == (AsyncConnectionView {
                        host: hosts@[k]@,
                        port: port as int,
                        username: opt_text(username),
                        password: opt_text(password),
                        key_path: opt_text(key_path),
                        keepalive_interval: 0,
                        timeout: timeout as nat,
                        state: SessionState::Unconnected,
                        sftp_ready: false,
                    }),
            decreases hosts.len() - i,
        {
            sessions.push(
                AsyncConnection::new(
                    hosts[i].clone(),
                    copy_text(&username),
                    copy_text(&password),
                    copy_text(&key_path),
                    port,
                    0,
                    timeout,
                ),
            );
            i += 1;
        }
        MultiConnection::new(sessions, batch_size, Some(timeout))
    }

    /// The hosts of the pool, in order.
    pub fn hosts(&self) -> (hosts: Vec<String>)
        requires
            self.wf(),
        ensures
            texts(hosts@) == session_hosts(self@.sessions),
    {
        let mut hosts: Vec<String> = Vec::new();
        let mut i: usize = 0;
        while i < self.hosts.len()
            invariant
                self.wf(),
                i <= self.hosts.len(),
                hosts@.len() == i,
                forall|k: int| 0 <= k < i ==> (#[trigger] hosts@[k])@ == self.hosts@[k]@,
            decreases self.hosts.len() - i,
        {
            hosts.push(self.hosts[i].clone());
            i += 1;
        }
        assert(texts(hosts@) =~= session_hosts(self@.sessions));
        hosts
    }

    /// The number of sessions in the pool.
    pub fn len(&self) -> (n: usize)
        ensures
            n == self@.sessions.len(),
    {
        self.connections.len()
    }

    /// The most tasks that run at once.
    pub fn batch_size(&self) -> (n: usize)
        ensures
            n == self@.batch_size,
    {
        self.batch_size
    }

    /// The session with the given index.
    pub fn session(&self, index: usize) -> (s: Option<&AsyncConnection>)
        ensures
            index < self@.sessions.len() ==> s.is_some() && s.unwrap()@ == self@.sessions[index as int],
            index >= self@.sessions.len() ==> s.is_none(),
    {
        if index < self.connections.len() {
            Some(&self.connections[index])
        } else {
            None
        }
    }

    fn broadcast(&self, job: &Job) -> (targets: Vec<Target>)
        requires
            self.wf(),
        ensures
            uniform_targets(targets@, session_hosts(self@.sessions), job@),
            target_hosts(targets@) == session_hosts(self@.sessions),
    {
        let mut targets: Vec<Target> = Vec::new();
        let mut i: usize = 0;
        while i < self.hosts.len()
            invariant
                self.wf(),
                i <= self.hosts.len(),
                targets@.len() == i,
                forall|k: int|
                    0 <= k < i ==> (#[trigger] targets@[k]).host@ == self.hosts@[k]@
                        && targets@[k].session == k && targets@[k].job@ == job@,
            decreases self.hosts.len() - i,
        {
            targets.push(Target { host: self.hosts[i].clone(), session: i, job: job.clone() });
            i += 1;
        }
        assert(target_hosts(targets@) =~= session_hosts(self@.sessions));
        targets
    }

    /// Plans a connect of every session. Each attempt runs under the
    /// timeout given for the call or else the controller's own, where that
    /// is not 0.
    pub fn connect(&self, timeout: Option<u64>) -> (run: FanOut)
        requires
            self.wf(),
        ensures
            run.wf(),
            run@ == fresh_run(
                OperationKind::Connect,
                match timeout {
                    Some(t) => if t > 0 {
                        Some(t)
                    } else {
                        None
                    },
                    None => if self@.timeout > 0 {
                        Some(self@.timeout as u64)
                    } else {
                        None
                    },
                },
                session_hosts(self@.sessions),
                self@.batch_size,
            ),
            uniform_targets(run.targets(), session_hosts(self@.sessions), JobView::Connect),
    {
        let seconds = match timeout {
            Some(t) => t,
            None => self.timeout,
        };
        let deadline = if seconds > 0 {
            Some(seconds)
        } else {
            None
        };
        let job = Job::Connect;
        let targets = self.broadcast(&job);
        FanOut::new(OperationKind::Connect, deadline, targets, self.batch_size)
    }

    /// Plans the same command on every session, each under the timeout
    /// given for the call if there is one.
    pub fn execute(&self, command: &str, timeout: Option<u64>) -> (run: FanOut)
        requires
            self.wf(),
        ensures
            run.wf(),
            run@ == fresh_run(
                OperationKind::Execute,
                timeout,
                session_hosts(self@.sessions),
                self@.batch_size,
            ),
            uniform_targets(
                run.targets(),
                session_hosts(self@.sessions),
                JobView::Execute { command: command@ },
            ),
    {
        let job = Job::Execute { command: String::from_str(command) };
        let targets = self.broadcast(&job);
        FanOut::new(OperationKind::Execute, timeout, targets, self.batch_size)
    }

    /// Plans a command per host: only the hosts that the mapping holds get
    /// a task, each with its own command; the others are left out.
    pub fn execute_map(&self, host_command_map: &Vec<(String, String)>, timeout: Option<u64>) -> (run:
        FanOut)
        requires
            self.wf(),
        ensures
            run.wf(),
            all_commands(run.targets()),
            planned_targets(run.targets()) == mapped(
                session_hosts(self@.sessions),
                map_views(host_command_map@),
                self@.sessions.len(),
            ),
            run@ == fresh_run(
                OperationKind::ExecuteMap,
                timeout,
                target_hosts(run.targets()),
                self@.batch_size,
            ),
    {
        let mut targets: Vec<Target> = Vec::new();
        let mut i: usize = 0;
        let ghost hosts = session_hosts(self@.sessions);
        let ghost map = map_views(host_command_map@);
        assert(planned_targets(targets@) =~= mapped(hosts, map, 0));
        while i < self.hosts.len()
            invariant
                self.wf(),
                i <= self.hosts.len(),
                hosts == session_hosts(self@.sessions),
                map == map_views(host_command_map@),
                planned_targets(targets@) == mapped(hosts, map, i as nat),
                all_commands(targets@),
            decreases self.hosts.len() - i,
        {
            let ghost before = planned_targets(targets@);
            match lookup_command(host_command_map, &self.hosts[i]) {
                Some(command) => {
                    targets.push(
                        Target { host: self.hosts[i].clone(), session: i, job: Job::Execute { command } },
                    );
                    assert(planned_targets(targets@) =~= before.push(
                        Planned { host: hosts[i as int], session: i as int, argument: command@ },
                    ));
                },
                None => {},
            }
            i += 1;
        }
        FanOut::new(OperationKind::ExecuteMap, timeout, targets, self.batch_size)
    }

    /// Plans the upload of a local file to every host, to `remote_path` or
    /// else to the local path.
    pub fn sftp_write(&self, local_path: &str, remote_path: Option<String>) -> (run: FanOut)
        requires
            self.wf(),
        ensures
            run.wf(),
            run@ == fresh_run(
                OperationKind::SftpWrite,
                None,
                session_hosts(self@.sessions),
                self@.batch_size,
            ),
            uniform_targets(
                run.targets(),
                session_hosts(self@.sessions),
                JobView::SftpWrite {
                    local_path: local_path@,
                    remote_path: match remote_path {
                        Some(r) => r@,
                        None => local_path@,
                    },
                },
            ),
    {
        let job = Job::SftpWrite {
            local_path: String::from_str(local_path),
            remote_path: upload_target(local_path, remote_path),
        };
        let targets = self.broadcast(&job);
        FanOut::new(OperationKind::SftpWrite, None, targets, self.batch_size)
    }

    /// Plans the download of a remote file from every host.
    pub fn sftp_read(&self, remote_path: &str, local_path: Option<String>) -> (run: FanOut)
        requires
            self.wf(),
        ensures
            run.wf(),
            run@ == fresh_run(
                OperationKind::SftpRead,
                None,
                session_hosts(self@.sessions),
                self@.batch_size,
            ),
            uniform_targets(
                run.targets(),
                session_hosts(self@.sessions),
                JobView::SftpRead { remote_path: remote_path@, save_to: opt_text(local_path) },
            ),
    {
        let job = Job::SftpRead { remote_path: String::from_str(remote_path), save_to: local_path };
        let targets = self.broadcast(&job);
        FanOut::new(OperationKind::SftpRead, None, targets, self.batch_size)
    }

    /// Plans the upload of the given text to a file on every host.
    pub fn sftp_write_data(&self, data: &str, remote_path: &str) -> (run: FanOut)
        requires
            self.wf(),
        ensures
            run.wf(),
            run@ == fresh_run(
                OperationKind::SftpWriteData,
                None,
                session_hosts(self@.sessions),
                self@.batch_size,
            ),
            uniform_targets(
                run.targets(),
                session_hosts(self@.sessions),
                JobView::SftpWriteData { data: data@, remote_path: remote_path@ },
            ),
    {
        let job = Job::SftpWriteData {
            data: String::from_str(data),
            remote_path: String::from_str(remote_path),
        };
        let targets = self.broadcast(&job);
        FanOut::new(OperationKind::SftpWriteData, None, targets, self.batch_size)
    }

    /// A tailer of the same file on every host.
    pub fn tail(&self, remote_file: &str) -> (t: MultiFileTailer)
        requires
            self.wf(),
        ensures
            t.wf(),
            t@ == (MultiTailerView {
                hosts: session_hosts(self@.sessions),
                files: Seq::new(self@.sessions.len(), |i: int| remote_file@),
                batch_size: self@.batch_size,
                contents: Map::empty(),
            }),
    {
        let mut hosts: Vec<String> = Vec::new();
        let mut files: Vec<String> = Vec::new();
        let mut i: usize = 0;
        while i < self.hosts.len()
            invariant
                self.wf(),
                i <= self.hosts.len(),
                hosts@.len() == i,
                files@.len() == i,
                forall|k: int| 0 <= k < i ==> (#[trigger] hosts@[k])@ == self.hosts@[k]@,
                forall|k: int| 0 <= k < i ==> (#[trigger] files@[k])@ == remote_file@,
            decreases self.hosts.len() - i,
        {
            hosts.push(self.hosts[i].clone());
            files.push(String::from_str(remote_file));
            i += 1;
        }
        let t = MultiFileTailer::new(hosts, files, self.batch_size);
        assert(t@.hosts =~= session_hosts(self@.sessions));
        assert(t@.files =~= Seq::new(self@.sessions.len(), |i: int| remote_file@));
        t
    }

    /// A tailer of one file per host: only the hosts that the mapping
    /// holds get a tailer, each on its own file.
    pub fn tail_map(&self, host_file_map: &Vec<(String, String)>) -> (t: MultiFileTailer)
        requires
            self.wf(),
        ensures
            t.wf(),
            t@.batch_size == self@.batch_size,
            t@.contents == Map::<Seq<char>, Seq<char>>::empty(),
            t@.hosts.len() == t@.files.len(),
            t@.hosts.len() == mapped(
                session_hosts(self@.sessions),
                map_views(host_file_map@),
                self@.sessions.len(),
            ).len(),
            forall|k: int|
                0 <= k < t@.hosts.len() ==> {
                    let p = mapped(
                        session_hosts(self@.sessions),
                        map_views(host_file_map@),
                        self@.sessions.len(),
                    )[k];
                    (#[trigger] t@.hosts[k]) == p.host && t@.files[k] == p.argument
                },
    {
        let mut hosts: Vec<String> = Vec::new();
        let mut files: Vec<String> = Vec::new();
        let mut i: usize = 0;
        let ghost pool = session_hosts(self@.sessions);
        let ghost map = map_views(host_file_map@);
        while i < self.hosts.len()
            invariant
                self.wf(),
                i <= self.hosts.len(),
                pool == session_hosts(self@.sessions),
                map == map_views(host_file_map@),
                hosts@.len() == files@.len(),
                hosts@.len() == mapped(pool, map, i as nat).len(),
                forall|k: int|
                    0 <= k < hosts@.len() ==> (#[trigger] hosts@[k])@ == mapped(
                        pool,
                        map,
                        i as nat,
                    )[k].host && files@[k]@ == mapped(pool, map, i as nat)[k].argument,
            decreases self.hosts.len() - i,
        {
            match lookup_command(host_file_map, &self.hosts[i]) {
                Some(file) => {
                    hosts.push(self.hosts[i].clone());
                    files.push(file);
                },
                None => {},
            }
            i += 1;
        }
        MultiFileTailer::new(hosts, files, self.batch_size)
    }

    /// Takes the results of a connect into the pool: each session whose
    /// host succeeded is connected; where failures are pruned, the others
    /// leave the pool and the survivors keep their order.
    pub fn settle(&mut self, results: &MultiResult, prune_failures: bool)
        requires
            old(self).wf(),
            results.wf(),
        ensures
            final(self).wf(),
            final(self)@ == (ControllerView {
                sessions: settled(old(self)@.sessions, results@, prune_failures),
                ..old(self)@
            }),
    {
        let mut sessions: Vec<AsyncConnection> = Vec::new();
        let mut hosts: Vec<String> = Vec::new();
        let mut i: usize = 0;
        let ghost all = self@.sessions;
        assert(all.take(0) =~= Seq::<AsyncConnectionView>::empty());
        assert(session_views(sessions@) =~= settled(all.take(0), results@, prune_failures));
        while i < self.connections.len()
            invariant
                self.wf(),
                results.wf(),
                *self == *old(self),
                all == self@.sessions,
                i <= self.connections.len(),
                hosts@.len() == sessions@.len(),
                forall|k: int|
                    0 <= k < hosts@.len() ==> (#[trigger] hosts@[k])@ == sessions@[k]@.host,
                session_views(sessions@) == settled(all.take(i as int), results@, prune_failures),
            decreases self.connections.len() - i,
        {
            let ghost before = session_views(sessions@);
            proof {
                let next = all.take(i as int + 1);
                assert(next.drop_last() =~= all.take(i as int));
                assert(next.last() == self.connections@[i as int]@);
            }
            if results.succeeded_on(&self.hosts[i]) {
                let mut session = self.connections[i].clone();
                session.mark_connected();
                sessions.push(session);
                hosts.push(self.hosts[i].clone());
                assert(session_views(sessions@) =~= before.push(
                    connected(self.connections@[i as int]@),
                ));
            } else if !prune_failures {
                sessions.push(self.connections[i].clone());
                hosts.push(self.hosts[i].clone());
                assert(session_views(sessions@) =~= before.push(self.connections@[i as int]@));
            }
            i += 1;
        }
        assert(all.take(i as int) =~= all);
        self.connections = sessions;
        self.hosts = hosts;
    }

    /// Ends a connect. While tasks run or are left to start there is
    /// nothing to hand back and the pool stays as it is; so it does when
    /// the connect failed as a whole. Otherwise the results come back, with
    /// exactly the hosts of the pool before as keys, and the pool is
    /// settled by them.
    pub fn finish_connect(&mut self, run: FanOut, prune_failures: bool) -> (outcome: Option<
        Result<MultiResult, FanOutError>,
    >)
        requires
            old(self).wf(),
            run.wf(),
        ensures
            final(self).wf(),
            outcome.is_some() <==> is_over(run@.schedule),
            match outcome {
                Some(Ok(m)) => run@.failure.is_none() && m.wf() && m@ == run@.results && m@.dom()
                    == run@.hosts.to_set() && final(self)@ == (ControllerView {
                    sessions: settled(old(self)@.sessions, m@, prune_failures),
                    ..old(self)@
                }),
                Some(Err(e)) => run@.failure == Some(e@) && final(self)@ == old(self)@,
                None => final(self)@ == old(self)@,
            },
    {
        match run.finish() {
            Some(Ok(m)) => {
                self.settle(&m, prune_failures);
                Some(Ok(m))
            },
            Some(Err(e)) => Some(Err(e)),
            None => None,
        }
    }

    /// Closes every session. Tells how many connections have to be
    /// dropped: one for each session that was connected. Closing again
    /// changes nothing and drops none.
    pub fn close(&mut self) -> (dropped: usize)
        requires
            old(self).wf(),
        ensures
            final(self).wf(),
            final(self)@ == (ControllerView {
                sessions: all_closed(old(self)@.sessions),
                ..old(self)@
            }),
            dropped == connected_count(old(self)@.sessions),
    {
        let mut sessions: Vec<AsyncConnection> = Vec::new();
        let mut dropped: usize = 0;
        let mut i: usize = 0;
        let ghost all = self@.sessions;
        assert(all.take(0) =~= Seq::<AsyncConnectionView>::empty());
        while i < self.connections.len()
            invariant
                self.wf(),
                *self == *old(self),
                all == self@.sessions,
                i <= self.connections.len(),
                dropped == connected_count(all.take(i as int)),
                dropped <= i,
                sessions@.len() == i,
                forall|k: int|
                    0 <= k < i ==> (#[trigger] sessions@[k])@ == closed_session(
                        self.connections@[k]@,
                    ),
            decreases self.connections.len() - i,
        {
            proof {
                let next = all.take(i as int + 1);
                assert(next.drop_last() =~= all.take(i as int));
                assert(next.last() == self.connections@[i as int]@);
            }
            let mut session = self.connections[i].clone();
            if session.close() {
                dropped += 1;
            }
            sessions.push(session);
            i += 1;
        }
        assert(all.take(i as int) =~= all);
        assert(session_views(sessions@) =~= all_closed(self@.sessions));
        self.connections = sessions;
        dropped
    }

    /// The debugging form: the number of hosts and the batch size.
    pub fn repr(&self) -> (text: String)
        ensures
            text@ == controller_repr(self@.sessions.len(), self@.batch_size),
    {
        let mut text = String::from_str("MultiConnection(");
        push_decimal(&mut text, self.connections.len() as u64);
        text.append(" hosts, batch_size=");
        push_decimal(&mut text, self.batch_size as u64);
        text.append(")");
        text
    }
}

fn copy_text(s: &Option<String>) -> (r: Option<String>)
    ensures
        r == *s,
{
    match s {
        Some(t) => Some(t.clone()),
        None => None,
    }
}

} // verus!
