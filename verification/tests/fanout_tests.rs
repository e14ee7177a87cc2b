use hussh::asynchronous::AsyncConnection;
use hussh::fanout::is_exhaustion;
use hussh::fanout::translate;
use hussh::fanout::FanOut;
use hussh::fanout::FanOutError;
use hussh::fanout::Job;
use hussh::fanout::OperationKind;
use hussh::fanout::TaskReport;
use hussh::multi_conn::lookup_command;
use hussh::multi_conn::MultiConnection;
use hussh::multi_result::MultiResult;
use hussh::result::SSHResult;
use hussh::scheduler::Step;
use hussh::session::Connection;
use hussh::session::SessionState;

fn pool(hosts: &[&str], batch_size: Option<usize>) -> MultiConnection {
    MultiConnection::from_shared_auth(
        hosts.iter().map(|h| h.to_string()).collect(),
        Some("user".to_string()),
        Some("pass".to_string()),
        None,
        22,
        0,
        batch_size,
    )
}

/// Runs an operation to its end; `report` says what each target's task reports.
fn drive(
    mut run: FanOut,
    report: &dyn Fn(&str) -> TaskReport,
) -> Result<MultiResult, FanOutError> {
    let mut running: Vec<usize> = Vec::new();
    loop {
        match run.poll() {
            Step::Spawn(i) => running.push(i),
            Step::Wait => {
                let i = running.remove(0);
                let host = run.target(i).expect("a target").host.clone();
                assert!(run.complete(i, report(&host)));
            }
            Step::Done => break,
        }
    }
    assert!(run.is_done());
    run.finish().expect("the operation is over")
}

fn ok_or_panic(r: Result<MultiResult, FanOutError>) -> MultiResult {
    match r {
        Ok(m) => m,
        Err(e) => panic!("{}", e.message()),
    }
}

#[test]
fn fanout_partial_failure() {
    let mc = pool(&["h1", "h2", "h3"], None);
    let run = mc.execute("true", None);
    let mr = ok_or_panic(drive(run, &|host| {
        if host == "h2" {
            TaskReport::Failed("Connection failed: no route to host".to_string())
        } else {
            TaskReport::Output(SSHResult::new(String::new(), String::new(), 0))
        }
    }));
    assert_eq!(mr.len(), 3);
    assert_eq!(mr.get_item("h1").map(|r| r.status), Some(0));
    assert_eq!(mr.get_item("h3").map(|r| r.status), Some(0));
    let h2 = mr.get_item("h2").expect("h2 has a result");
    assert_eq!(h2.status, -1);
    assert_eq!(h2.stderr, "Connection failed: no route to host");
    assert_eq!(h2.stdout, "");
    assert_eq!(mr.failed().map(|f| f.keys()), Some(vec!["h2".to_string()]));
    match mr.raise_if_any_failed() {
        Ok(()) => panic!("h2 failed"),
        Err(e) => {
            assert_eq!(e.failed.map(|f| f.keys()), Some(vec!["h2".to_string()]));
            assert_eq!(e.message, "Operation failed on 1 of 3 host(s)");
        }
    }
}

#[test]
fn fanout_keys_are_the_hosts() {
    let mc = pool(&["a", "b", "c", "d", "e"], Some(2));
    let mr = ok_or_panic(drive(mc.sftp_write_data("text", "/tmp/f"), &|_| TaskReport::Written));
    let mut keys = mr.keys();
    keys.sort();
    let mut hosts = mc.hosts();
    hosts.sort();
    assert_eq!(keys, hosts);
    for r in mr.values() {
        assert_eq!((r.stdout.as_str(), r.stderr.as_str(), r.status), ("Ok", "", 0));
    }
}

#[test]
fn fanout_prune_on_connect() {
    let mut mc = pool(&["h1", "h2", "h3"], None);
    let run = mc.connect(None);
    assert_eq!(run.deadline(), None);
    let mut run = run;
    let mut running = Vec::new();
    loop {
        match run.poll() {
            Step::Spawn(i) => running.push(i),
            Step::Wait => {
                let i = running.pop().expect("a task runs");
                let report = if run.target(i).expect("target").host == "h2" {
                    TaskReport::Failed("Connection failed: refused".to_string())
                } else {
                    TaskReport::Connected
                };
                assert!(run.complete(i, report));
            }
            Step::Done => break,
        }
    }
    let mr = match mc.finish_connect(run, true) {
        Some(Ok(m)) => m,
        _ => panic!("the connect is over and did not fail as a whole"),
    };
    assert_eq!(mr.len(), 3);
    assert_eq!(mr.get_item("h2").map(|r| r.status), Some(-1));
    assert_eq!(mr.get_item("h1").map(|r| (r.stdout, r.stderr, r.status)), Some((String::new(), String::new(), 0)));
    assert_eq!(mc.hosts(), vec!["h1".to_string(), "h3".to_string()]);
    assert_eq!(mc.len(), 2);
    assert_eq!(mc.session(0).map(|s| s.state()), Some(SessionState::Connected));
    assert_eq!(mc.session(1).map(|s| s.get_host()), Some("h3".to_string()));
    let next = ok_or_panic(drive(mc.execute("true", None), &|_| {
        TaskReport::Output(SSHResult::new(String::new(), String::new(), 0))
    }));
    assert_eq!(next.keys(), vec!["h1".to_string(), "h3".to_string()]);
}

#[test]
fn fanout_connect_without_pruning_keeps_hosts() {
    let mut mc = pool(&["h1", "h2"], None);
    let mut run = mc.connect(None);
    assert_eq!(run.poll(), Step::Spawn(0));
    assert_eq!(run.poll(), Step::Spawn(1));
    assert!(run.complete(1, TaskReport::Failed("nope".to_string())));
    assert!(run.complete(0, TaskReport::Connected));
    let mr = match mc.finish_connect(run, false) {
        Some(Ok(m)) => m,
        _ => panic!("the connect is over"),
    };
    assert_eq!(mr.len(), 2);
    assert_eq!(mc.hosts(), vec!["h1".to_string(), "h2".to_string()]);
    assert_eq!(mc.session(0).map(|s| s.state()), Some(SessionState::Connected));
    assert_eq!(mc.session(1).map(|s| s.state()), Some(SessionState::Unconnected));
}

#[test]
fn fanout_finish_connect_waits_for_running_tasks() {
    let mut mc = pool(&["h1", "h2"], None);
    let mut run = mc.connect(None);
    assert_eq!(run.poll(), Step::Spawn(0));
    assert!(mc.finish_connect(run, true).is_none());
    assert_eq!(mc.hosts(), vec!["h1".to_string(), "h2".to_string()]);
}

#[test]
fn fanout_connect_timeout_is_a_result() {
    let mc = pool(&["h1"], None);
    let run = mc.connect(Some(5));
    assert_eq!(run.deadline(), Some(5));
    let mr = ok_or_panic(drive(run, &|_| TaskReport::Elapsed));
    let r = mr.get_item("h1").expect("h1 has a result");
    assert_eq!((r.stdout.as_str(), r.stderr.as_str(), r.status), ("", "Connection timed out", -1));
}

#[test]
fn fanout_connect_deadline_defaults_to_the_controller() {
    let mc = MultiConnection::from_shared_auth(vec!["h".to_string()], None, None, None, 22, 9, None);
    assert_eq!(mc.connect(None).deadline(), Some(9));
    assert_eq!(mc.connect(Some(0)).deadline(), None);
    assert_eq!(mc.connect(Some(3)).deadline(), Some(3));
}

#[test]
fn fanout_execute_timeout_is_a_result() {
    let mc = pool(&["h1", "h2"], None);
    let mr = ok_or_panic(drive(mc.execute("sleep 100", Some(7)), &|host| {
        if host == "h1" {
            TaskReport::Elapsed
        } else {
            TaskReport::Output(SSHResult::new("done".to_string(), String::new(), 0))
        }
    }));
    let r = mr.get_item("h1").expect("h1 has a result");
    assert_eq!(r.stderr, "Operation timed out after 7 seconds");
    assert_eq!(r.status, -1);
    assert_eq!(mr.get_item("h2").map(|r| r.stdout), Some("done".to_string()));
}

#[test]
fn fanout_execute_map_omits_unmapped_hosts() {
    let mc = pool(&["h1", "h2", "h3"], None);
    let map = vec![
        ("h3".to_string(), "uptime".to_string()),
        ("h1".to_string(), "whoami".to_string()),
        ("other".to_string(), "ls".to_string()),
    ];
    let run = mc.execute_map(&map, None);
    let t0 = run.target(0).expect("first target");
    assert_eq!((t0.host.as_str(), t0.session), ("h1", 0));
    assert!(matches!(&t0.job, Job::Execute { command } if command == "whoami"));
    let t1 = run.target(1).expect("second target");
    assert_eq!((t1.host.as_str(), t1.session), ("h3", 2));
    assert!(matches!(&t1.job, Job::Execute { command } if command == "uptime"));
    assert!(run.target(2).is_none());
    let mr = ok_or_panic(drive(run, &|host| {
        TaskReport::Output(SSHResult::new(host.to_string(), String::new(), 0))
    }));
    assert_eq!(mr.keys(), vec!["h1".to_string(), "h3".to_string()]);
    assert!(!mr.contains("h2"));
}

#[test]
fn fanout_lookup_takes_the_later_entry() {
    let map = vec![
        ("h".to_string(), "first".to_string()),
        ("g".to_string(), "x".to_string()),
        ("h".to_string(), "second".to_string()),
    ];
    assert_eq!(lookup_command(&map, &"h".to_string()), Some("second".to_string()));
    assert_eq!(lookup_command(&map, &"g".to_string()), Some("x".to_string()));
    assert_eq!(lookup_command(&map, &"z".to_string()), None);
}

#[test]
fn fanout_descriptor_exhaustion_ends_connect() {
    let mc = pool(&["h1", "h2", "h3"], Some(2));
    let outcome = drive(mc.connect(None), &|host| {
        if host == "h1" {
            TaskReport::Failed("Connection failed: Too many open files (os error 24)".to_string())
        } else {
            TaskReport::Connected
        }
    });
    match outcome {
        Ok(_) => panic!("descriptor exhaustion ends the connect"),
        Err(e) => {
            assert!(matches!(e, FanOutError::TooManyOpenFiles { batch_size: 2 }));
            assert_eq!(
                e.message(),
                "Too many open files. Try reducing batch_size (current: 2) or increasing ulimit -n"
            );
        }
    }
}

#[test]
fn fanout_failure_stops_new_tasks_and_joins_the_rest() {
    let mc = pool(&["h1", "h2", "h3", "h4"], Some(2));
    let mut run = mc.execute("true", None);
    assert_eq!(run.poll(), Step::Spawn(0));
    assert_eq!(run.poll(), Step::Spawn(1));
    assert!(run.complete(0, TaskReport::Failed("EMFILE".to_string())));
    assert_eq!(run.poll(), Step::Wait);
    assert!(!run.is_done());
    assert!(run.finish().is_none());
    let mut run = mc.execute("true", None);
    assert_eq!(run.poll(), Step::Spawn(0));
    assert_eq!(run.poll(), Step::Spawn(1));
    assert!(run.complete(0, TaskReport::Failed("EMFILE".to_string())));
    assert!(run.complete(1, TaskReport::Panicked("later".to_string())));
    assert_eq!(run.poll(), Step::Done);
    match run.finish() {
        Some(Err(e)) => assert!(matches!(e, FanOutError::TooManyOpenFiles { batch_size: 2 })),
        _ => panic!("the first failure is handed back"),
    }
}

#[test]
fn fanout_exhaustion_is_a_result_where_it_is_not_escalated() {
    let mc = pool(&["h1"], None);
    let map = vec![("h1".to_string(), "true".to_string())];
    let mr = ok_or_panic(drive(mc.execute_map(&map, None), &|_| {
        TaskReport::Failed("Too many open files".to_string())
    }));
    assert_eq!(mr.get_item("h1").map(|r| (r.stderr, r.status)), Some(("Too many open files".to_string(), -1)));
    let mr = ok_or_panic(drive(mc.sftp_read("/etc/hostname", None), &|_| {
        TaskReport::Failed("EMFILE".to_string())
    }));
    assert_eq!(mr.get_item("h1").map(|r| r.status), Some(-1));
}

#[test]
fn fanout_task_panic_ends_the_operation() {
    let mc = pool(&["h1", "h2"], None);
    match drive(mc.sftp_write("/tmp/a", None), &|host| {
        if host == "h2" {
            TaskReport::Panicked("JoinError::Panic(..)".to_string())
        } else {
            TaskReport::Written
        }
    }) {
        Ok(_) => panic!("a torn-down task ends the operation"),
        Err(e) => assert_eq!(e.message(), "Task panic: JoinError::Panic(..)"),
    }
}

#[test]
fn fanout_sftp_jobs() {
    let mc = pool(&["h1"], None);
    let run = mc.sftp_write("/local/f", None);
    assert!(matches!(
        &run.target(0).expect("target").job,
        Job::SftpWrite { local_path, remote_path } if local_path == "/local/f" && remote_path == "/local/f"
    ));
    let run = mc.sftp_write("/local/f", Some("/remote/g".to_string()));
    assert!(matches!(
        &run.target(0).expect("target").job,
        Job::SftpWrite { local_path, remote_path } if local_path == "/local/f" && remote_path == "/remote/g"
    ));
    let run = mc.sftp_read("/remote/g", Some("/local/h".to_string()));
    assert!(matches!(
        &run.target(0).expect("target").job,
        Job::SftpRead { remote_path, save_to: Some(l) } if remote_path == "/remote/g" && l == "/local/h"
    ));
    let run = mc.sftp_write_data("payload", "/remote/d");
    assert!(matches!(
        &run.target(0).expect("target").job,
        Job::SftpWriteData { data, remote_path } if data == "payload" && remote_path == "/remote/d"
    ));
    let mr = ok_or_panic(drive(mc.sftp_read("/remote/g", None), &|_| {
        TaskReport::Contents("file text".to_string())
    }));
    assert_eq!(
        mr.get_item("h1").map(|r| (r.stdout, r.stderr, r.status)),
        Some(("file text".to_string(), String::new(), 0))
    );
}

#[test]
fn fanout_translate_each_report() {
    let ok = |r: Result<SSHResult, FanOutError>| match r {
        Ok(v) => (v.stdout, v.stderr, v.status),
        Err(e) => panic!("{}", e.message()),
    };
    assert_eq!(
        ok(translate(OperationKind::Connect, None, 10, TaskReport::Connected)),
        (String::new(), String::new(), 0)
    );
    assert_eq!(
        ok(translate(OperationKind::SftpWrite, None, 10, TaskReport::Written)),
        ("Ok".to_string(), String::new(), 0)
    );
    assert_eq!(
        ok(translate(OperationKind::Execute, None, 10, TaskReport::Elapsed)),
        (String::new(), "Operation timed out after 0 seconds".to_string(), -1)
    );
    assert_eq!(
        ok(translate(OperationKind::ExecuteMap, Some(12), 10, TaskReport::Elapsed)),
        (String::new(), "Operation timed out after 12 seconds".to_string(), -1)
    );
    assert_eq!(
        ok(translate(OperationKind::SftpRead, None, 10, TaskReport::Failed("EMFILE".to_string()))),
        (String::new(), "EMFILE".to_string(), -1)
    );
    assert!(matches!(
        translate(OperationKind::Execute, None, 10, TaskReport::Failed("x EMFILE y".to_string())),
        Err(FanOutError::TooManyOpenFiles { batch_size: 10 })
    ));
    assert!(matches!(
        translate(OperationKind::SftpRead, None, 10, TaskReport::Panicked("p".to_string())),
        Err(FanOutError::TaskPanic { message }) if message == "p"
    ));
}

#[test]
fn fanout_exhaustion_texts() {
    assert!(is_exhaustion("Too many open files"));
    assert!(is_exhaustion("socket: EMFILE"));
    assert!(is_exhaustion("error: Too many open files (os error 24)"));
    assert!(!is_exhaustion("too many open files"));
    assert!(!is_exhaustion("EMFIL"));
    assert!(!is_exhaustion(""));
}

#[test]
fn fanout_reports_of_unknown_tasks_are_dropped() {
    let mc = pool(&["h1", "h2"], Some(1));
    let mut run = mc.execute("true", None);
    assert!(!run.complete(0, TaskReport::Written));
    assert_eq!(run.poll(), Step::Spawn(0));
    assert_eq!(run.active(), 1);
    assert!(!run.complete(1, TaskReport::Written));
    assert!(!run.complete(9, TaskReport::Written));
    assert!(run.complete(0, TaskReport::Output(SSHResult::success())));
    assert!(!run.complete(0, TaskReport::Output(SSHResult::success())));
    assert_eq!(run.poll(), Step::Spawn(1));
}

#[test]
fn fanout_batch_cap() {
    let hosts: Vec<String> = (0..500).map(|i| format!("host{}", i)).collect();
    let mc = MultiConnection::from_shared_auth(hosts, None, None, None, 22, 0, Some(50));
    let mut run = mc.execute("true", None);
    let mut running: Vec<usize> = Vec::new();
    let mut peak = 0;
    loop {
        match run.poll() {
            Step::Spawn(i) => running.push(i),
            Step::Wait => {
                let i = running.remove(0);
                assert!(run.complete(i, TaskReport::Output(SSHResult::success())));
            }
            Step::Done => break,
        }
        assert!(run.active() <= 50);
        peak = peak.max(run.active());
    }
    assert_eq!(peak, 50);
    match run.finish() {
        Some(Ok(m)) => assert_eq!(m.len(), 500),
        _ => panic!("the operation is over"),
    }
}

#[test]
fn controller_defaults_and_repr() {
    let mc = pool(&["h1", "h2"], None);
    assert_eq!(mc.batch_size(), 100);
    assert_eq!(mc.repr(), "MultiConnection(2 hosts, batch_size=100)");
    let mc = pool(&[], Some(7));
    assert_eq!(mc.repr(), "MultiConnection(0 hosts, batch_size=7)");
    let s = AsyncConnection::new("solo".to_string(), None, None, None, 2222, 0, 0);
    let mc = MultiConnection::new(vec![s], Some(3), Some(4));
    assert_eq!(mc.hosts(), vec!["solo".to_string()]);
    assert_eq!(mc.connect(None).deadline(), Some(4));
}

#[test]
fn controller_from_blocking_sessions() {
    let a = Connection::new("a.example", Some(2222), Some("ann"), Some("pw"), None, Some(500));
    let b = Connection::new("b.example", None, None, None, Some("~/.ssh/id_ed25519"), None);
    let mc = MultiConnection::from_connections(&vec![a, b], Some(10), Some(30));
    assert_eq!(mc.hosts(), vec!["a.example".to_string(), "b.example".to_string()]);
    let first = mc.session(0).expect("first session");
    assert_eq!(first.get_port(), 2222);
    assert_eq!(first.login_name(), "ann");
    assert_eq!(first.state(), SessionState::Unconnected);
    assert_eq!(first.connect_deadline(None), Some(30));
    assert_eq!(first.keepalive(), None);
    let second = mc.session(1).expect("second session");
    assert_eq!(second.get_port(), 22);
    assert_eq!(second.login_name(), "root");
    assert!(mc.session(2).is_none());
}

#[test]
fn controller_close_is_idempotent() {
    let mut mc = pool(&["h1", "h2"], None);
    let mut run = mc.connect(None);
    assert_eq!(run.poll(), Step::Spawn(0));
    assert_eq!(run.poll(), Step::Spawn(1));
    assert!(run.complete(0, TaskReport::Connected));
    assert!(run.complete(1, TaskReport::Connected));
    assert!(matches!(mc.finish_connect(run, false), Some(Ok(_))));
    assert_eq!(mc.close(), 2);
    assert_eq!(mc.session(0).map(|s| s.state()), Some(SessionState::Closed));
    assert_eq!(mc.close(), 0);
    assert_eq!(mc.session(1).map(|s| s.state()), Some(SessionState::Closed));
    assert_eq!(mc.hosts(), vec!["h1".to_string(), "h2".to_string()]);
}
