use hussh::scheduler::Scheduler;
use hussh::scheduler::Step;

#[test]
fn scheduler_starts_in_order_up_to_the_batch() {
    let mut s = Scheduler::new(5, 2);
    assert_eq!(s.poll(), Step::Spawn(0));
    assert_eq!(s.poll(), Step::Spawn(1));
    assert_eq!(s.poll(), Step::Wait);
    assert_eq!(s.active(), 2);
    assert!(s.complete(0));
    assert_eq!(s.poll(), Step::Spawn(2));
    assert_eq!(s.poll(), Step::Wait);
    assert!(s.complete(2));
    assert!(s.complete(1));
    assert_eq!(s.poll(), Step::Spawn(3));
    assert_eq!(s.poll(), Step::Spawn(4));
    assert_eq!(s.poll(), Step::Wait);
    assert!(s.complete(3));
    assert!(!s.is_done());
    assert!(s.complete(4));
    assert_eq!(s.poll(), Step::Done);
    assert!(s.is_done());
}

#[test]
fn scheduler_rejects_tasks_that_do_not_run() {
    let mut s = Scheduler::new(3, 3);
    assert!(!s.complete(0));
    assert_eq!(s.poll(), Step::Spawn(0));
    assert!(!s.complete(1));
    assert!(!s.complete(7));
    assert!(s.complete(0));
    assert!(!s.complete(0));
    assert_eq!(s.active(), 0);
}

#[test]
fn scheduler_batch_cap_500_hosts() {
    let mut s = Scheduler::new(500, 50);
    let mut running: Vec<usize> = Vec::new();
    let mut peak = 0usize;
    let mut finished = 0usize;
    loop {
        match s.poll() {
            Step::Spawn(i) => running.push(i),
            Step::Wait => {
                let i = running.remove(running.len() / 2);
                assert!(s.complete(i));
                finished += 1;
            }
            Step::Done => break,
        }
        assert!(s.active() <= 50);
        assert_eq!(s.active(), running.len());
        if s.active() > peak {
            peak = s.active();
        }
    }
    assert_eq!(peak, 50);
    assert_eq!(finished, 500);
    assert_eq!(s.total(), 500);
    assert_eq!(s.batch_size(), 50);
}

#[test]
fn scheduler_halt_stops_new_tasks() {
    let mut s = Scheduler::new(4, 2);
    assert_eq!(s.poll(), Step::Spawn(0));
    s.halt();
    assert_eq!(s.poll(), Step::Wait);
    assert!(s.complete(0));
    assert_eq!(s.poll(), Step::Done);
    assert!(s.is_done());
}

#[test]
fn scheduler_without_tasks_is_done() {
    let mut s = Scheduler::new(0, 1);
    assert!(s.is_done());
    assert_eq!(s.poll(), Step::Done);
}
