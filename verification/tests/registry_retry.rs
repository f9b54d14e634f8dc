use clickr::launch::{must_refuse, ProcessIdentity};
use clickr::registry::{retry_backoff, ListenOutcome, Registry, RescanSchedule};

const SEC: u128 = 1_000_000_000;

#[test]
fn backoff_doubles_from_20s_and_caps_at_600s() {
    assert_eq!(retry_backoff(0), 10 * SEC);
    assert_eq!(retry_backoff(1), 20 * SEC);
    assert_eq!(retry_backoff(2), 40 * SEC);
    assert_eq!(retry_backoff(3), 80 * SEC);
    assert_eq!(retry_backoff(4), 160 * SEC);
    assert_eq!(retry_backoff(5), 320 * SEC);
    assert_eq!(retry_backoff(6), 600 * SEC);
    assert_eq!(retry_backoff(10), 600 * SEC);
    assert_eq!(retry_backoff(u32::MAX), 600 * SEC);
}

#[test]
fn new_registry_allows_everything() {
    let r = Registry::new();
    assert!(r.should_spawn_at(&"/dev/input/event3".to_string(), 0));
    assert!(r.should_spawn(&"/dev/input/event3".to_string()));
}

#[test]
fn running_listener_blocks_a_second_one() {
    let mut r = Registry::new();
    let p = "/dev/input/event3".to_string();
    r.register(&p);
    r.register(&p);
    assert_eq!(r.active.len(), 1);
    assert!(!r.should_spawn_at(&p, 1_000 * SEC));
    assert!(r.should_spawn_at(&"/dev/input/event4".to_string(), 0));
}

#[test]
fn unopenable_device_waits_for_growing_backoff() {
    let mut r = Registry::new();
    let p = "/dev/input/event7".to_string();
    r.register(&p);
    r.listener_finished_at(&p, ListenOutcome::Unopenable, 100 * SEC);
    assert!(!r.should_spawn_at(&p, 119 * SEC));
    assert!(r.should_spawn_at(&p, 120 * SEC));
    r.register(&p);
    r.listener_finished_at(&p, ListenOutcome::Unopenable, 120 * SEC);
    assert_eq!(r.failed.len(), 1);
    assert_eq!(r.failed[0].attempts, 2);
    assert!(!r.should_spawn_at(&p, 159 * SEC));
    assert!(r.should_spawn_at(&p, 160 * SEC));
    // another device is unaffected
    assert!(r.should_spawn_at(&"/dev/input/event8".to_string(), 121 * SEC));
}

#[test]
fn ended_listener_clears_the_failures() {
    let mut r = Registry::new();
    let p = "/dev/input/event7".to_string();
    let q = "/dev/input/event9".to_string();
    r.register(&p);
    r.register(&q);
    r.listener_finished_at(&q, ListenOutcome::Unopenable, 0);
    r.listener_finished_at(&p, ListenOutcome::Unopenable, 0);
    r.register(&p);
    r.listener_finished_at(&p, ListenOutcome::Ended, 1_000 * SEC);
    assert!(r.should_spawn_at(&p, 1_000 * SEC));
    assert_eq!(r.failed.len(), 1);
    assert!(!r.should_spawn_at(&q, 19 * SEC));
    assert!(r.active.is_empty());
}

#[test]
fn listener_finished_reads_the_clock() {
    let mut r = Registry::new();
    let p = "/dev/input/event1".to_string();
    r.register(&p);
    r.listener_finished(&p, ListenOutcome::Unopenable);
    // the retry time lies at least 20 s ahead of now
    assert!(!r.should_spawn(&p));
}

fn id(uid: u32, euid: u32, gid: u32, egid: u32, at_secure: bool) -> ProcessIdentity {
    ProcessIdentity { uid, euid, gid, egid, at_secure }
}

#[test]
fn privileged_processes_are_refused() {
    assert!(!must_refuse(&id(1000, 1000, 1000, 1000, false)));
    assert!(must_refuse(&id(0, 0, 0, 0, false)));
    assert!(must_refuse(&id(1000, 0, 1000, 1000, false)));
    assert!(must_refuse(&id(1000, 1001, 1000, 1000, false)));
    assert!(must_refuse(&id(1000, 1000, 1000, 5, false)));
    assert!(must_refuse(&id(1000, 1000, 1000, 1000, true)));
}

#[test]
fn rescan_is_due_every_ten_seconds() {
    let mut s = RescanSchedule::starting_at(5 * SEC);
    assert!(!s.due_at(14 * SEC));
    assert!(s.due_at(15 * SEC));
    assert_eq!(s.last_scan, 15 * SEC);
    assert!(!s.due_at(20 * SEC));
    assert!(!s.due_at(1 * SEC));
    assert!(s.due_at(26 * SEC));
}
