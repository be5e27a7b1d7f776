use std::cell::{Cell, RefCell};

use maestro::daemon::{
    ensure_daemon, try_connect, version_skew_error, wait_until_live, EnsureAnswer, EnsurePhase,
    EnsureRun, HelloOutcome, Poll, PollStep, ProbeReply,
};
use maestro::locate::{
    resolve_bwrap, resolve_daemon_bin, resolve_mcp_bin, sibling_candidates, PathEntry, NO_BWRAP,
};

struct NoopLock;

const OURS: u32 = 3;

#[test]
fn cold_start_spawns_once_then_live() {
    let spawns = Cell::new(0u32);
    let spawned_flag = Cell::new(false);

    let out = ensure_daemon(
        |_: Option<&NoopLock>| {
            if spawned_flag.get() {
                Some(HelloOutcome::Compatible { pid: 4242 })
            } else {
                None
            }
        },
        || Ok(NoopLock),
        |_: &NoopLock| {
            spawns.set(spawns.get() + 1);
            spawned_flag.set(true);
            Ok(())
        },
        |_: &NoopLock| Some(HelloOutcome::Compatible { pid: 4242 }),
        OURS,
        "/data/daemon.log",
    )
    .expect("cold start should succeed");

    assert_eq!(spawns.get(), 1, "cold start must spawn exactly once");
    assert_eq!(out.spawned, 1);
    assert_eq!(out.pid, 4242);
}

#[test]
fn loser_does_not_spawn() {
    let spawns = Cell::new(0u32);
    let calls = Cell::new(0u32);

    let out = ensure_daemon(
        |_: Option<&NoopLock>| {
            let n = calls.get();
            calls.set(n + 1);
            if n == 0 {
                None
            } else {
                Some(HelloOutcome::Compatible { pid: 7 })
            }
        },
        || Ok(NoopLock),
        |_: &NoopLock| {
            spawns.set(spawns.get() + 1);
            Ok(())
        },
        |_: &NoopLock| panic!("loser must never reach the wait-until-live poller"),
        OURS,
        "/data/daemon.log",
    )
    .expect("loser path should succeed");

    assert_eq!(spawns.get(), 0, "loser must spawn ZERO times");
    assert_eq!(out.spawned, 0);
    assert_eq!(out.pid, 7);
}

#[test]
fn version_mismatch_errors_and_never_spawns() {
    let spawns = Cell::new(0u32);

    let err = ensure_daemon(
        |_: Option<&NoopLock>| Some(HelloOutcome::Incompatible { reported: 999 }),
        || Ok(NoopLock),
        |_: &NoopLock| {
            spawns.set(spawns.get() + 1);
            Ok(())
        },
        |_: &NoopLock| panic!("must not poll after a version mismatch"),
        OURS,
        "/data/daemon.log",
    )
    .expect_err("version mismatch must be an error");

    assert_eq!(spawns.get(), 0, "version mismatch must spawn ZERO times");
    let msg = err.full();
    assert!(msg.contains("daemon restart"), "got: {msg}");
}

#[test]
fn version_mismatch_under_lock_never_spawns() {
    let spawns = Cell::new(0u32);
    let calls = Cell::new(0u32);

    let err = ensure_daemon(
        |_: Option<&NoopLock>| {
            let n = calls.get();
            calls.set(n + 1);
            if n == 0 {
                None
            } else {
                Some(HelloOutcome::Incompatible { reported: 42 })
            }
        },
        || Ok(NoopLock),
        |_: &NoopLock| {
            spawns.set(spawns.get() + 1);
            Ok(())
        },
        |_: &NoopLock| panic!("must not poll after a version mismatch"),
        OURS,
        "/data/daemon.log",
    )
    .expect_err("mismatch under lock must error");

    assert_eq!(spawns.get(), 0);
    assert!(err.full().contains("daemon restart"));
}

#[test]
fn a_daemon_that_never_answers_is_an_error() {
    let err = ensure_daemon(
        |_: Option<&NoopLock>| None,
        || Ok(NoopLock),
        |_: &NoopLock| Ok(()),
        |_: &NoopLock| None,
        OURS,
        "/data/daemon.log",
    )
    .unwrap_err();
    assert_eq!(
        err.full(),
        "spawned the daemon but it did not become reachable in time; check the daemon log at /data/daemon.log"
    );
}

#[test]
fn locking_and_spawning_may_fail() {
    let err = ensure_daemon(
        |_: Option<&NoopLock>| None,
        || Err::<NoopLock, String>("busy".to_string()),
        |_: &NoopLock| Ok(()),
        |_: &NoopLock| None,
        OURS,
        "/l",
    )
    .unwrap_err();
    assert_eq!(err.full(), "acquiring daemon spawn lock: busy");
    let err = ensure_daemon(
        |_: Option<&NoopLock>| None,
        || Ok(NoopLock),
        |_: &NoopLock| Err("no such file".to_string()),
        |_: &NoopLock| None,
        OURS,
        "/l",
    )
    .unwrap_err();
    assert_eq!(err.full(), "spawning daemon: no such file");
}

#[test]
fn a_client_asks_in_order() {
    let mut run = EnsureRun::start(OURS, "/l");
    assert_eq!(run.phase(), EnsurePhase::Probe);
    assert!(run.on(EnsureAnswer::Probed(None)).is_none());
    assert_eq!(run.phase(), EnsurePhase::Lock);
    assert!(run.on(EnsureAnswer::Locked(None)).is_none());
    assert_eq!(run.phase(), EnsurePhase::Recheck);
    assert!(run.on(EnsureAnswer::Probed(None)).is_none());
    assert_eq!(run.phase(), EnsurePhase::Spawn);
    assert!(run.on(EnsureAnswer::Spawned(None)).is_none());
    assert_eq!(run.phase(), EnsurePhase::Wait);
    let end = run.on(EnsureAnswer::Probed(Some(HelloOutcome::Compatible { pid: 1 })));
    assert_eq!(end.unwrap().unwrap().spawned, 1);
    assert_eq!(run.phase(), EnsurePhase::Over);
}

/// Lets two clients take turns in the order given, on a machine where a spawned
/// daemon answers once its client has waited for it. Gives the number of daemons
/// spawned and whether both clients are done.
fn race(order: &[usize]) -> (u32, bool) {
    let mut runs = [EnsureRun::start(OURS, "/l"), EnsureRun::start(OURS, "/l")];
    let mut holder: Option<usize> = None;
    let mut live = false;
    let mut spawned = 0;
    for &who in order {
        let seen = Some(HelloOutcome::Compatible { pid: 5 });
        let answer = match runs[who].phase() {
            EnsurePhase::Probe | EnsurePhase::Recheck => {
                EnsureAnswer::Probed(if live { seen } else { None })
            }
            EnsurePhase::Lock => {
                if holder.is_some() {
                    continue;
                }
                holder = Some(who);
                EnsureAnswer::Locked(None)
            }
            EnsurePhase::Spawn => {
                spawned += 1;
                EnsureAnswer::Spawned(None)
            }
            EnsurePhase::Wait => {
                live = true;
                EnsureAnswer::Probed(seen)
            }
            EnsurePhase::Over => continue,
        };
        let _ = runs[who].on(answer);
        if runs[who].phase() == EnsurePhase::Over && holder == Some(who) {
            holder = None;
        }
    }
    let done = runs.iter().all(|r| r.phase() == EnsurePhase::Over);
    (spawned, done)
}

#[test]
fn two_racers_spawn_one_daemon() {
    assert_eq!(race(&[0, 1, 0, 1, 0, 1, 0, 1, 0, 1, 1, 1]), (1, true));
    assert_eq!(race(&[0, 1, 1, 0, 1, 1, 1, 0, 0]), (1, true));
    assert_eq!(race(&[0, 0, 0, 0, 0, 1]), (1, true));
    assert_eq!(race(&[0, 1, 0, 0, 1, 1]), (0, false));
}

#[test]
fn versions_are_compared_exactly() {
    assert_eq!(
        try_connect(ProbeReply::Hello { protocol_version: 3, pid: 9 }, 3),
        Some(HelloOutcome::Compatible { pid: 9 })
    );
    assert_eq!(
        try_connect(ProbeReply::Hello { protocol_version: 4, pid: 9 }, 3),
        Some(HelloOutcome::Incompatible { reported: 4 })
    );
    assert_eq!(try_connect(ProbeReply::Other, 3), None);
    assert_eq!(try_connect(ProbeReply::Unreachable, 3), None);
    let words = version_skew_error(4, 3).full();
    assert!(words.starts_with(
        "daemon protocol version mismatch: daemon reports 4, this CLI speaks 3. "
    ));
}

#[test]
fn waiting_pauses_between_looks_and_gives_up() {
    let looks = Cell::new(0u32);
    let pauses = Cell::new(0u32);
    let got = wait_until_live(
        |_| {
            looks.set(looks.get() + 1);
            if looks.get() == 3 {
                Some(HelloOutcome::Compatible { pid: 5 })
            } else {
                None
            }
        },
        |_| pauses.set(pauses.get() + 1),
        10,
    );
    assert_eq!(got, Some(HelloOutcome::Compatible { pid: 5 }));
    assert_eq!((looks.get(), pauses.get()), (3, 2));

    let looks = Cell::new(0u32);
    let pauses = Cell::new(0u32);
    let got = wait_until_live(
        |_| {
            looks.set(looks.get() + 1);
            None
        },
        |_| pauses.set(pauses.get() + 1),
        4,
    );
    assert_eq!(got, None);
    assert_eq!((looks.get(), pauses.get()), (4, 3));
    assert_eq!(wait_until_live(|_| panic!("no look is allowed"), |_| (), 0), None);
}

#[test]
fn looks_and_pauses_are_numbered() {
    let order = RefCell::new(Vec::new());
    let got = wait_until_live(
        |look| {
            order.borrow_mut().push(format!("look {look}"));
            (look == 2).then_some(HelloOutcome::Compatible { pid: 8 })
        },
        |look| order.borrow_mut().push(format!("pause {look}")),
        5,
    );
    assert_eq!(got, Some(HelloOutcome::Compatible { pid: 8 }));
    assert_eq!(*order.borrow(), ["look 0", "pause 1", "look 1", "pause 2", "look 2"]);
}

#[test]
fn everything_after_the_lock_is_done_with_it() {
    let looks = RefCell::new(Vec::new());
    let out = ensure_daemon(
        |held: Option<&u32>| {
            looks.borrow_mut().push(held.copied());
            None
        },
        || Ok(17u32),
        |held: &u32| if *held == 17 { Ok(()) } else { Err("not held".to_string()) },
        |held: &u32| Some(HelloOutcome::Compatible { pid: *held }),
        OURS,
        "/l",
    )
    .unwrap();
    assert_eq!((out.spawned, out.pid), (1, 17));
    assert_eq!(*looks.borrow(), [None, Some(17)]);
}

#[test]
fn polls_count_their_looks() {
    let (mut poll, step) = Poll::start(2);
    assert_eq!(step, PollStep::Look);
    assert_eq!(poll.on_look(false), PollStep::Pause);
    assert_eq!(poll.on_look(false), PollStep::GiveUp);
    let (_, step) = Poll::start(0);
    assert_eq!(step, PollStep::GiveUp);
    let (mut poll, _) = Poll::start(1);
    assert_eq!(poll.on_look(true), PollStep::Found);
}

#[test]
fn resolve_daemon_bin_honors_env() {
    let siblings = vec!["/bin/maestro-daemon".to_string()];
    let got = resolve_daemon_bin(
        &Some("/tmp/custom-maestro-daemon".to_string()),
        &siblings,
        &vec![true],
    );
    assert_eq!(got, "/tmp/custom-maestro-daemon");
}

#[test]
fn resolve_mcp_bin_honors_env() {
    let got =
        resolve_mcp_bin(&Some("/tmp/custom-maestro-mcp".to_string()), &vec![], &vec![]);
    assert_eq!(got, "/tmp/custom-maestro-mcp");
}

#[test]
fn programs_are_looked_for_next_to_this_one() {
    let siblings = sibling_candidates(
        &Some("/t/debug/deps".to_string()),
        &Some("/t/debug".to_string()),
        "maestro-daemon",
    );
    assert_eq!(siblings, vec!["/t/debug/deps/maestro-daemon", "/t/debug/maestro-daemon"]);
    assert_eq!(
        resolve_daemon_bin(&None, &siblings, &vec![false, true]),
        "/t/debug/maestro-daemon"
    );
    // An empty override counts as none; the bare name comes last.
    assert_eq!(
        resolve_daemon_bin(&Some(String::new()), &siblings, &vec![false, false]),
        "maestro-daemon"
    );
    assert_eq!(resolve_mcp_bin(&None, &vec![], &vec![]), "maestro-mcp");
    assert!(sibling_candidates(&None, &Some("/t".to_string()), "x").is_empty());
}

#[test]
fn bwrap_is_the_first_program_on_the_path() {
    let entry = |path: &str, is_file: bool, mode: u32| PathEntry {
        path: path.to_string(),
        is_file,
        mode,
    };
    let entries = vec![
        entry("/a/bwrap", true, 0o644),
        entry("/b/bwrap", false, 0o755),
        entry("/c/bwrap", true, 0o755),
        entry("/d/bwrap", true, 0o755),
    ];
    assert_eq!(resolve_bwrap(&entries).as_deref(), Ok("/c/bwrap"));
    assert_eq!(resolve_bwrap(&vec![]).unwrap_err(), NO_BWRAP);
}
