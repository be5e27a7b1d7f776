use maestro::domain::Tier;
use maestro::text::stands_before;
use maestro::progress::{
    age_since, count_by_state, format_age, render_status, render_watch_digest, run_watch,
    scope_to, DigestLine, PsRow, Span, WatchDigest, WatchOutcome, WatchStep,
    WatchTrigger,
};

const NOW: &str = "2026-07-07T12:00:00Z";

/// A row in a state, judged as the states are: which wait for a decision, which
/// are at rest, and what to do about them.
fn row(task_id: &str, state: &str) -> PsRow {
    let action = match state {
        "verify_passed" => Some("merge"),
        "blocked" => Some("diagnose"),
        "failed" => Some("review"),
        _ => None,
    };
    PsRow {
        task_id: task_id.to_string(),
        title: format!("do {task_id}"),
        tier: Tier::T0,
        state: state.to_string(),
        created_at: "2020-01-01T00:00:00Z".to_string(),
        actionable: action.is_some(),
        terminal: action.is_some() || state == "merged",
        action: action.map(str::to_string),
    }
}

/// What the watched rows give to report, if anything.
fn judge(rows: &[PsRow], watched: &[String]) -> Option<WatchDigest> {
    let present: Vec<&PsRow> =
        rows.iter().filter(|r| watched.contains(&r.task_id)).collect();
    let line = |r: &&PsRow| DigestLine {
        task_id: r.task_id.clone(),
        state: r.state.clone(),
        action: r.action.clone().unwrap_or_else(|| "review".to_string()),
        title: r.title.clone(),
    };
    let actionable: Vec<DigestLine> =
        present.iter().filter(|r| r.actionable).map(line).collect();
    if !actionable.is_empty() {
        return Some(WatchDigest { trigger: WatchTrigger::Actionable, lines: actionable });
    }
    if present.iter().all(|r| r.terminal) {
        let lines = present.iter().map(line).collect();
        return Some(WatchDigest { trigger: WatchTrigger::AllTerminal, lines });
    }
    None
}

#[test]
fn format_age_buckets() {
    assert_eq!(format_age(-5), "0s");
    assert_eq!(format_age(0), "0s");
    assert_eq!(format_age(59), "59s");
    assert_eq!(format_age(60), "1m");
    assert_eq!(format_age(3599), "59m");
    assert_eq!(format_age(3600), "1h");
    assert_eq!(format_age(86_400), "1d");
}

#[test]
fn ages_are_taken_from_timestamps() {
    assert_eq!(age_since("2026-07-07T11:59:30Z", NOW), "30s");
    assert_eq!(age_since("2026-07-06T12:00:00Z", NOW), "1d");
    assert_eq!(age_since("2026-07-07T13:00:00Z", NOW), "0s");
    assert_eq!(age_since("long ago", NOW), "?");
    assert_eq!(age_since(NOW, "later"), "?");
}

#[test]
fn status_smoke_renders_all_sections() {
    let tasks = vec![
        row("A", "iterating"),
        row("B", "verify_passed"),
        row("C", "blocked"),
        row("D", "merged"),
        row("E", "checks_failed"),
    ];
    let s = render_status(&tasks, NOW);
    assert!(s.contains("TASK_ID"), "has a header");
    assert!(s.contains("by state:"), "has grouped counts");
    assert!(s.contains("ACTIONABLE:"), "has an actionable section");
    assert!(s.contains("→ merge"), "verify_passed suggests merge");
    assert!(s.contains("→ diagnose"), "blocked suggests diagnose");
    assert!(s.contains("2 working, 2 need attention"), "summary line, got:\n{s}");
    assert!(s.contains("* B"), "B marked needs-attention");
}

#[test]
fn status_empty_is_no_tasks() {
    assert_eq!(render_status(&vec![], NOW), "no tasks\n");
}

#[test]
fn the_status_digest_in_full() {
    let mut t = row("T1", "iterating");
    t.created_at = "2026-07-07T11:00:00Z".to_string();
    t.tier = Tier::T2;
    assert_eq!(
        render_status(&vec![t], NOW),
        format!(
            "{:<28} {:<6} {:<16} {:>6}  TITLE\n{} {:<28} T{:<5} {:<16} {:>6}  {}\n\nby state:\n  {:<16} 1\n\nsummary: 1 working, 0 need attention\n",
            "TASK_ID", "TIER", "STATE", "AGE", " ", "T1", 2, "iterating", "1h", "do T1", "iterating"
        )
    );
}

#[test]
fn counts_are_sorted_by_state() {
    let rows = vec![
        row("1", "queued"),
        row("2", "blocked"),
        row("3", "queued"),
        row("4", "iterating"),
        row("5", "queued"),
    ];
    let counts = count_by_state(&rows);
    assert_eq!(
        counts,
        vec![
            ("blocked".to_string(), 1),
            ("iterating".to_string(), 1),
            ("queued".to_string(), 3)
        ]
    );
    assert!(stands_before("a", "ab"));
    assert!(stands_before("ab", "b"));
    assert!(!stands_before("b", "b"));
    assert!(stands_before("z", "é"));
}

#[test]
fn rows_can_be_scoped_to_a_task() {
    let rows = || vec![row("A", "queued"), row("B", "queued"), row("A", "merged")];
    assert_eq!(scope_to(rows(), None).len(), 3);
    let only: Vec<String> =
        scope_to(rows(), Some("A")).into_iter().map(|r| r.state).collect();
    assert_eq!(only, vec!["queued", "merged"]);
    assert!(scope_to(rows(), Some("C")).is_empty());
}

fn secs(secs: u64) -> Span {
    Span { secs, nanos: 0 }
}

/// Runs a watch over scripted looks at the tasks, on a clock that stands at
/// `elapsed` seconds since the watch began. Returns the outcome, the pauses and the text.
fn watch(
    looks: Vec<Vec<PsRow>>,
    explicit: &[&str],
    timeout: Option<u64>,
    elapsed: u64,
) -> (WatchOutcome, u32, String) {
    let explicit: Vec<String> = explicit.iter().map(|s| s.to_string()).collect();
    let mut looks = looks.into_iter();
    let mut rows = looks.next().unwrap();
    let mut pauses = 0;
    let (mut run, mut step) = run_watch("adv", &explicit, &rows, timeout.map(secs));
    loop {
        step = match step {
            WatchStep::Judge { .. } => {
                let digest = judge(&rows, run.watched());
                run.on_digest(digest)
            }
            WatchStep::Clock => run.on_clock(secs(elapsed)),
            WatchStep::Pause => {
                pauses += 1;
                rows = looks.next().unwrap();
                run.on_pause()
            }
            WatchStep::End { text, outcome } => return (outcome, pauses, text),
        };
    }
}

#[test]
fn watch_polls_through_transient_then_returns_actionable() {
    let looks = vec![
        vec![row("A", "created")],
        vec![row("A", "iterating")],
        vec![row("A", "checks_failed")],
        vec![row("A", "verify_passed")],
    ];
    let (outcome, pauses, text) = watch(looks, &[], Some(3600), 0);
    assert_eq!(outcome, WatchOutcome::Returned);
    assert_eq!(pauses, 3, "slept between each non-returning poll");
    assert_eq!(
        text,
        "watch: a tracked task needs attention:\n  A [verify_passed] → merge  do A\n"
    );
}

#[test]
fn watch_first_poll_actionable_returns_immediately() {
    let (outcome, pauses, _) = watch(vec![vec![row("A", "failed")]], &[], None, 0);
    assert_eq!(outcome, WatchOutcome::Returned);
    assert_eq!(pauses, 0);
}

#[test]
fn watch_all_terminal_at_start_returns_empty_tracked() {
    let (outcome, pauses, text) = watch(vec![vec![row("A", "merged")]], &[], None, 0);
    assert_eq!(outcome, WatchOutcome::Returned);
    assert_eq!(pauses, 0);
    assert_eq!(
        text,
        "watch: no non-terminal tasks to track for advisor adv; nothing to wait on\n"
    );
}

#[test]
fn watch_times_out_when_task_stays_transient() {
    let looks = vec![vec![row("A", "iterating")], vec![row("A", "iterating")]];
    let (outcome, _, text) = watch(looks, &[], Some(10), 1000);
    assert_eq!(outcome, WatchOutcome::TimedOut);
    assert!(text.starts_with("watch: timed out after 10s with no actionable task (tracked 1 task(s));"));
}

#[test]
fn watch_explicit_task_already_actionable_returns() {
    let (outcome, pauses, _) = watch(vec![vec![row("A", "verify_passed")]], &["A"], None, 0);
    assert_eq!(outcome, WatchOutcome::Returned);
    assert_eq!(pauses, 0);
}

#[test]
fn watch_without_a_limit_never_times_out() {
    let looks = vec![
        vec![row("A", "iterating")],
        vec![row("A", "iterating")],
        vec![row("A", "blocked")],
    ];
    let (outcome, pauses, _) = watch(looks, &[], None, u64::MAX);
    assert_eq!(outcome, WatchOutcome::Returned);
    assert_eq!(pauses, 2);
}

#[test]
fn watch_times_out_at_its_limit() {
    let looks = || vec![vec![row("A", "iterating")], vec![row("A", "blocked")]];
    assert_eq!(watch(looks(), &[], Some(10), 10).0, WatchOutcome::TimedOut);
    assert_eq!(watch(looks(), &[], Some(10), 9).0, WatchOutcome::Returned);
    assert_eq!(watch(looks(), &[], Some(0), 0).0, WatchOutcome::TimedOut);
}

#[test]
fn time_limits_may_be_shorter_than_a_second() {
    let rows = vec![row("A", "iterating")];
    let limit = Span { secs: 0, nanos: 500_000_000 };
    let look = |elapsed: Span| {
        let (mut run, _) = run_watch("adv", &vec![], &rows, Some(limit));
        run.on_digest(None);
        run.on_clock(elapsed)
    };
    assert!(matches!(look(Span { secs: 0, nanos: 499_999_999 }), WatchStep::Pause));
    match look(limit) {
        WatchStep::End { text, outcome: WatchOutcome::TimedOut } => {
            assert!(text.starts_with("watch: timed out after 0s with no actionable task"))
        }
        other => panic!("expected a timeout, got {other:?}"),
    }
    assert!(secs(1).reaches(limit) && !limit.reaches(secs(1)));
}

#[test]
fn waiting_tasks_are_not_working() {
    let mut both = row("A", "blocked");
    both.terminal = false;
    let out = render_status(&vec![both, row("B", "queued")], NOW);
    assert!(out.contains("summary: 1 working, 1 need attention\n"), "{out}");
}

#[test]
fn watch_warns_of_tasks_nobody_knows() {
    let rows = vec![row("A", "iterating")];
    let asked = vec!["X".to_string(), "Y".to_string()];
    match run_watch("adv", &asked, &rows, None).1 {
        WatchStep::Judge { warning: Some(w) } => assert_eq!(
            w,
            "watch: warning — none of the requested --task id(s) are known to the daemon (X, Y); check the id(s)"
        ),
        other => panic!("expected a warning, got {other:?}"),
    }
    let asked = vec!["X".to_string(), "A".to_string()];
    assert!(matches!(
        run_watch("adv", &asked, &rows, None).1,
        WatchStep::Judge { warning: None }
    ));
}

#[test]
fn tasks_that_disappeared_are_reported() {
    let digest = WatchDigest { trigger: WatchTrigger::AllTerminal, lines: vec![] };
    assert_eq!(
        render_watch_digest(&digest, 2),
        "watch: none of the 2 tracked task(s) are present anymore (disappeared/pruned); nothing to wait on\n"
    );
}
