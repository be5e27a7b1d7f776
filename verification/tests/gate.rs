use maestro::gate::{
    hermetic_scrub_keys, scope_check, scope_verdict, CommandReply, GateOutcome, GateRun, GateStep,
    OUTPUT_DIGEST_CAP, TIGHTENED_FILES_CAP,
};

fn strings(v: &[&str]) -> Vec<String> {
    v.iter().map(|s| s.to_string()).collect()
}

fn ran(success: bool, stdout: &str) -> CommandReply {
    CommandReply::Ran { success, stdout: stdout.to_string(), stderr: String::new() }
}

/// Runs a whole gate; each command gets its reply in turn.
fn run(
    changed: &[&str],
    allowlist: &[&str],
    cap: Option<usize>,
    commands: &[&str],
    replies: Vec<CommandReply>,
) -> Result<GateOutcome, String> {
    let commands = strings(commands);
    let (mut run, mut step) =
        GateRun::begin(Some(strings(changed)), &strings(allowlist), cap, &commands);
    let mut replies = replies.into_iter();
    loop {
        step = match step {
            GateStep::Run { .. } => run.on_command(&commands, replies.next().unwrap()),
            GateStep::Done(outcome) => return Ok(outcome),
            GateStep::Broken(m) => return Err(m),
        };
    }
}

#[test]
fn in_allowlist_change_passes() {
    match run(&["src.rs"], &["*.rs"], None, &[], vec![]).unwrap() {
        GateOutcome::Passed { changed } => assert_eq!(changed, vec!["src.rs".to_string()]),
        other => panic!("expected Passed, got {other:?}"),
    }
}

#[test]
fn out_of_allowlist_change_is_scope_violation() {
    match run(&["evil.txt"], &["*.rs"], None, &[], vec![]).unwrap() {
        GateOutcome::ScopeViolation { offending } => {
            assert_eq!(offending, vec!["evil.txt".to_string()]);
        }
        other => panic!("expected ScopeViolation, got {other:?}"),
    }
}

#[test]
fn empty_allowlist_with_change_is_violation() {
    let out = run(&["a.rs"], &[], None, &[], vec![]).unwrap();
    assert!(matches!(out, GateOutcome::ScopeViolation { .. }));
}

#[test]
fn failing_check_command_is_checks_failed() {
    let out = run(&["a.rs"], &["*.rs"], None, &["exit 3"], vec![ran(false, "boom")]).unwrap();
    match out {
        GateOutcome::ChecksFailed { command, output_digest, changed } => {
            assert_eq!(command, "exit 3");
            assert_eq!(output_digest, "boom");
            assert_eq!(changed, strings(&["a.rs"]));
        }
        other => panic!("expected ChecksFailed, got {other:?}"),
    }
}

#[test]
fn check_command_env_is_scrubbed_of_daemon_config() {
    let keys = strings(&["XDG_CONFIG_HOME", "MAESTRO_PROFILE", "XDG_CACHE_HOME", "PATH", "HOME"]);
    let scrubbed = hermetic_scrub_keys(&keys);
    assert!(scrubbed.contains(&"XDG_CONFIG_HOME".to_string()));
    assert!(scrubbed.contains(&"MAESTRO_PROFILE".to_string()));
    assert!(!scrubbed.contains(&"XDG_CACHE_HOME".to_string()));
    assert!(!scrubbed.contains(&"PATH".to_string()));
    assert!(!scrubbed.contains(&"HOME".to_string()));
}

#[test]
fn tightened_cap_exceeded_when_changed_over_cap() {
    let out = run(&["f0.rs", "f1.rs", "f2.rs"], &["*.rs"], Some(2), &[], vec![]).unwrap();
    match out {
        GateOutcome::TightenedScopeExceeded { changed, cap, files } => {
            assert_eq!((changed, cap), (3, 2));
            assert_eq!(files, strings(&["f0.rs", "f1.rs", "f2.rs"]));
        }
        other => panic!("expected TightenedScopeExceeded, got {other:?}"),
    }
}

#[test]
fn tightened_cap_at_boundary_passes() {
    let out = run(&["f0.rs", "f1.rs"], &["*.rs"], Some(2), &[], vec![]).unwrap();
    assert!(matches!(out, GateOutcome::Passed { .. }));
}

#[test]
fn tightened_cap_none_never_violates() {
    let out = run(&["f0.rs", "f1.rs", "f2.rs"], &["*.rs"], None, &[], vec![]).unwrap();
    assert!(matches!(out, GateOutcome::Passed { .. }));
}

#[test]
fn out_of_allowlist_wins_over_tightened_cap() {
    let out =
        run(&["f0.rs", "f1.rs", "f2.rs", "evil.txt"], &["*.rs"], Some(2), &[], vec![]).unwrap();
    assert!(matches!(out, GateOutcome::ScopeViolation { .. }));
}

#[test]
fn every_command_runs_until_one_fails() {
    let commands = strings(&["one", "two", "three"]);
    let (mut run, step) =
        GateRun::begin(Some(strings(&["a.rs"])), &strings(&["*.rs"]), None, &commands);
    match step {
        GateStep::Run { command, args } => {
            assert_eq!(command, "one");
            assert_eq!(args, strings(&["-lc", "one"]));
        }
        other => panic!("expected a command, got {other:?}"),
    }
    assert!(matches!(
        run.on_command(&commands, ran(true, "")),
        GateStep::Run { command, .. } if command == "two"
    ));
    assert!(matches!(
        run.on_command(&commands, ran(false, "x")),
        GateStep::Done(GateOutcome::ChecksFailed { command, .. }) if command == "two"
    ));
}

#[test]
fn output_is_cut_by_characters() {
    let long = "é".repeat(OUTPUT_DIGEST_CAP + 5);
    match run(&["a"], &["a"], None, &["c"], vec![ran(false, &long)]).unwrap() {
        GateOutcome::ChecksFailed { output_digest, .. } => {
            assert_eq!(output_digest.chars().count(), OUTPUT_DIGEST_CAP);
        }
        other => panic!("expected ChecksFailed, got {other:?}"),
    }
}

#[test]
fn broken_runs_say_what_broke() {
    assert_eq!(
        run(&["a"], &["["], None, &[], vec![]).unwrap_err(),
        "invalid allowlist glob \"[\""
    );
    assert_eq!(
        run(&["a"], &["a"], None, &["make \"x\""], vec![CommandReply::SpawnFailed]).unwrap_err(),
        "spawning check command \"make \\\"x\\\"\""
    );
    assert_eq!(
        run(&["a"], &["a"], None, &["m"], vec![CommandReply::WrapFailed]).unwrap_err(),
        "wrapping check command \"m\" for containment"
    );
    let (_, step) = GateRun::begin(None, &vec![], None, &vec![]);
    assert!(matches!(step, GateStep::Broken(m) if m == "computing changed files for scope check"));
}

#[test]
fn the_scope_is_decided_path_by_path() {
    let changed = strings(&["a", "b", "c"]);
    match scope_verdict(&changed, &vec![true, false, false], None) {
        Some(GateOutcome::ScopeViolation { offending }) => {
            assert_eq!(offending, strings(&["b", "c"]));
        }
        other => panic!("expected a violation, got {other:?}"),
    }
    assert!(scope_verdict(&changed, &vec![true, true, true], Some(3)).is_none());
    // Globs match across directories unless they say otherwise.
    assert!(scope_check(&strings(&["x/y.rs"]), &strings(&["**/*.rs"]), None).unwrap().is_none());
    let many: Vec<String> = (0..60).map(|i| format!("f{i}")).collect();
    match scope_check(&many, &strings(&["f*"]), Some(1)).unwrap() {
        Some(GateOutcome::TightenedScopeExceeded { changed, files, .. }) => {
            assert_eq!(changed, 60);
            assert_eq!(files.len(), TIGHTENED_FILES_CAP);
        }
        other => panic!("expected too many files, got {other:?}"),
    }
}
