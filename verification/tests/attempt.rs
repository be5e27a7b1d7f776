use maestro::attempt::{
    driven_log_name, Attempt, AttemptPhase, BackendReply, DiffRequest, DrivenResult, Effect, EndReason, Job,
    Next, Turn, VerifyReply,
};
use maestro::config::{
    AdvisorConfig, Concurrency, ContainmentConfig, ContainmentMin, Defaults, DowngradePolicy,
    LifetimeFactors, Profile, ProxyConfig, RoleModel, Roles, SearchConfig, ShimConfig,
    TightenFactors,
};
use maestro::containment::ContainmentRecipe;
use maestro::domain::{
    EventKind, ExitStatus, Independence, KillKind, Level, NetworkPolicy, SessionKind,
    SessionRole, Tier, Verdict,
};
use maestro::gate::GateOutcome;
use maestro::pipeline::{
    fail, AttemptOutcome, FailedAttempt, Phase, Pipeline, PipelineAction,
};
use maestro::resolve::ResolvedProfile;
use maestro::roles::{Backend, ResolvedRole};
use maestro::task::{Budget, CheckFailure, LifetimeBudget, Report, TaskSpec};

fn bare(model: &str) -> Option<RoleModel> {
    Some(RoleModel::Bare(model.to_string()))
}

fn profile(models: [Option<&str>; 3]) -> ResolvedProfile {
    let defaults = Defaults {
        concurrency: Concurrency { machine_cap: 4, advisor_cap: 2 },
        watchdog_minutes: 10,
        shim: ShimConfig { excerpt_cap_chars: 1500, cache_ttl_hours: 24 },
        downgrade_policy: DowngradePolicy::Tighten,
        tighten: TightenFactors { allowlist_factor_bits: 0, turn_factor_bits: 0 },
        lifetime: LifetimeFactors { token_factor_bits: 0, wall_clock_minutes: 30 },
        advisor: AdvisorConfig { model: None, context: None, writable_paths: vec![] },
        containment: ContainmentConfig {
            backend: "auto".to_string(),
            network: "deny".to_string(),
            devshell_variant: None,
            podman_image: None,
        },
        proxy: ProxyConfig { enabled: false },
    };
    let own = Profile {
        concurrency: None,
        watchdog_minutes: None,
        shim: None,
        downgrade_policy: None,
        tighten: None,
        lifetime: None,
        advisor: AdvisorConfig { model: None, context: None, writable_paths: vec![] },
        roles: Roles {
            tier0: models[0].and_then(bare),
            tier1: models[1].and_then(bare),
            tier2: models[2].and_then(bare),
            verifier_floor: None,
            shim: None,
        },
        containment_min: ContainmentMin { tier0: None, tier1: None, tier2: None },
        containment: None,
        search: SearchConfig { backend: None, endpoint: None },
        codex_tighten: None,
    };
    ResolvedProfile::merge(&defaults, Some(&own))
}

fn role(model: &str) -> ResolvedRole {
    ResolvedRole {
        model: model.to_string(),
        kind: None,
        base_url: None,
        command: None,
        args: None,
        adapter: None,
        max_budget_usd_bits: None,
    }
}

fn driven_role() -> ResolvedRole {
    ResolvedRole {
        model: "some-model".to_string(),
        kind: Some("driven_cli".to_string()),
        base_url: None,
        command: Some("somecli".to_string()),
        args: Some(vec!["--print".to_string()]),
        adapter: Some("acme".to_string()),
        max_budget_usd_bits: None,
    }
}

fn job(role: ResolvedRole, models: [Option<&str>; 3]) -> Job {
    Job {
        task_id: "T1".to_string(),
        repo: "/r".to_string(),
        scope_base: "c0ffee".to_string(),
        attempt: 3,
        spec: TaskSpec {
            title: "title".to_string(),
            tier: Tier::T0,
            base_ref: "main".to_string(),
            file_allowlist: vec!["*.rs".to_string()],
            instructions: "do it".to_string(),
            acceptance_criteria: vec![],
            check_commands: vec!["make".to_string()],
            house_rules_ref: None,
            budget: Budget { turns: None, tokens: None },
            lifetime_budget: LifetimeBudget { tokens: None, wall_clock_minutes: None },
            containment_min: 0,
        },
        role,
        profile: profile(models),
        recipe: ContainmentRecipe {
            level: Level::L1,
            backend: "bwrap".to_string(),
            network: NetworkPolicy::Deny,
            flake_dir: "/repo".to_string(),
            devshell_variant: None,
            podman_image: None,
            requested: Level::L1,
            downgraded: false,
        },
        prior_reports: vec![],
        last_failed_diff: None,
        check_fix: None,
        proxy_addr: None,
        client: "acme".to_string(),
        turn_cap: 25,
        scaled_files: 0,
        watchdog_seconds: 600,
        plan_ceiling_seconds: 3000,
    }
}

fn report(verdict: Verdict) -> Report {
    Report { verdict, findings: vec![], body: "{\"v\":1}".to_string() }
}

fn verdict(verdict: Verdict) -> VerifyReply {
    VerifyReply::Done { report: report(verdict), turns: 1, tokens_in: 2, tokens_out: 3 }
}

/// The effects of a turn in short: events by their names, the rest by theirs.
fn names(turn: &Turn) -> Vec<String> {
    turn.effects
        .iter()
        .map(|e| match e {
            Effect::Emit { kind, .. } => kind.as_str().to_string(),
            Effect::OpenSession { .. } => "open".to_string(),
            Effect::FinishSession { .. } => "finish".to_string(),
            Effect::SaveReport { .. } => "save".to_string(),
            Effect::RemoveWorktree => "remove".to_string(),
            Effect::Checkpoint { .. } => "checkpoint".to_string(),
        })
        .collect()
}

fn payload(turn: &Turn, i: usize) -> serde_json::Value {
    match &turn.effects[i] {
        Effect::Emit { payload: Some(p), .. } => serde_json::from_str(p).unwrap(),
        other => panic!("expected a payload, got {other:?}"),
    }
}

fn failure(turn: &Turn) -> (String, String) {
    match &turn.next {
        Next::Fail(f) => (f.kind().to_string(), f.message().to_string()),
        other => panic!("expected a failure, got {other:?}"),
    }
}

/// Whether a step asks for a fresh worktree at the pinned base.
fn cuts(next: &Next) -> bool {
    matches!(next, Next::CreateWorktree { repo, base, task_id }
        if repo == "/r" && base == "c0ffee" && task_id == "T1")
}

/// Whether a step asks for the diff of one file against the pinned base.
fn diffs_a_file(request: &DiffRequest) -> bool {
    request.worktree == "/w" && request.base == "c0ffee" && request.paths == ["a.rs"]
}

/// An attempt of a one-shot role that waits for the mechanical gate.
fn gating(job: &Job) -> Attempt {
    let mut a = Attempt::new();
    assert!(cuts(&a.begin(job).next));
    let t = a.on_worktree(job, Ok("/w".to_string()));
    assert!(matches!(
        &t.effects[1],
        Effect::OpenSession { role: SessionRole::Implementer, workspace: Some(w), .. } if w == "/w"
    ));
    match t.next {
        Next::RunBackend { request, .. } => {
            assert_eq!((request.worktree.as_str(), request.model.as_str()), ("/w", "mock"));
            assert_eq!(request.spec.title, "title");
        }
        other => panic!("expected a run, got {other:?}"),
    }
    let t = a.on_backend(job, BackendReply::Done { turns: 4, tokens_in: 5, tokens_out: 6 });
    assert_eq!(names(&t), ["finish", "impl_finished", "checks_started"]);
    match t.next {
        Next::RunGate(request) => {
            assert_eq!(request.sandbox.workspace, "/w");
            assert_eq!((request.worktree.as_str(), request.base.as_str()), ("/w", "c0ffee"));
            assert_eq!(request.allowlist, ["*.rs"]);
            assert_eq!(request.max_changed_files, None);
            assert_eq!(request.commands, ["make"]);
        }
        other => panic!("expected checks to run, got {other:?}"),
    }
    a
}

/// An attempt that waits for its verifier.
fn verifying(job: &Job) -> Attempt {
    let mut a = gating(job);
    let t = a.on_gate(job, Ok(GateOutcome::Passed { changed: vec!["a.rs".to_string()] }));
    assert_eq!(names(&t), ["checks_passed"]);
    assert!(matches!(&t.next, Next::DiffForVerifier(r) if diffs_a_file(r)));
    let t = a.on_verifier_diff(job, Ok("the diff".to_string()));
    assert_eq!(names(&t), ["verify_started", "open"]);
    assert!(matches!(
        &t.effects[1],
        Effect::OpenSession { role: SessionRole::Verifier, workspace: None, .. }
    ));
    match t.next {
        Next::Verify { request, .. } => {
            assert_eq!(request.spec.instructions, "do it");
            assert_eq!(request.prior_reports.len(), job.prior_reports.len());
            assert_eq!((request.diff.as_str(), request.worktree.as_str()), ("the diff", "/w"));
            assert_eq!(request.recipe.backend, "bwrap");
        }
        other => panic!("expected a verifier, got {other:?}"),
    }
    a
}

/// An attempt that waits for a driven CLI to end.
fn joining(job: &Job) -> Attempt {
    let mut a = Attempt::new();
    assert!(cuts(&a.begin(job).next));
    match a.on_worktree(job, Ok("/w".to_string())).next {
        Next::Wrap { sandbox, program, args } => {
            assert_eq!(sandbox.workspace, "/w");
            assert_eq!(program, "somecli");
            assert_eq!(args, ["--print"]);
        }
        other => panic!("expected a command to contain, got {other:?}"),
    }
    let t = a.on_wrap(job, Ok(("bwrap".to_string(), vec!["somecli".to_string()])));
    assert_eq!(names(&t), ["spawned", "open", "iterating"]);
    match t.next {
        Next::SpawnDriven(c) => {
            assert_eq!((c.program.as_str(), c.cwd.as_str()), ("bwrap", "/w"));
            assert_eq!(c.plan_marker, "PLAN:");
            assert_eq!((c.watchdog_seconds, c.plan_timeout_seconds), (600, 600));
            assert_eq!((c.plan_ceiling_seconds, c.turn_cap), (3000, 25));
            assert_eq!(c.env_remove.len(), 4);
            assert!(c.structured && !c.mock_checker);
        }
        other => panic!("expected a start, got {other:?}"),
    }
    assert!(matches!(a.on_spawn(None).next, Next::JoinDriven));
    a
}

fn ended(reason: EndReason) -> Option<DrivenResult> {
    Some(DrivenResult { reason, turns: 7, tokens_in: None, tokens_out: Some(9) })
}

#[test]
fn verified_work_passes_once_committed() {
    let job = job(role("mock"), [Some("mock"), None, None]);
    let mut a = verifying(&job);
    let t = a.on_verify(&job, verdict(Verdict::Pass));
    assert_eq!(names(&t), ["save", "finish"]);
    assert!(matches!(
        &t.effects[0],
        Effect::SaveReport { independence: Independence::FreshContextOnly, attempt: 3, body }
            if body == "{\"v\":1}"
    ));
    assert!(matches!(&t.next, Next::Commit(r)
        if r.message == "maestro: title" && r.paths == ["a.rs"] && r.worktree == "/w"));
    let t = a.on_commit(None);
    assert_eq!(names(&t), ["verify_passed"]);
    assert!(matches!(t.next, Next::Settled(AttemptOutcome::Passed)));
    assert_eq!(a.phase, AttemptPhase::Over);
}

#[test]
fn rejected_work_is_handed_on_with_its_report() {
    let job = job(role("mock"), [Some("mock"), None, None]);
    let t = verifying(&job).on_verify(&job, verdict(Verdict::Fail));
    assert_eq!(names(&t), ["save", "finish", "verify_failed"]);
    match t.next {
        Next::Settled(AttemptOutcome::VerificationFailed(f)) => {
            assert_eq!(f.diff, "the diff");
            assert!(f.report.is_some() && f.check_failure.is_none());
        }
        other => panic!("expected a rejection, got {other:?}"),
    }
}

#[test]
fn verifiers_are_tried_twice() {
    let job = job(role("mock"), [Some("mock"), None, None]);
    let mut a = verifying(&job);
    let t = a.on_verify(&job, VerifyReply::Other("crash".to_string()));
    assert_eq!(names(&t), ["finish", "verify_started", "open"]);
    assert!(matches!(t.next, Next::Verify { ref request, .. } if request.diff == "the diff"));
    let t = a.on_verify(&job, VerifyReply::Other("again".to_string()));
    assert_eq!(
        failure(&t),
        ("internal_error".to_string(), "verifier failed twice: again".to_string())
    );

    let t = verifying(&job).on_verify(&job, VerifyReply::Unavailable("down".to_string()));
    assert_eq!(failure(&t), ("model_unavailable".to_string(), "down".to_string()));
}

#[test]
fn verification_is_never_skipped() {
    let job = job(role("mock"), [None, None, None]);
    let mut a = gating(&job);
    a.on_gate(&job, Ok(GateOutcome::Passed { changed: vec![] }));
    let t = a.on_verifier_diff(&job, Ok("d".to_string()));
    let (kind, message) = failure(&t);
    assert_eq!(kind, "model_unavailable");
    assert!(message.starts_with("no eligible verifier model configured"));
}

#[test]
fn tightened_tasks_are_capped() {
    let mut j = job(role("mock"), [Some("mock"), None, None]);
    j.recipe.downgraded = true;
    j.scaled_files = 7;
    let cap = |j: &Job| {
        let mut a = Attempt::new();
        a.begin(j);
        a.on_worktree(j, Ok("/w".to_string()));
        match a.on_backend(j, BackendReply::Done { turns: 1, tokens_in: 1, tokens_out: 1 }).next {
            Next::RunGate(request) => request.max_changed_files,
            other => panic!("expected checks to run, got {other:?}"),
        }
    };
    assert_eq!(cap(&j), Some(7));
    j.scaled_files = 0;
    assert_eq!(cap(&j), Some(1));
    j.spec.file_allowlist.clear();
    assert_eq!(cap(&j), None);
}

#[test]
fn failing_checks_leave_a_checkpoint() {
    let job = job(role("mock"), [Some("mock"), None, None]);
    let mut a = gating(&job);
    let t = a.on_gate(
        &job,
        Ok(GateOutcome::ChecksFailed {
            command: "make".to_string(),
            output_digest: "boom".to_string(),
            changed: vec!["a.rs".to_string()],
        }),
    );
    assert_eq!(names(&t), ["checks_failed", "checkpoint"]);
    assert_eq!(payload(&t, 0)["command"], "make");
    assert_eq!(payload(&t, 0)["output_digest"], "boom");
    assert!(matches!(
        &t.effects[1],
        Effect::Checkpoint(r) if r.message == "maestro: fix-in-place checkpoint — title"
            && r.paths == ["a.rs"] && r.worktree == "/w"
    ));
    assert!(matches!(&t.next, Next::DiffForRetry(r) if diffs_a_file(r)));
    match a.on_retry_diff(Some("d".to_string())).next {
        Next::Settled(AttemptOutcome::VerificationFailed(f)) => {
            assert_eq!(f.diff, "d");
            assert!(f.report.is_none());
            assert_eq!(f.check_failure.unwrap().command, "make");
        }
        other => panic!("expected a rejection, got {other:?}"),
    }
}

#[test]
fn work_outside_its_scope_fails_the_task() {
    let job = job(role("mock"), [Some("mock"), None, None]);
    let t = gating(&job)
        .on_gate(&job, Ok(GateOutcome::ScopeViolation { offending: vec!["x".to_string()] }));
    assert_eq!(names(&t), ["failed"]);
    let v = payload(&t, 0);
    assert_eq!(v["kind"], "scope_violation");
    assert_eq!(v["message"], "changed paths fell outside the file allowlist");
    assert_eq!(v["offending_paths"][0], "x");
    assert!(matches!(t.next, Next::Settled(AttemptOutcome::ScopeViolation)));

    let t = gating(&job).on_gate(
        &job,
        Ok(GateOutcome::TightenedScopeExceeded {
            changed: 3,
            cap: 2,
            files: vec!["f".to_string()],
        }),
    );
    let v = payload(&t, 0);
    assert_eq!(v["reason"], "tightened_allowlist");
    assert_eq!((v["changed"].as_i64(), v["cap"].as_i64()), (Some(3), Some(2)));
    assert_eq!(
        v["message"],
        "changed 3 files, exceeding the tightened allowlist cap of 2 (containment downgrade / codex_tighten)"
    );
}

#[test]
fn machinery_failures_name_the_step() {
    let job = job(role("mock"), [Some("mock"), None, None]);
    let mut a = Attempt::new();
    a.begin(&job);
    let t = a.on_worktree(&job, Err("no".to_string()));
    assert_eq!(failure(&t).1, "worktree create: no");

    let t = gating(&job).on_gate(&job, Err("no".to_string()));
    assert_eq!(failure(&t).1, "gate: no");

    let mut a = gating(&job);
    a.on_gate(&job, Ok(GateOutcome::Passed { changed: vec![] }));
    let t = a.on_verifier_diff(&job, Err("no".to_string()));
    assert_eq!(failure(&t).1, "diff for verifier: no");

    let mut a = verifying(&job);
    a.on_verify(&job, verdict(Verdict::Pass));
    assert_eq!(failure(&a.on_commit(Some("no".to_string()))).1, "commit: no");
}

#[test]
fn implementers_that_cannot_go_on_lose_their_worktree() {
    let job = job(role("mock"), [Some("mock"), None, None]);
    let run = |reply: BackendReply| {
        let mut a = Attempt::new();
        a.begin(&job);
        a.on_worktree(&job, Ok("/w".to_string()));
        a.on_backend(&job, reply)
    };
    for (reply, kind) in [
        (BackendReply::Unavailable("m".to_string()), "model_unavailable"),
        (BackendReply::Budget("m".to_string()), "budget_exhausted"),
        (BackendReply::Other("m".to_string()), "internal_error"),
    ] {
        let t = run(reply);
        assert_eq!(names(&t), ["finish", "remove"]);
        assert!(matches!(
            t.effects[0],
            Effect::FinishSession { exit: ExitStatus::Error, turns: None, .. }
        ));
        assert_eq!(failure(&t), (kind.to_string(), "m".to_string()));
    }
}

#[test]
fn unknown_roles_end_before_a_worktree() {
    let mut r = role("m");
    r.kind = Some("openai_compat".to_string());
    let t = Attempt::new().begin(&job(r, [None, None, None]));
    assert_eq!(failure(&t).0, "model_unavailable");

    let mut r = driven_role();
    r.command = Some("  ".to_string());
    let t = Attempt::new().begin(&job(r, [None, None, None]));
    assert_eq!(
        failure(&t),
        (
            "internal_error".to_string(),
            "driven_cli role has no `command` configured".to_string()
        )
    );
}

#[test]
fn house_rules_are_read_before_the_implementer_runs() {
    let mut j = job(role("m"), [Some("m"), None, None]);
    j.spec.house_rules_ref = Some("RULES".to_string());
    j.proxy_addr = Some("127.0.0.1:9".to_string());
    let mut a = Attempt::new();
    a.begin(&j);
    let t = a.on_worktree(&j, Ok("/w".to_string()));
    assert_eq!(names(&t), ["spawned", "open"]);
    assert!(matches!(
        &t.effects[1],
        Effect::OpenSession { role: SessionRole::Implementer, kind: SessionKind::OneShotApi, model, .. }
            if model == "m"
    ));
    assert!(matches!(t.next, Next::ReadHouseRules { path } if path == "/r/RULES"));
    let t = a.on_rules(&j, Ok("be kind".to_string()));
    assert_eq!(names(&t), ["iterating"]);
    match t.next {
        Next::RunBackend { backend: Backend::Anthropic { base_url }, request } => {
            assert_eq!(base_url.as_deref(), Some("http://127.0.0.1:9"));
            assert_eq!(request.house_rules, "be kind");
            assert_eq!(request.task_header.as_deref(), Some("T1"));
        }
        other => panic!("expected a run, got {other:?}"),
    }

    let mut a = Attempt::new();
    a.begin(&j);
    a.on_worktree(&j, Ok("/w".to_string()));
    let t = a.on_rules(&j, Err("gone".to_string()));
    assert_eq!(failure(&t).1, "reading house_rules_ref /r/RULES: gone");
}

#[test]
fn fixes_in_place_reuse_their_worktree() {
    let mut j = job(role("mock"), [Some("mock"), None, None]);
    j.check_fix =
        Some(CheckFailure { command: "make".to_string(), output_digest: "boom".to_string() });
    let mut a = Attempt::new();
    assert!(matches!(a.begin(&j).next, Next::ProbeReuse { repo, task_id }
        if repo == "/r" && task_id == "T1"));
    let t = a.on_probe(&j, "/old".to_string(), true);
    assert!(matches!(t.next, Next::RunBackend { ref request, .. } if request.house_rules.contains("boom")));
    assert_eq!(a.worktree, "/old");

    let mut a = Attempt::new();
    a.begin(&j);
    assert!(cuts(&a.on_probe(&j, "/old".to_string(), false).next));
}

#[test]
fn driven_sessions_that_complete_are_gated() {
    let job = job(driven_role(), [Some("m"), None, None]);
    let t = joining(&job).on_join(&job, ended(EndReason::Completed));
    assert_eq!(names(&t), ["finish", "impl_finished", "checks_started"]);
    assert!(matches!(
        t.effects[0],
        Effect::FinishSession { exit: ExitStatus::Finished, turns: Some(7), tokens_in: None, tokens_out: Some(9) }
    ));
    assert!(matches!(t.next, Next::RunGate(_)));
}

#[test]
fn killed_sessions_are_interrupted_and_fail_once() {
    let job = job(driven_role(), [Some("m"), None, None]);
    for (kill, kind) in
        [(KillKind::Human, "interrupted_human"), (KillKind::Advisor, "interrupted_advisor")]
    {
        let mut a = joining(&job);
        assert!(matches!(a.on_join(&job, ended(EndReason::Killed(kill))).next,
            Next::Snapshot { worktree, base } if worktree == "/w" && base == "c0ffee"));
        let t = a.on_snapshot(&job, "left");
        assert_eq!(names(&t), ["finish", "interrupted", "failed", "remove"]);
        assert_eq!(payload(&t, 1)["reason"], "kill");
        assert_eq!(payload(&t, 1)["partial_diff"], "left");
        assert_eq!(payload(&t, 2)["kind"], kind);
        assert!(matches!(t.next, Next::Settled(AttemptOutcome::ScopeViolation)));
    }
}

#[test]
fn stopped_sessions_fail_the_task_with_what_they_left() {
    let job = job(driven_role(), [Some("m"), None, None]);
    let stop = |reason: EndReason| {
        let mut a = joining(&job);
        assert!(matches!(a.on_join(&job, ended(reason)).next, Next::Snapshot { .. }));
        let t = a.on_snapshot(&job, "left");
        assert_eq!(names(&t), ["finish", "failed", "remove"]);
        assert_eq!(payload(&t, 1)["partial_diff"], "left");
        t
    };
    let t = stop(EndReason::Wedged);
    assert_eq!(payload(&t, 1)["kind"], "session_wedged");
    assert!(matches!(t.effects[0], Effect::FinishSession { exit: ExitStatus::Wedged, .. }));
    let t = stop(EndReason::TurnBudgetExceeded);
    assert_eq!(payload(&t, 1)["kind"], "turn_budget_exceeded");
    assert_eq!(payload(&t, 1)["cap"], 25);
    assert_eq!(
        payload(&t, 1)["message"],
        "driven CLI exceeded its per-attempt turn cap of 25 and was hard-stopped"
    );
}

#[test]
fn rejected_plans_and_crashes_need_no_snapshot() {
    let job = job(driven_role(), [Some("m"), None, None]);
    let t = joining(&job)
        .on_join(&job, ended(EndReason::PlanRejected { reason: "bad".to_string() }));
    assert_eq!(names(&t), ["finish", "failed", "remove"]);
    assert_eq!(payload(&t, 1)["kind"], "plan_rejected");
    assert_eq!(payload(&t, 1)["reason"], "bad");
    let t = joining(&job).on_join(&job, ended(EndReason::Failed("broke".to_string())));
    assert_eq!(payload(&t, 1)["kind"], "internal_error");
    assert_eq!(payload(&t, 1)["message"], "broke");
    let t = joining(&job).on_join(&job, None);
    assert_eq!(failure(&t).1, "driven session thread panicked");
}

#[test]
fn driven_sessions_that_do_not_start_fail() {
    let job = job(driven_role(), [Some("m"), None, None]);
    let mut a = Attempt::new();
    a.begin(&job);
    a.on_worktree(&job, Ok("/w".to_string()));
    let t = a.on_wrap(&job, Err("no bwrap".to_string()));
    assert_eq!(failure(&t).1, "sandbox wrap (driven): no bwrap");

    let mut a = Attempt::new();
    a.begin(&job);
    a.on_worktree(&job, Ok("/w".to_string()));
    a.on_wrap(&job, Ok(("p".to_string(), vec![])));
    let t = a.on_spawn(Some("no pty".to_string()));
    assert_eq!(names(&t), ["finish", "remove"]);
    assert_eq!(failure(&t).1, "driven spawn: no pty");
    assert_eq!(driven_log_name("T1", 2), "T1-2.log");
}

// ---------------------------------------------------------------------------
// The ladder
// ---------------------------------------------------------------------------

fn rejected(diff: &str, check: Option<&str>) -> AttemptOutcome {
    AttemptOutcome::VerificationFailed(FailedAttempt {
        diff: diff.to_string(),
        report: if check.is_none() { Some(report(Verdict::Fail)) } else { None },
        check_failure: check.map(|c| CheckFailure {
            command: c.to_string(),
            output_digest: "boom".to_string(),
        }),
    })
}

/// One more attempt that is rejected, with budget left throughout.
fn reject(p: &mut Pipeline, rp: &ResolvedProfile, outcome: AttemptOutcome) -> PipelineAction {
    assert!(matches!(p.on_budget(rp, false), PipelineAction::Attempt));
    assert!(matches!(p.on_outcome(Ok(outcome)), PipelineAction::CheckBudget(None)));
    p.on_budget(rp, false)
}

#[test]
fn the_ladder_is_climbed_and_ends() {
    let rp = profile([Some("a"), None, Some("c")]);
    let mut p = Pipeline::start(&rp, Tier::T0, role("a"));
    assert_eq!(p.top, Tier::T2);
    assert!(matches!(reject(&mut p, &rp, rejected("1", None)), PipelineAction::CheckBudget(None)));
    assert_eq!((p.tier, p.attempt), (Tier::T0, 1));
    match reject(&mut p, &rp, rejected("2", None)) {
        PipelineAction::CheckBudget(Some((EventKind::Escalated, payload))) => {
            let v: serde_json::Value = serde_json::from_str(&payload).unwrap();
            assert_eq!((v["from_tier"].as_i64(), v["to_tier"].as_i64()), (Some(0), Some(2)));
            assert_eq!(v["reason"], "verification_failed");
        }
        other => panic!("expected an escalation, got {other:?}"),
    }
    assert_eq!(p.tier, Tier::T2);
    assert_eq!(p.role.model, "c");
    assert_eq!(p.prior_reports.len(), 2);
    match reject(&mut p, &rp, rejected("3", None)) {
        PipelineAction::Finish(Some((EventKind::Blocked, payload))) => {
            let v: serde_json::Value = serde_json::from_str(&payload).unwrap();
            assert_eq!(v["partial_diff"], "3");
        }
        other => panic!("expected a block, got {other:?}"),
    }
    assert_eq!((p.phase, p.attempt), (Phase::Closed, 3));
}

#[test]
fn failing_checks_are_fixed_on_their_own_tier() {
    let rp = profile([Some("a"), Some("b"), None]);
    let mut p = Pipeline::start(&rp, Tier::T0, role("a"));
    reject(&mut p, &rp, rejected("1", Some("make")));
    assert_eq!(p.check_fix.as_ref().unwrap().command, "make");
    assert_eq!(p.last_failed_diff.as_deref(), Some("1"));
    reject(&mut p, &rp, rejected("2", Some("make")));
    assert_eq!(p.tier, Tier::T1);
    assert!(p.check_fix.is_none());
    assert!(p.prior_reports.is_empty());
}

#[test]
fn spent_budgets_end_the_task_where_it_is() {
    let rp = profile([Some("a"), Some("b"), None]);
    let mut p = Pipeline::start(&rp, Tier::T0, role("a"));
    assert!(matches!(p.on_budget(&rp, true), PipelineAction::Finish(None)));
    assert_eq!((p.phase, p.attempt), (Phase::Closed, 0));

    let mut p = Pipeline::start(&rp, Tier::T0, role("a"));
    p.on_budget(&rp, false);
    p.on_outcome(Ok(rejected("1", None)));
    assert!(matches!(p.on_budget(&rp, true), PipelineAction::Finish(None)));
    assert_eq!((p.phase, p.tier), (Phase::Closed, Tier::T0));
}

#[test]
fn settled_attempts_end_the_task() {
    let rp = profile([Some("a"), None, None]);
    let after = |outcome| {
        let mut p = Pipeline::start(&rp, Tier::T0, role("a"));
        p.on_budget(&rp, false);
        let action = p.on_outcome(outcome);
        assert_eq!(p.phase, Phase::Closed);
        action
    };
    assert!(matches!(after(Ok(AttemptOutcome::Passed)), PipelineAction::Finish(None)));
    assert!(matches!(after(Ok(AttemptOutcome::ScopeViolation)), PipelineAction::Finish(None)));
    assert!(matches!(
        after(Err(fail("internal_error", "x".to_string()))),
        PipelineAction::Fail(f) if f.message() == "x"
    ));
}
