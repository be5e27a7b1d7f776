use maestro::config::{
    AdvisorConfig, Concurrency, Config, ContainmentConfig, Defaults, DowngradePolicy,
    LifetimeFactors, ProxyConfig, ShimConfig, TightenFactors,
};
use maestro::delegate::DelegationState;
use maestro::domain::{EventKind, KillKind};
use maestro::merge::MergeOutcome;
use maestro::resolve::{resolve, ResolvedProfile};
use maestro::server::{
    advisor_profile, close_task, close_unrecorded, day_prefix, doctor, drain_inbox,
    inline_detail, journal_query, kill_task, merge_task, options_from_args, register_advisor,
    request_document, resolve_machine_cap, surface_error, trace, verifier_reports, DayTotals,
    EventRow, InboxCursors, InboxItem, MergeStep, Query, RepoReply, ReportRow, StateReply,
    Surface,
};
use maestro::shim::{search_route, SearchRoute};

fn strings(v: &[&str]) -> Vec<String> {
    v.iter().map(|s| s.to_string()).collect()
}

fn config() -> Config {
    Config {
        default_profile: None,
        defaults: Defaults {
            concurrency: Concurrency { machine_cap: 6, advisor_cap: 2 },
            watchdog_minutes: 10,
            shim: ShimConfig { excerpt_cap_chars: 1500, cache_ttl_hours: 24 },
            downgrade_policy: DowngradePolicy::Tighten,
            tighten: TightenFactors { allowlist_factor_bits: 0, turn_factor_bits: 0 },
            lifetime: LifetimeFactors { token_factor_bits: 0, wall_clock_minutes: 30 },
            advisor: AdvisorConfig {
                model: None,
                context: Some("1m".to_string()),
                writable_paths: vec![],
            },
            containment: ContainmentConfig {
                backend: "auto".to_string(),
                network: "deny".to_string(),
                devshell_variant: None,
                podman_image: None,
            },
            proxy: ProxyConfig { enabled: false },
        },
        profiles: vec![],
    }
}

#[test]
fn options_come_from_the_last_profile() {
    let o = options_from_args(&strings(&["--profile", "a", "-v", "--profile=b"]));
    assert_eq!(o.profile.as_deref(), Some("b"));
    assert!(o.detach);
    let o = options_from_args(&strings(&["--profile=b", "--profile", "a"]));
    assert_eq!(o.profile.as_deref(), Some("a"));
    assert_eq!(options_from_args(&strings(&["--profile"])).profile, None);
    assert_eq!(options_from_args(&strings(&["--profile="])).profile.as_deref(), Some(""));
    assert_eq!(options_from_args(&[]).profile, None);
    // What follows the flag is its value, whatever it looks like.
    let o = options_from_args(&strings(&["--profile", "--profile=x"]));
    assert_eq!(o.profile.as_deref(), Some("--profile=x"));
}

#[test]
fn the_machine_cap_falls_back() {
    assert_eq!(resolve_machine_cap(&resolve(None, None, &config())), 6);
    assert_eq!(resolve_machine_cap(&resolve(Some("ghost"), None, &config())), 4);
}

#[test]
fn requests_are_one_line() {
    assert_eq!(request_document(0, ""), Err("empty request"));
    assert_eq!(request_document(9, "{\"a\":1} \r\n"), Ok("{\"a\":1}"));
    assert_eq!(request_document(1, "\n"), Ok(""));
}

#[test]
fn errors_name_the_request() {
    assert_eq!(surface_error(Surface::Parsing, "e"), "malformed request: e");
    assert_eq!(surface_error(Surface::Ps, "e"), "ps failed: e");
    assert_eq!(surface_error(Surface::TaskStatus, "e"), "task_status failed: e");
    assert_eq!(surface_error(Surface::RegisterAdvisor, "e"), "register_advisor failed: e");
    assert_eq!(surface_error(Surface::DrainInbox, "e"), "drain_inbox failed: e");
}

#[test]
fn kills_need_a_kind_and_a_session() {
    let mut state: DelegationState<u8> = DelegationState::new(1);
    state.register_session("t", 5);
    assert_eq!(kill_task(&state, "t", "human"), Ok((KillKind::Human, &5)));
    assert_eq!(kill_task(&state, "t", "advisor"), Ok((KillKind::Advisor, &5)));
    assert_eq!(
        kill_task(&state, "t", "robot").unwrap_err(),
        "kill_task: invalid kind \"robot\" (want human|advisor)"
    );
    assert_eq!(
        kill_task(&state, "u", "human").unwrap_err(),
        "task u is not a running driven session"
    );
}

#[test]
fn only_blocked_tasks_are_closed() {
    let blocked = || StateReply::Known(Some(EventKind::Blocked));
    let payload = close_task("t", "superseded", &Some("t2".to_string()), blocked()).unwrap();
    let v: serde_json::Value = serde_json::from_str(&payload).unwrap();
    assert_eq!(v["kind"], "verification_failed");
    assert_eq!(v["outcome"], "superseded");
    assert_eq!(v["superseded_by"], "t2");
    let payload = close_task("t", "abandoned", &None, blocked()).unwrap();
    let v: serde_json::Value = serde_json::from_str(&payload).unwrap();
    assert!(v["superseded_by"].is_null());
    assert_eq!(
        close_task("t", "done", &None, blocked()).unwrap_err(),
        "close_task: invalid outcome \"done\" (want abandoned|superseded)"
    );
    assert_eq!(
        close_task("t", "abandoned", &None, StateReply::Known(Some(EventKind::Failed)))
            .unwrap_err(),
        "close_task: task t is not blocked"
    );
    assert_eq!(
        close_task("t", "abandoned", &None, StateReply::Known(None)).unwrap_err(),
        "close_task: task t is not blocked"
    );
    assert_eq!(
        close_task("t", "abandoned", &None, StateReply::Failed("locked".to_string()))
            .unwrap_err(),
        "close_task: locked"
    );
    assert_eq!(close_unrecorded("full"), "close_task: append failed: full");
}

fn outcome() -> MergeOutcome {
    MergeOutcome {
        merged_sha: "sha".to_string(),
        base_ref: "main".to_string(),
        branch: "maestro/t".to_string(),
        fast_forward: true,
    }
}

#[test]
fn merges_go_through_in_order() {
    let mut m = merge_task("t");
    assert!(matches!(
        m.on_state(StateReply::Known(Some(EventKind::VerifyPassed))),
        MergeStep::ReadRepo
    ));
    match m.on_repo(RepoReply::Known {
        repo: Some("/r".to_string()),
        base_ref: "main".to_string(),
    }) {
        MergeStep::Merge { repo, base_ref } => {
            assert_eq!((repo.as_str(), base_ref.as_str()), ("/r", "main"));
        }
        other => panic!("expected a merge, got {other:?}"),
    }
    match m.on_merge(Ok(outcome())) {
        MergeStep::Append { payload } => {
            let v: serde_json::Value = serde_json::from_str(&payload).unwrap();
            assert_eq!(v["base_ref"], "main");
            assert_eq!(v["branch"], "maestro/t");
            assert_eq!(v["merged_sha"], "sha");
            assert!(v.get("fast_forward").is_none());
        }
        other => panic!("expected an event, got {other:?}"),
    }
    assert!(matches!(m.on_append(None), MergeStep::CleanUp { repo } if repo == "/r"));
}

fn refusal(step: MergeStep) -> String {
    match step {
        MergeStep::Refuse(m) => m,
        other => panic!("expected a refusal, got {other:?}"),
    }
}

#[test]
fn merges_are_refused_with_a_reason() {
    let at = |state: StateReply| refusal(merge_task("t").on_state(state));
    assert_eq!(
        at(StateReply::Known(Some(EventKind::Merged))),
        "merge_task: task t is already merged"
    );
    assert_eq!(
        at(StateReply::Known(Some(EventKind::Iterating))),
        "merge_task: task t is not in a merge-ready (verify_passed) state"
    );
    assert_eq!(at(StateReply::Failed("e".to_string())), "merge_task: e");

    let passed = || {
        let mut m = merge_task("t");
        m.on_state(StateReply::Known(Some(EventKind::VerifyPassed)));
        m
    };
    assert_eq!(
        refusal(
            passed().on_repo(RepoReply::Known { repo: None, base_ref: "main".to_string() })
        ),
        "merge_task: task t has no recorded repo path; merge manually"
    );
    assert_eq!(
        refusal(passed().on_repo(RepoReply::Failed("e".to_string()))),
        "merge_task: e"
    );
    let ready = || {
        let mut m = passed();
        m.on_repo(RepoReply::Known {
            repo: Some("/r".to_string()),
            base_ref: "main".to_string(),
        });
        m
    };
    assert_eq!(
        refusal(ready().on_merge(Err("conflicts".to_string()))),
        "merge_task: conflicts"
    );
    let mut m = ready();
    m.on_merge(Ok(outcome()));
    assert_eq!(
        refusal(m.on_append(Some("full".to_string()))),
        "merge_task: append merged failed: full"
    );
}

fn value(text: &str) -> serde_json::Value {
    serde_json::from_str(text).unwrap()
}

#[test]
fn queries_are_read_by_name() {
    let params = || value(r#"{"task_id": "t"}"#);
    assert!(matches!(
        journal_query("verifier_reports", params()),
        Ok(Query::VerifierReports { task_id }) if task_id == "t"
    ));
    assert!(matches!(
        journal_query("trace", params()),
        Ok(Query::Trace { task_id }) if task_id == "t"
    ));
    assert!(matches!(
        journal_query("routing_report", value("null")),
        Ok(Query::RoutingReport)
    ));
    assert_eq!(
        journal_query("trace", value(r#"{"task_id": 1}"#)).unwrap_err(),
        "journal_query trace: missing params.task_id"
    );
    assert_eq!(
        journal_query("verifier_reports", value("[]")).unwrap_err(),
        "journal_query verifier_reports: missing params.task_id"
    );
    assert_eq!(
        journal_query("drop", params()).unwrap_err(),
        "journal_query: unknown query \"drop\""
    );
    assert_eq!(Query::RoutingReport.failed("e"), "journal_query routing_report: e");
    assert_eq!(
        Query::Trace { task_id: "t".to_string() }.failed("e"),
        "journal_query trace: e"
    );
}

#[test]
fn reports_show_what_they_hold() {
    let row = |report: &str| ReportRow {
        attempt: 2,
        independence: "cross_model".to_string(),
        report: report.to_string(),
    };
    let v = verifier_reports(&vec![
        row(r#"{"verdict": "fail", "findings": [{"x": 1.5}], "other": 1}"#),
        row("garbage"),
        row("[1]"),
    ]);
    assert_eq!(v[0]["attempt"], 2);
    assert_eq!(v[0]["independence"], "cross_model");
    assert_eq!(v[0]["verdict"], "fail");
    assert_eq!(v[0]["findings"][0]["x"], 1.5);
    assert!(v[0].get("other").is_none());
    assert!(v[1]["verdict"].is_null() && v[1]["findings"].is_null());
    assert!(v[2]["verdict"].is_null());
    assert_eq!(v.as_array().unwrap().len(), 3);
}

#[test]
fn traces_show_payloads_as_documents() {
    let row = |payload: Option<&str>| EventRow {
        seq: 1,
        kind: EventKind::ChecksFailed,
        ts: "2026-01-01T00:00:00Z".to_string(),
        payload: payload.map(str::to_string),
    };
    let v = trace(&vec![row(Some(r#"{"a": [true]}"#)), row(Some("{")), row(None)]);
    assert_eq!(v[0]["seq"], 1);
    assert_eq!(v[0]["kind"], "checks_failed");
    assert_eq!(v[0]["ts"], "2026-01-01T00:00:00Z");
    assert_eq!(v[0]["payload"]["a"][0], true);
    assert!(v[1]["payload"].is_null());
    assert!(v[2]["payload"].is_null());
}

#[test]
fn advisors_are_recorded_with_what_is_known() {
    let e = register_advisor(&resolve(None, None, &config()));
    assert_eq!(e.profile, "default");
    assert_eq!(e.model, "unknown");
    assert_eq!(e.context, "1m");
    let e = register_advisor(&resolve(Some("ghost"), None, &config()));
    assert_eq!(e.profile, "ghost");
    assert_eq!((e.model.as_str(), e.context.as_str()), ("unknown", "standard"));
    assert_eq!(advisor_profile(Some("a"), Some("b")), Some("a"));
    assert_eq!(advisor_profile(None, Some("b")), Some("b"));
}

fn item(id: &str) -> InboxItem {
    InboxItem {
        event_id: id.to_string(),
        task_id: "t".to_string(),
        ts: "2026-01-01T00:00:00Z".to_string(),
        kind: "blocked".to_string(),
        summary: "s".to_string(),
        detail: None,
    }
}

#[test]
fn cursors_move_to_the_last_item() {
    let mut c = InboxCursors::new();
    assert_eq!(c.cursor("a"), None);
    c.drained("a", &vec![item("1"), item("2")]);
    c.drained("b", &vec![item("9")]);
    assert_eq!(c.cursor("a"), Some("2"));
    c.drained("a", &vec![]);
    assert_eq!(c.cursor("a"), Some("2"));
    c.drained("a", &vec![item("3")]);
    assert_eq!(c.cursor("a"), Some("3"));
    assert_eq!(c.cursor("b"), Some("9"));
}

#[test]
fn the_day_is_summed_up_behind_the_events() {
    let now = "2026-07-07T12:00:00Z";
    let totals = DayTotals { tokens_in: 1200, tokens_out: 34, sessions: 5 };
    let items = drain_inbox(vec![item("1")], now, Some(totals));
    assert_eq!(items.len(), 2);
    assert_eq!(items[1].event_id, "");
    assert_eq!(items[1].kind, "daily_total");
    assert_eq!(items[1].ts, now);
    assert_eq!(items[1].summary, "today: 1200 in / 34 out tokens across 5 sessions");
    let quiet = DayTotals { tokens_in: 0, tokens_out: 0, sessions: 0 };
    assert_eq!(drain_inbox(vec![item("1")], now, Some(quiet)).len(), 1);
    assert_eq!(drain_inbox(vec![], now, None).len(), 0);
    assert_eq!(day_prefix(now), "2026-07-07");
    assert_eq!(day_prefix("short"), "short");
    assert!(inline_detail(&Some("1m".to_string())));
    assert!(!inline_detail(&Some("standard".to_string())));
    assert!(!inline_detail(&None));
}

#[test]
fn doctors_report_models_only_of_a_profile() {
    let env = |_: &str| true;
    let cmd = |_: &str| true;
    let v = doctor(&resolve(None, None, &config()), "haiku-4-5", &env, &cmd);
    assert_eq!(v["shim"]["model"], "haiku-4-5");
    let v = doctor(&resolve(Some("ghost"), None, &config()), "haiku-4-5", &env, &cmd);
    assert!(v.get("error").is_some());
}

fn searching(backend: Option<&str>) -> ResolvedProfile {
    let mut rp = ResolvedProfile::merge(&config().defaults, None);
    rp.search.backend = backend.map(str::to_string);
    rp.search.endpoint = Some("http://e".to_string());
    rp
}

#[test]
fn searches_go_where_the_profile_says() {
    assert!(matches!(
        search_route(&searching(None), "m"),
        SearchRoute::Anthropic { model, base_url: None } if model == "m"
    ));
    assert!(matches!(
        search_route(&searching(Some("anthropic")), "m"),
        SearchRoute::Anthropic { .. }
    ));
    assert!(matches!(
        search_route(&searching(Some("searxng")), "m"),
        SearchRoute::Searxng { endpoint: Some(e) } if e == "http://e"
    ));
    assert!(matches!(
        search_route(&searching(Some("none")), "m"),
        SearchRoute::Refused(w)
            if w == "backend_unavailable: search disabled on this profile (search.backend = none)"
    ));
    assert!(matches!(
        search_route(&searching(Some("bing")), "m"),
        SearchRoute::Refused(w) if w == "backend_unavailable: unknown search backend bing"
    ));
}
