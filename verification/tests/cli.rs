use maestro::advise::{
    advise_command, home_dir, resolve_repo_writable_paths, resolve_writable_paths,
    writable_candidates,
};
use maestro::cli::{
    closed_text, daemon_error, daemon_start_text, daemon_status_text, delegated_text,
    doctor_text, init_text, kill_target, killed_text, log_target, log_task, merged_text,
    poll_interval, print_model_auth, print_probe, query_text, render_ps, render_scalar,
    response_document, signal_target, unexpected_response, watch_exit_code, Asked,
};
use maestro::client::Client;
use maestro::config::{
    AdvisorConfig, Concurrency, Config, ContainmentConfig, ContainmentMin, Defaults,
    DowngradePolicy, LifetimeFactors, Profile, ProxyConfig, Roles, SearchConfig, ShimConfig,
    TightenFactors,
};
use maestro::daemon::{EnsureOutcome, HelloOutcome};
use maestro::domain::Tier;
use maestro::init::{FileOutcome, InitReport, LockdownReport};
use maestro::progress::{PsRow, WatchOutcome};

fn client() -> Client {
    Client {
        name: "acme".to_string(),
        title: "Acme".to_string(),
        instructions: "ACME.md".to_string(),
    }
}

fn strings(v: &[&str]) -> Vec<String> {
    v.iter().map(|s| s.to_string()).collect()
}

#[test]
fn the_task_table_is_padded() {
    let row = PsRow {
        task_id: "T1".to_string(),
        title: "do it".to_string(),
        tier: Tier::T1,
        state: "queued".to_string(),
        created_at: String::new(),
        actionable: false,
        terminal: false,
        action: None,
    };
    assert_eq!(
        render_ps(&vec![row]),
        format!(
            "{:<28} {:<5} {:<16} TITLE\n{:<28} {:<5} {:<16} {}\n",
            "TASK_ID", "TIER", "STATE", "T1", 1, "queued", "do it"
        )
    );
    assert_eq!(render_ps(&vec![]), "no tasks\n");
}

fn value(text: &str) -> serde_json::Value {
    serde_json::from_str(text).unwrap()
}

#[test]
fn probes_show_known_entries_first() {
    let probe = value(
        r#"{"zeta": 1, "bwrap": true, "os": "linux", "alpha": null, "mid": ["x", 2], "real": 0.5}"#,
    );
    assert_eq!(
        print_probe(&probe),
        "  os: linux\n  bwrap: true\n  alpha: null\n  mid: [\"x\",2]\n  real: 0.5\n  zeta: 1\n"
    );
    assert_eq!(print_probe(&value("[1]")), "[\n  1\n]\n");
    assert_eq!(print_probe(&value("{}")), "");
    assert_eq!(render_scalar(&value("\"a b\"")), "a b");
    assert_eq!(render_scalar(&value("-7")), "-7");
}

#[test]
fn model_reports_show_slots_in_order() {
    let report = value(
        r#"{"shim": {"model": "m", "backend": "anthropic"},
            "error": "broken",
            "tier0": {"model": "n", "backend": "mock", "status": "ok", "more": 1},
            "tier1": {"model": 5}}"#,
    );
    let shown = "  tier0: n [mock] — ok\n  tier1: ? [?] — ?\n  shim: m [anthropic] — ?\n  error: ? [?] — ?\n";
    assert_eq!(print_model_auth(&report), shown);
    assert_eq!(print_model_auth(&value("true")), "true\n");
    assert_eq!(
        doctor_text("p", &value(r#"{"a": 1}"#), &value(r#"{"os": "x"}"#), &report),
        format!(
            "active profile: p\n\nresolved profile:\n{{\n  \"a\": 1\n}}\n\ncapability probe:\n  os: x\n\nmodel auth:\n{shown}"
        )
    );
    assert_eq!(query_text(&value("[]")), "[]\n");
    // Real numbers are shown so that they are read back.
    let real = value(r#"{"tighten":{"turn_factor":0.6},"n":[1.5,2]}"#);
    assert_eq!(value(&query_text(&real)), real);
    assert_eq!(render_scalar(&value("0.5")), "0.5");
    assert_eq!(value(&render_scalar(&real)), real);
}

#[test]
fn errors_name_the_command() {
    assert_eq!(daemon_error(Asked::Ps, "m"), "daemon error: m");
    assert_eq!(daemon_error(Asked::Delegate, "m"), "daemon error on delegate: m");
    assert_eq!(
        daemon_error(Asked::RegisterAdvisor, "m"),
        "daemon error registering advisor: m"
    );
    assert_eq!(unexpected_response(Asked::Kill, "Ps"), "unexpected response to Kill: Ps");
    assert_eq!(response_document(3, "{}\n"), Ok("{}"));
    assert_eq!(
        response_document(0, ""),
        Err("daemon closed the connection without responding")
    );
}

#[test]
fn commands_say_what_they_did() {
    assert_eq!(
        delegated_text("t", "a"),
        "task_id: t\nadvisor: a\npoll with: maestro task-status --advisor a\n"
    );
    assert_eq!(closed_text("t", "abandoned"), "closed task t (abandoned)\n");
    assert_eq!(merged_text("t"), "merged task t\n");
    assert_eq!(killed_text("t"), "kill requested for task t (interrupted_human)\n");
    assert_eq!(poll_interval(0), 1);
    assert_eq!(poll_interval(5), 5);
    assert_eq!(watch_exit_code(WatchOutcome::Returned), 0);
    assert_eq!(watch_exit_code(WatchOutcome::TimedOut), 2);
}

#[test]
fn kills_are_for_one_named_task() {
    assert_eq!(kill_target(Some("t"), None, false), Ok("t"));
    assert!(kill_target(Some("t"), None, true).unwrap_err().contains("fan-out"));
    assert!(kill_target(None, Some("a"), false).unwrap_err().contains("fan-out"));
    assert_eq!(
        kill_target(None, None, false),
        Err("maestro kill: a task id is required")
    );
}

#[test]
fn logs_are_those_of_the_first_session_with_one() {
    let logs = vec![None, Some("/l/2".to_string()), Some("/l/1".to_string())];
    assert_eq!(log_target("t", &logs).as_deref(), Ok("/l/2"));
    assert_eq!(
        log_target("t", &vec![None]).unwrap_err(),
        "no captured log for task t"
    );
    assert_eq!(log_task(Some("t")), Ok("t"));
    assert_eq!(log_task(None), Err("maestro logs: a task id is required"));
}

#[test]
fn setting_up_is_reported_file_by_file() {
    let report = InitReport {
        wrote_config: true,
        lockdown: LockdownReport {
            settings: FileOutcome::Created,
            mcp: FileOutcome::Merged,
            claude_md: FileOutcome::Unchanged,
        },
    };
    let text = init_text(&report, &client(), "/c", "/d", "/s", "/r");
    assert_eq!(
        text,
        "wrote starter config: /c\nensured directories:\n  data:  /d\n  state: /s\nadvisor lockdown in /r:\n  .acme/settings.json  (created) — deny Edit/Write/Bash\n  .mcp.json              (merged) — registered maestro MCP server\n  ACME.md              (unchanged) — advisor role pointer\nnote: deny rules are client-side defense-in-depth; the load-bearing control is the read-only mount from `maestro advise`.\n"
    );
    let kept = InitReport { wrote_config: false, ..report };
    assert!(init_text(&kept, &client(), "/c", "/d", "/s", "/r")
        .starts_with("config already exists, left intact: /c\n"));
}

#[test]
fn the_daemons_life_is_told() {
    assert_eq!(
        daemon_status_text(Some(HelloOutcome::Compatible { pid: 7 }), 3),
        "daemon: running (pid 7, protocol version 3)\n"
    );
    assert_eq!(
        daemon_status_text(Some(HelloOutcome::Incompatible { reported: 2 }), 3),
        "daemon: running but INCOMPATIBLE (reports protocol version 2, this CLI speaks 3). Run `maestro daemon restart`.\n"
    );
    assert_eq!(daemon_status_text(None, 3), "daemon: not running\n");
    assert_eq!(
        daemon_start_text(EnsureOutcome { spawned: 1, pid: 8 }),
        "daemon: started (pid 8)\n"
    );
    assert_eq!(
        daemon_start_text(EnsureOutcome { spawned: 0, pid: 8 }),
        "daemon: already running (pid 8)\n"
    );
    assert_eq!(signal_target(12).unwrap(), 12);
    assert_eq!(signal_target(0).unwrap_err().full(), "invalid daemon pid 0");
    assert_eq!(signal_target(i32::MAX as u32).unwrap(), i32::MAX);
    assert!(signal_target(i32::MAX as u32 + 1)
        .unwrap_err()
        .full()
        .starts_with("daemon pid out of range: "));
}

#[test]
fn advise_command_exec_runs_bash_lc() {
    let c = client();
    let (program, args) = advise_command(&c, Some("echo hi"));
    assert_eq!(program, "bash");
    assert_eq!(args, strings(&["-lc", "echo hi"]));
}

#[test]
fn advisors_run_their_client() {
    let c = client();
    let (program, args) = advise_command(&c, None);
    assert_eq!(program, "acme");
    assert!(args.is_empty());
    assert_eq!(home_dir(Some("/h".to_string()), &c).as_deref(), Ok("/h"));
    assert_eq!(
        home_dir(Some(String::new()), &c).unwrap_err(),
        "resolving $HOME (needed writable for Acme Code's ~/.acme)"
    );
    assert!(home_dir(None, &c).is_err());
}

fn advisor(paths: &[&str]) -> AdvisorConfig {
    AdvisorConfig { model: None, context: None, writable_paths: strings(paths) }
}

fn profile(paths: &[&str]) -> Profile {
    Profile {
        concurrency: None,
        watchdog_minutes: None,
        shim: None,
        downgrade_policy: None,
        tighten: None,
        lifetime: None,
        advisor: advisor(paths),
        roles: Roles::none(),
        containment_min: ContainmentMin { tier0: None, tier1: None, tier2: None },
        containment: None,
        search: SearchConfig { backend: None, endpoint: None },
        codex_tighten: None,
    }
}

#[test]
fn writable_paths_from_config() {
    let config = Config {
        default_profile: Some("personal".to_string()),
        defaults: Defaults {
            concurrency: Concurrency { machine_cap: 4, advisor_cap: 2 },
            watchdog_minutes: 10,
            shim: ShimConfig { excerpt_cap_chars: 1500, cache_ttl_hours: 24 },
            downgrade_policy: DowngradePolicy::Tighten,
            tighten: TightenFactors { allowlist_factor_bits: 0, turn_factor_bits: 0 },
            lifetime: LifetimeFactors { token_factor_bits: 0, wall_clock_minutes: 30 },
            advisor: advisor(&["docs"]),
            containment: ContainmentConfig {
                backend: "auto".to_string(),
                network: "deny".to_string(),
                devshell_variant: None,
                podman_image: None,
            },
            proxy: ProxyConfig { enabled: false },
        },
        profiles: vec![
            ("personal".to_string(), profile(&["notes"])),
            ("bare".to_string(), profile(&[])),
        ],
    };
    assert_eq!(resolve_writable_paths(Some(&config), None, None), strings(&["notes"]));
    assert_eq!(resolve_writable_paths(Some(&config), Some("bare"), None), strings(&["docs"]));
    assert_eq!(
        resolve_writable_paths(Some(&config), None, Some("bare")),
        strings(&["docs"])
    );
    assert_eq!(resolve_writable_paths(Some(&config), None, Some("")), strings(&["notes"]));
    assert!(resolve_writable_paths(None, None, None).is_empty());
}

#[test]
fn repo_writable_paths_filtered_to_existing() {
    let asked = strings(&["notes", "does-not-exist", "/notes", "//", "../out"]);
    let candidates = writable_candidates("/repo", &asked);
    assert_eq!(
        candidates,
        strings(&["/repo/notes", "/repo/does-not-exist", "/repo/notes", "/repo/../out"])
    );
    let resolved = vec![
        Some("/repo/notes".to_string()),
        None,
        Some("/repo/notes".to_string()),
        Some("/out".to_string()),
    ];
    let kept = resolve_repo_writable_paths("/repo", &resolved);
    assert_eq!(kept, strings(&["/repo/notes", "/repo/notes"]));
    // A sibling that only begins alike is not inside.
    let beside = vec![Some("/repository".to_string()), Some("/repo".to_string())];
    assert_eq!(resolve_repo_writable_paths("/repo", &beside), strings(&["/repo"]));
}
