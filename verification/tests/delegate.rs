use maestro::budget::{
    derive_token_ceiling, effective_turn_cap, requested_turns, wall_clock_ceiling,
    DEFAULT_TURN_BUDGET,
};
use maestro::config::{
    AdvisorConfig, Concurrency, ContainmentConfig, ContainmentMin, Defaults, DowngradePolicy,
    LifetimeFactors, Profile, ProxyConfig, RoleModel, RoleModelTable, Roles, SearchConfig,
    ShimConfig, TightenFactors,
};
use maestro::attempt::Effect;
use maestro::containment::{
    containment_floor, requested_level, tighten_file_cap, ContainmentRecipe, HostContainment,
};
use maestro::delegate::{
    check_commands_look_build_only, created_event, delegate, record_rejected_task,
    rejection_words, scope_base, unrecorded, unserializable, validate_spec, worker_failure,
    worker_opening, worker_queueing, DelegateError, DelegationState,
};
use maestro::domain::{EventKind, Independence, Level, NetworkPolicy, Tier};
use maestro::pipeline::fail;
use maestro::prompt::{
    attempt_prompt, cap_diff, check_fix_preamble, compose_house_rules, driven_env_remove,
    driven_prompt,
};
use maestro::domain::Verdict;
use maestro::resolve::ResolvedProfile;
use maestro::roles::{
    classify_independence, ladder_tier_count, next_configured_tier, role_for_tier, select_backend,
    select_verifier, select_verifier_backend, top_tier, verifier_role, Backend, ResolvedRole,
};
use maestro::task::{
    AcceptanceCriterion, Budget, CheckFailure, CriterionKind, Finding, LifetimeBudget, Report,
    TaskSpec,
};

fn spec(criteria: Vec<AcceptanceCriterion>) -> TaskSpec {
    TaskSpec {
        title: "t".to_string(),
        tier: Tier::T0,
        base_ref: "HEAD".to_string(),
        file_allowlist: vec![],
        instructions: "{}".to_string(),
        acceptance_criteria: criteria,
        check_commands: vec![],
        house_rules_ref: None,
        budget: Budget { turns: None, tokens: None },
        lifetime_budget: LifetimeBudget { tokens: None, wall_clock_minutes: None },
        containment_min: 0,
    }
}

fn crit(id: &str, check: &str, kind: CriterionKind) -> AcceptanceCriterion {
    AcceptanceCriterion { id: id.to_string(), check: check.to_string(), kind }
}

fn defaults() -> Defaults {
    Defaults {
        concurrency: Concurrency { machine_cap: 4, advisor_cap: 2 },
        watchdog_minutes: 10,
        shim: ShimConfig { excerpt_cap_chars: 1500, cache_ttl_hours: 24 },
        downgrade_policy: DowngradePolicy::Tighten,
        tighten: TightenFactors {
            allowlist_factor_bits: 0.5f64.to_bits(),
            turn_factor_bits: 0.6f64.to_bits(),
        },
        lifetime: LifetimeFactors {
            token_factor_bits: 1.0f64.to_bits(),
            wall_clock_minutes: 30,
        },
        advisor: AdvisorConfig { model: None, context: None, writable_paths: vec![] },
        containment: ContainmentConfig {
            backend: "auto".to_string(),
            network: "deny".to_string(),
            devshell_variant: None,
            podman_image: None,
        },
        proxy: ProxyConfig { enabled: false },
    }
}

fn profile(roles: Roles) -> Profile {
    Profile {
        concurrency: None,
        watchdog_minutes: None,
        shim: None,
        downgrade_policy: None,
        tighten: None,
        lifetime: None,
        advisor: AdvisorConfig { model: None, context: None, writable_paths: vec![] },
        roles,
        containment_min: ContainmentMin { tier0: None, tier1: None, tier2: None },
        containment: None,
        search: SearchConfig { backend: None, endpoint: None },
        codex_tighten: None,
    }
}

fn bare(model: &str) -> Option<RoleModel> {
    Some(RoleModel::Bare(model.to_string()))
}

fn resolved(roles: Roles) -> ResolvedProfile {
    ResolvedProfile::merge(&defaults(), Some(&profile(roles)))
}

fn no_roles() -> ResolvedProfile {
    ResolvedProfile::merge(&defaults(), None)
}

fn ladder(tier0: Option<RoleModel>, tier1: Option<RoleModel>, tier2: Option<RoleModel>) -> Roles {
    Roles { tier0, tier1, tier2, verifier_floor: None, shim: None }
}

#[test]
fn build_only_check_commands_are_flagged() {
    let s = |v: &[&str]| v.iter().map(|x| x.to_string()).collect::<Vec<_>>();

    assert!(!check_commands_look_build_only(&[]));

    assert!(check_commands_look_build_only(&s(&["cargo build"])));
    assert!(check_commands_look_build_only(&s(&["cargo build --release", "cargo clippy"])));
    assert!(check_commands_look_build_only(&s(&["nix build .#pkg"])));

    assert!(!check_commands_look_build_only(&s(&["cargo test"])));
    assert!(!check_commands_look_build_only(&s(&["cargo build", "cargo test --all"])));
    assert!(!check_commands_look_build_only(&s(&["cargo nextest run"])));
    assert!(!check_commands_look_build_only(&s(&["CARGO_TEST=1 make TEST"])));
    assert!(!check_commands_look_build_only(&s(&["pytest -q"])));
    assert!(!check_commands_look_build_only(&s(&["npm test"])));
    assert!(!check_commands_look_build_only(&s(&["make check"])));
}

#[test]
fn empty_criteria_rejected() {
    assert!(validate_spec(&spec(vec![])).is_err());
}

#[test]
fn empty_check_rejected() {
    let s = spec(vec![crit("AC1", "   ", CriterionKind::Invariant)]);
    assert!(validate_spec(&s).is_err());
}

#[test]
fn concrete_command_and_invariant_accepted() {
    let s = spec(vec![
        crit("AC1", "cargo test", CriterionKind::Command),
        crit("AC2", "file X exists", CriterionKind::Invariant),
    ]);
    assert!(validate_spec(&s).is_ok());
}

fn contained(backend: &str) -> ContainmentConfig {
    ContainmentConfig {
        backend: backend.to_string(),
        network: "deny".to_string(),
        devshell_variant: None,
        podman_image: None,
    }
}

#[test]
fn recipe_resolve_downgrades_l2_without_nix() {
    // The host has bwrap and no nix: it caps at the first level.
    let host = HostContainment { backend: "bwrap".to_string(), level: Level::L1, downgraded: true };
    let recipe = ContainmentRecipe::resolve(2, &contained("bwrap"), "/repo", host);
    assert_eq!(recipe.requested, Level::L2);
    assert_eq!(recipe.level, Level::L1);
    assert!(recipe.downgraded);
    assert_eq!(recipe.backend, "bwrap");

    let payload: serde_json::Value = serde_json::from_str(&recipe.downgrade_payload()).unwrap();
    assert_eq!(payload["requested"], 2);
    assert_eq!(payload["actual"], 1);
    assert_eq!(payload["backend"], "bwrap");
}

#[test]
fn recipe_resolve_l1_no_backend_to_l0() {
    let host = HostContainment { backend: "none".to_string(), level: Level::L0, downgraded: true };
    let recipe = ContainmentRecipe::resolve(1, &contained("none"), "/r", host);
    assert_eq!(recipe.level, Level::L0);
    assert!(recipe.downgraded);
}

#[test]
fn recipe_resolve_floor_zero_is_l0_no_downgrade() {
    let host = HostContainment { backend: "none".to_string(), level: Level::L0, downgraded: false };
    let recipe = ContainmentRecipe::resolve(0, &contained("auto"), "/r", host);
    assert_eq!(recipe.level, Level::L0);
    assert!(!recipe.downgraded);
}

#[test]
fn sandboxes_carry_the_recipe_into_a_workspace() {
    let host = HostContainment { backend: "bwrap".to_string(), level: Level::L1, downgraded: false };
    let mut cc = contained("bwrap");
    cc.network = "allow".to_string();
    let recipe = ContainmentRecipe::resolve(1, &cc, "/repo", host);
    let sandbox = recipe.spec_for("/w");
    assert_eq!(sandbox.workspace, "/w");
    assert_eq!(sandbox.level, Level::L1);
    assert_eq!(sandbox.backend, "bwrap");
    assert_eq!(sandbox.network, NetworkPolicy::Allow);
    assert_eq!(requested_level(0), Level::L0);
    assert_eq!(requested_level(7), Level::L2);
}

#[test]
fn containment_floor_takes_max_of_profile_and_spec() {
    let rp = no_roles();
    assert_eq!(containment_floor(&rp, Tier::T0, 2), 2);
    assert_eq!(containment_floor(&rp, Tier::T0, 0), 0);
}

#[test]
fn select_backend_by_kind() {
    assert!(select_backend("mock", None, None).is_ok());
    assert!(select_backend("anything", Some("mock"), None).is_ok());

    assert!(select_backend("sonnet-4-6", None, None).is_ok());
    assert!(select_backend("sonnet-4-6", Some("anthropic"), None).is_ok());
    assert!(select_backend(
        "sonnet-4-6",
        Some("anthropic"),
        Some("http://localhost:8080".to_string())
    )
    .is_ok());

    for kind in ["driven_cli", "openai_compat", "bogus"] {
        let err = select_backend("x", Some(kind), None)
            .err()
            .unwrap_or_else(|| panic!("kind {kind} must be unavailable"));
        assert_eq!(err.kind_str(), "model_unavailable", "kind {kind}");
    }
}

#[test]
fn ladder_tier_count_counts_configured_tiers() {
    let rp = resolved(ladder(bare("mock"), None, bare("mock2")));
    assert_eq!(ladder_tier_count(&rp, Tier::T0), 2);
    assert_eq!(ladder_tier_count(&rp, Tier::T2), 1);

    let rp1 = resolved(ladder(bare("mock"), None, None));
    assert_eq!(ladder_tier_count(&rp1, Tier::T0), 1);
}

#[test]
fn the_ladder_skips_gaps() {
    let rp = resolved(ladder(bare("mock"), None, bare("mock2")));
    assert_eq!(top_tier(&rp, Tier::T0), Tier::T2);
    assert_eq!(next_configured_tier(&rp, Tier::T0), Some(Tier::T2));
    assert_eq!(next_configured_tier(&rp, Tier::T2), None);
    let low = resolved(ladder(bare("mock"), None, None));
    assert_eq!(top_tier(&low, Tier::T1), Tier::T1);
}

/// The ceiling as the factor, the budget and the ladder scale it.
fn scaled_tokens(factor: f64, per_attempt: i64, tiers: i64) -> i64 {
    (factor * (per_attempt as f64) * (tiers as f64)).round() as i64
}

#[test]
fn derive_token_ceiling_rules() {
    let rp = resolved(ladder(bare("mock"), bare("mock1"), None));
    let tiers = ladder_tier_count(&rp, Tier::T0);
    assert_eq!(tiers, 2);
    let factor = f64::from_bits(rp.lifetime.token_factor_bits);
    assert_eq!(factor, 1.0);

    let criteria = || vec![crit("AC1", "cargo test", CriterionKind::Command)];

    let mut s = spec(criteria());
    s.budget.tokens = Some(1000);
    assert_eq!(
        derive_token_ceiling(&s, factor > 0.0, scaled_tokens(factor, 1000, tiers)),
        Some(2000)
    );

    let mut s2 = spec(criteria());
    s2.budget.tokens = Some(1000);
    s2.lifetime_budget.tokens = Some(500);
    assert_eq!(
        derive_token_ceiling(&s2, factor > 0.0, scaled_tokens(factor, 1000, tiers)),
        Some(500)
    );

    let s3 = spec(criteria());
    assert_eq!(derive_token_ceiling(&s3, factor > 0.0, 0), None);

    let zero = 0.0f64;
    assert_eq!(derive_token_ceiling(&s, zero > 0.0, scaled_tokens(zero, 1000, tiers)), None);

    let small = 0.4f64;
    assert_eq!(
        derive_token_ceiling(&s, small > 0.0, scaled_tokens(small, 1000, tiers)),
        Some(1000)
    );
}

#[test]
fn the_wall_clock_is_the_tasks_own_or_the_profiles() {
    let rp = no_roles();
    let mut s = spec(vec![]);
    assert_eq!(wall_clock_ceiling(&s, &rp), 30);
    s.lifetime_budget.wall_clock_minutes = Some(7);
    assert_eq!(wall_clock_ceiling(&s, &rp), 7);
}

#[test]
fn role_for_tier_carries_kind_and_base_url() {
    let detailed = RoleModel::Detailed(RoleModelTable {
        model: "qwen".to_string(),
        kind: Some("openai_compat".to_string()),
        base_url: Some("http://localhost:11434/v1".to_string()),
        command: None,
        args: None,
        adapter: None,
        turn_budget: None,
        max_budget_usd_bits: None,
    });
    let rp = resolved(ladder(bare("mock"), Some(detailed), None));

    let t0 = role_for_tier(&rp, Tier::T0).unwrap();
    assert_eq!(t0.model, "mock");
    assert_eq!(t0.kind, None);
    assert_eq!(t0.base_url, None);

    let t1 = role_for_tier(&rp, Tier::T1).unwrap();
    assert_eq!(t1.model, "qwen");
    assert_eq!(t1.kind.as_deref(), Some("openai_compat"));
    assert_eq!(t1.base_url.as_deref(), Some("http://localhost:11434/v1"));
}

fn recipe_with_downgraded(downgraded: bool) -> ContainmentRecipe {
    ContainmentRecipe {
        level: Level::L0,
        backend: "none".to_string(),
        network: NetworkPolicy::Deny,
        flake_dir: "/repo".to_string(),
        devshell_variant: None,
        podman_image: None,
        requested: Level::L0,
        downgraded,
    }
}

fn role_with_kind(kind: Option<&str>) -> ResolvedRole {
    ResolvedRole {
        model: "mock".to_string(),
        kind: kind.map(str::to_string),
        base_url: None,
        command: None,
        args: None,
        adapter: None,
        max_budget_usd_bits: None,
    }
}

fn spec_with_allowlist(n: usize) -> TaskSpec {
    let mut s = spec(vec![crit("AC1", "cargo test", CriterionKind::Command)]);
    s.file_allowlist = (0..n).map(|i| format!("src/f{i}.rs")).collect();
    s
}

/// The length of the allowlist times the factor, rounded up.
fn scaled_files(rp: &ResolvedProfile, n: usize) -> usize {
    (f64::from_bits(rp.tighten.allowlist_factor_bits) * n as f64).ceil() as usize
}

fn file_cap(rp: &ResolvedProfile, downgraded: bool, role: &ResolvedRole, n: usize) -> Option<usize> {
    tighten_file_cap(
        rp,
        &recipe_with_downgraded(downgraded),
        role,
        &spec_with_allowlist(n),
        scaled_files(rp, n),
    )
}

#[test]
fn tighten_file_cap_rules() {
    let rp = no_roles();
    assert_eq!(f64::from_bits(rp.tighten.allowlist_factor_bits), 0.5);
    assert!(!rp.codex_tighten);

    let anthropic = role_with_kind(None);
    let driven = role_with_kind(Some("driven_cli"));

    assert_eq!(file_cap(&rp, true, &anthropic, 4), Some(2));

    let mut rp_codex = no_roles();
    rp_codex.codex_tighten = true;
    assert_eq!(file_cap(&rp_codex, false, &driven, 4), Some(2));
    assert_eq!(file_cap(&rp_codex, false, &anthropic, 4), None);
    assert_eq!(file_cap(&rp, false, &driven, 4), None);
    assert_eq!(file_cap(&rp, true, &anthropic, 0), None);
    assert_eq!(file_cap(&rp, true, &anthropic, 1), Some(1));

    let mut rp_quarter = no_roles();
    rp_quarter.tighten.allowlist_factor_bits = 0.25f64.to_bits();
    assert_eq!(file_cap(&rp_quarter, true, &anthropic, 3), Some(1));
}

fn spec_with_turns(turns: Option<i64>) -> TaskSpec {
    let mut s = spec(vec![crit("AC1", "cargo test", CriterionKind::Command)]);
    s.budget.turns = turns;
    s
}

#[test]
fn driven_env_remove_api_billed_vs_subscription() {
    let api_billed = driven_env_remove(Some(5.0f64.to_bits()));
    assert!(api_billed.is_empty());

    let subscription = driven_env_remove(None);
    assert_eq!(
        subscription,
        vec!["ANTHROPIC_API_KEY", "ANTHROPIC_AUTH_TOKEN", "OPENAI_API_KEY", "CODEX_API_KEY"]
    );
}

fn turn_cap(rp: &ResolvedProfile, downgraded: bool, role: &ResolvedRole, turns: Option<i64>) -> u32 {
    let s = spec_with_turns(turns);
    let scaled =
        (f64::from_bits(rp.tighten.turn_factor_bits) * requested_turns(&s) as f64).floor() as u32;
    effective_turn_cap(rp, &recipe_with_downgraded(downgraded), role, &s, scaled)
}

#[test]
fn effective_turn_cap_rules() {
    let rp = no_roles();
    assert_eq!(f64::from_bits(rp.tighten.turn_factor_bits), 0.6);
    assert!(!rp.codex_tighten);

    let anthropic = role_with_kind(None);
    let driven = role_with_kind(Some("driven_cli"));

    assert_eq!(turn_cap(&rp, false, &driven, Some(30)), 30);
    assert_eq!(turn_cap(&rp, false, &anthropic, None), DEFAULT_TURN_BUDGET);
    assert_eq!(turn_cap(&rp, true, &anthropic, Some(30)), 18);

    let mut rp_codex = no_roles();
    rp_codex.codex_tighten = true;
    assert_eq!(turn_cap(&rp_codex, false, &driven, Some(25)), 15);
    assert_eq!(turn_cap(&rp_codex, false, &anthropic, Some(25)), 25);

    assert_eq!(turn_cap(&rp, true, &anthropic, Some(1)), 1);
}

#[test]
fn turn_budgets_are_never_zero() {
    assert_eq!(DEFAULT_TURN_BUDGET, 25);
    assert_eq!(requested_turns(&spec_with_turns(Some(0))), 1);
    assert_eq!(requested_turns(&spec_with_turns(Some(-3))), 1);
    assert_eq!(requested_turns(&spec_with_turns(Some(1 << 40))), u32::MAX);
}

#[test]
fn check_fix_preamble_names_command_output_and_says_do_not_rewrite() {
    let cf = CheckFailure {
        command: "cargo build -p mycrate".to_string(),
        output_digest: "error[E0382]: use of moved value: `parser`".to_string(),
    };
    let p = check_fix_preamble(&cf);
    assert!(p.contains("cargo build -p mycrate"), "names the failing command");
    assert!(p.contains("use of moved value"), "includes the error output");
    assert!(p.contains("do NOT rewrite") || p.contains("do NOT start over"));
    assert!(p.contains("ALREADY PRESENT"), "worker's edits are present");
    assert!(p.contains("SMALLEST"), "asks for the smallest targeted change");
}

#[test]
fn driven_prompt_states_allowlist_is_a_hard_boundary() {
    let prompt = driven_prompt(&spec_with_allowlist(2));
    assert!(prompt.contains("src/f0.rs") && prompt.contains("src/f1.rs"));
    assert!(prompt.contains("HARD BOUNDARY"));
    assert!(prompt.contains("WILL BE DROPPED"));
    assert!(prompt.contains("STOP and report"));
    assert!(prompt.contains("PLAN"));
}

#[test]
fn the_prompt_holds_no_plan_marker() {
    for n in 0..4 {
        assert!(!driven_prompt(&spec_with_allowlist(n)).contains("PLAN:"));
    }
    let mut s = spec_with_allowlist(1);
    s.title = ":".to_string();
    s.instructions = "AN: and PLAN".to_string();
    assert!(!driven_prompt(&s).contains("PLAN:"));
    s.instructions = "PLAN: mine".to_string();
    assert!(driven_prompt(&s).contains("PLAN:"));
}

#[test]
fn fixing_in_place_puts_the_preamble_before_the_prompt() {
    let cf = CheckFailure { command: "make".to_string(), output_digest: "boom".to_string() };
    let s = spec_with_allowlist(1);
    let both = attempt_prompt(Some(&cf), &s);
    assert_eq!(both, format!("{}{}", check_fix_preamble(&cf), driven_prompt(&s)));
    assert_eq!(attempt_prompt(None, &s), driven_prompt(&s));
}

#[test]
fn house_rules_carry_what_came_before() {
    let report = || Report {
        verdict: Verdict::Fail,
        findings: vec![Finding {
            severity: "high".to_string(),
            criterion_id: Some("AC1".to_string()),
            evidence: "no test".to_string(),
        }],
        body: "{}".to_string(),
    };
    let rules = compose_house_rules("be kind", None, &vec![report()], Some("diff --git"));
    assert!(rules.contains("be kind"));
    assert!(rules.contains("### Prior verifier report 1"));
    assert!(rules.contains("- high [AC1]: no test\n"));
    assert!(rules.contains("diff --git"));
    assert!(rules.contains("### Prior verifier report 1\nverdict is Fail\n"));
    assert_eq!(compose_house_rules("be kind", None, &vec![], None), "be kind");
    // The failing check comes first, then the reports, then the own rules.
    let cf = CheckFailure { command: "make".to_string(), output_digest: "boom".to_string() };
    let both = compose_house_rules("be kind", Some(&cf), &vec![report()], None);
    let reports = compose_house_rules("", None, &vec![report()], None);
    assert_eq!(both, format!("{}{}be kind", check_fix_preamble(&cf), reports));
}

#[test]
fn diffs_are_cut_at_four_thousand_characters() {
    let short = "a".repeat(4000);
    assert_eq!(cap_diff(&short), short);
    let long = "b".repeat(5000);
    let cut = cap_diff(&long);
    assert!(cut.starts_with(&"b".repeat(4000)));
    assert!(!cut.starts_with(&"b".repeat(4001)));
    let wide = format!("a{}", "é".repeat(2000));
    assert_eq!(cap_diff(&wide), wide);
    let wider = "é".repeat(3000);
    assert_eq!(cap_diff(&wider), wider);
    let widest = "é".repeat(4001);
    assert_eq!(cap_diff(&widest), format!("{}\n…[truncated]", "é".repeat(4000)));
}

#[test]
fn unfalsifiable_specs_are_refused() {
    let err = delegate(&spec(vec![]), Ok(no_roles())).unwrap_err();
    assert_eq!(err.kind_str(), "spec_rejected");
    assert_eq!(err.message_public(), "spec has no acceptance criteria");
}

#[test]
fn unresolved_profiles_are_refused() {
    let s = spec(vec![crit("AC1", "true", CriterionKind::Command)]);
    let err = delegate(&s, Err("no such profile".to_string())).unwrap_err();
    assert!(err.message_public().contains("no such profile"));
}

#[test]
fn a_tier_without_a_model_is_refused() {
    let s = spec(vec![crit("AC1", "true", CriterionKind::Command)]);
    let err = delegate(&s, Ok(no_roles())).unwrap_err();
    assert_eq!(err.kind_str(), "model_unavailable");
}

#[test]
fn runnable_specs_are_admitted() {
    let mut s = spec(vec![crit("AC1", "true", CriterionKind::Command)]);
    s.containment_min = 1;
    let admitted = delegate(&s, Ok(resolved(ladder(bare("mock"), None, None)))).unwrap();
    assert_eq!(admitted.role.model, "mock");
    assert_eq!(admitted.floor, 1);
}

#[test]
fn refusals_are_recorded_with_their_kind() {
    let err = DelegateError::SpecRejected("spec has no acceptance criteria".to_string());
    assert_eq!(
        rejection_words(&err),
        "delegate rejected (spec_rejected): spec has no acceptance criteria"
    );
    let task = record_rejected_task(&err);
    assert!(task.events.iter().any(|e| matches!(
        e,
        Effect::Emit { kind: EventKind::Failed, payload: Some(p) }
            if p.contains("spec_rejected") && p.contains("spec has no acceptance criteria")
    )));
    assert_eq!(unserializable("x").kind_str(), "internal_error");
    assert_eq!(unrecorded("x").message_public(), "create_task: x");
}

#[test]
fn created_events_warn_of_checks_that_run_no_tests() {
    let mut s = spec(vec![]);
    s.check_commands = vec!["cargo build".to_string()];
    match created_event(&s) {
        Effect::Emit { kind, payload: Some(p) } => {
            assert_eq!(kind, EventKind::Created);
            let v: serde_json::Value = serde_json::from_str(&p).unwrap();
            assert_eq!(v["warning"], "check_commands_build_only");
            assert!(v["message"].as_str().unwrap().contains("run no tests"));
        }
        other => panic!("expected a warning, got {other:?}"),
    }
    s.check_commands = vec!["cargo test".to_string()];
    assert!(matches!(
        created_event(&s),
        Effect::Emit { kind: EventKind::Created, payload: None }
    ));
}

#[test]
fn slots_are_bounded_and_given_back() {
    let mut state: DelegationState<u32> = DelegationState::new(2);
    assert!(state.try_take_slot());
    assert!(state.try_take_slot());
    assert!(!state.try_take_slot());
    state.release_slot();
    assert!(state.try_take_slot());
    // There is always at least one slot.
    let mut one: DelegationState<u32> = DelegationState::new(0);
    assert!(one.try_take_slot());
    assert!(!one.try_take_slot());
    // Giving back what was not taken gains nothing.
    let mut idle: DelegationState<u32> = DelegationState::new(1);
    idle.release_slot();
    assert!(idle.try_take_slot());
    assert!(!idle.try_take_slot());
}

#[test]
fn sessions_are_found_while_they_live() {
    let mut state: DelegationState<u32> = DelegationState::new(1);
    assert!(state.session_handle("t").is_none());
    state.register_session("t", 7);
    state.register_session("u", 8);
    assert_eq!(state.session_handle("t"), Some(&7));
    state.register_session("t", 9);
    assert_eq!(state.session_handle("t"), Some(&9));
    state.unregister_session("t");
    assert!(state.session_handle("t").is_none());
    assert_eq!(state.session_handle("u"), Some(&8));
}

#[test]
fn workers_announce_downgrades_queues_and_failures() {
    let mut recipe = recipe_with_downgraded(true);
    recipe.requested = Level::L2;
    assert!(matches!(
        worker_opening(&recipe),
        Some(Effect::Emit { kind: EventKind::ContainmentDowngraded, payload: Some(_) })
    ));
    assert!(worker_opening(&recipe_with_downgraded(false)).is_none());
    assert!(worker_queueing(true).is_none());
    assert!(matches!(
        worker_queueing(false),
        Some(Effect::Emit { kind: EventKind::Queued, .. })
    ));
    match worker_failure(&fail("internal_error", "boom".to_string())) {
        Effect::Emit { kind: EventKind::Failed, payload: Some(p) } => {
            let v: serde_json::Value = serde_json::from_str(&p).unwrap();
            assert_eq!(v["kind"], "internal_error");
            assert_eq!(v["message"], "boom");
        }
        other => panic!("expected a failure, got {other:?}"),
    }
    assert_eq!(scope_base(Some("abc"), "main"), "abc");
    assert_eq!(scope_base(None, "main"), "main");
}

#[test]
fn verifiers_are_as_independent_as_the_ladder_allows() {
    assert_eq!(classify_independence("alpha-1", "alpha-1"), Independence::FreshContextOnly);
    assert_eq!(classify_independence("alpha-1", "alpha-2"), Independence::CrossModel);
    assert_eq!(classify_independence("alpha-1", "beta-1"), Independence::CrossProvider);

    let rp = resolved(ladder(bare("alpha-1"), None, bare("beta-1")));
    let (role, independence) = select_verifier(&rp, "alpha-1").unwrap();
    assert_ne!(role.model, "alpha-1");
    assert_eq!(independence, classify_independence("alpha-1", &role.model));
    assert!(verifier_role(&no_roles()).is_none());
    assert!(select_verifier(&no_roles(), "alpha-1").is_none());
    assert!(matches!(
        select_verifier_backend(&role_with_kind(Some("mock")), None),
        Backend::Mock
    ));
}
