use maestro::config::{
    AdvisorConfig, Concurrency, Config, ContainmentConfig, ContainmentMin, Defaults,
    DowngradePolicy, LifetimeFactors, Profile, ProxyConfig, RoleModel, RoleModelTable, Roles,
    SearchConfig, ShimConfig, TightenFactors,
};
use maestro::resolve::{active_profile, resolve, resolved_profile_json, ProfileSource};

fn defaults() -> Defaults {
    Defaults {
        concurrency: Concurrency { machine_cap: 4, advisor_cap: 2 },
        watchdog_minutes: 10,
        shim: ShimConfig { excerpt_cap_chars: 1500, cache_ttl_hours: 24 },
        downgrade_policy: DowngradePolicy::Tighten,
        tighten: TightenFactors {
            allowlist_factor_bits: 0.5f64.to_bits(),
            turn_factor_bits: 0.6f64.to_bits(),
        },
        lifetime: LifetimeFactors {
            token_factor_bits: 1.0f64.to_bits(),
            wall_clock_minutes: 30,
        },
        advisor: AdvisorConfig { model: None, context: None, writable_paths: vec![] },
        containment: ContainmentConfig {
            backend: "auto".to_string(),
            network: "deny".to_string(),
            devshell_variant: None,
            podman_image: None,
        },
        proxy: ProxyConfig { enabled: false },
    }
}

fn bare(model: &str) -> Option<RoleModel> {
    Some(RoleModel::Bare(model.to_string()))
}

fn driven(model: &str) -> Option<RoleModel> {
    Some(RoleModel::Detailed(RoleModelTable {
        model: model.to_string(),
        kind: Some("driven_cli".to_string()),
        base_url: None,
        command: None,
        args: None,
        adapter: None,
        turn_budget: Some(25),
        max_budget_usd_bits: None,
    }))
}

fn fixture() -> Config {
    let personal = Profile {
        concurrency: None,
        watchdog_minutes: None,
        shim: None,
        downgrade_policy: None,
        tighten: None,
        lifetime: None,
        advisor: AdvisorConfig {
            model: Some("fable-5".to_string()),
            context: Some("standard".to_string()),
            writable_paths: vec![],
        },
        roles: Roles {
            tier0: bare("sonnet-4-6"),
            tier1: driven("codex"),
            tier2: bare("opus-4-8"),
            verifier_floor: bare("sonnet-4-6"),
            shim: None,
        },
        containment_min: ContainmentMin { tier0: Some(0), tier1: Some(1), tier2: Some(2) },
        containment: None,
        search: SearchConfig {
            backend: Some("searxng".to_string()),
            endpoint: Some("https://searx.internal:8443".to_string()),
        },
        codex_tighten: None,
    };
    let work = Profile {
        concurrency: None,
        watchdog_minutes: Some(20),
        shim: None,
        downgrade_policy: Some(DowngradePolicy::Tighten),
        tighten: None,
        lifetime: None,
        advisor: AdvisorConfig {
            model: Some("opus-4-7".to_string()),
            context: Some("1m".to_string()),
            writable_paths: vec![],
        },
        roles: Roles {
            tier0: bare("sonnet-4-6"),
            tier1: driven("sonnet-4-6"),
            tier2: bare("opus-4-7"),
            verifier_floor: bare("sonnet-4-6"),
            shim: None,
        },
        containment_min: ContainmentMin { tier0: Some(0), tier1: Some(0), tier2: Some(1) },
        containment: None,
        search: SearchConfig { backend: None, endpoint: None },
        codex_tighten: None,
    };
    Config {
        default_profile: Some("personal".to_string()),
        defaults: defaults(),
        profiles: vec![("personal".to_string(), personal), ("work".to_string(), work)],
    }
}

fn empty_config() -> Config {
    Config { default_profile: None, defaults: defaults(), profiles: vec![] }
}

#[test]
fn precedence_flag_wins() {
    let cfg = fixture();
    let a = active_profile(Some("work"), Some("personal"), &cfg);
    assert_eq!(a.name, "work");
    assert_eq!(a.source, ProfileSource::Flag);
}

#[test]
fn precedence_env_over_default_key() {
    let cfg = fixture();
    let a = active_profile(None, Some("work"), &cfg);
    assert_eq!(a.name, "work");
    assert_eq!(a.source, ProfileSource::Env);
}

#[test]
fn precedence_default_key_over_implicit() {
    let cfg = fixture();
    let a = active_profile(None, None, &cfg);
    assert_eq!(a.name, "personal");
    assert_eq!(a.source, ProfileSource::DefaultKey);
}

#[test]
fn precedence_implicit_default_when_nothing_set() {
    let cfg = empty_config();
    let a = active_profile(None, None, &cfg);
    assert_eq!(a.name, "default");
    assert_eq!(a.source, ProfileSource::Implicit);
}

#[test]
fn precedence_empty_flag_and_env_ignored() {
    let cfg = fixture();
    let a = active_profile(Some(""), Some(""), &cfg);
    assert_eq!(a.name, "personal");
    assert_eq!(a.source, ProfileSource::DefaultKey);
}

#[test]
fn merge_defaults_only_value_survives() {
    let cfg = fixture();
    let res = resolve(None, None, &cfg);
    let rp = res.resolved.expect("personal resolves");
    assert_eq!(rp.shim.excerpt_cap_chars, 1500);
    assert_eq!(rp.shim.cache_ttl_hours, 24);
    assert_eq!(f64::from_bits(rp.tighten.allowlist_factor_bits), 0.5);
    assert_eq!(rp.lifetime.wall_clock_minutes, 30);
    assert_eq!(rp.concurrency.machine_cap, 4);
    assert_eq!(rp.watchdog_minutes, 10);
}

#[test]
fn merge_profile_overrides_default() {
    let cfg = fixture();
    let res = resolve(Some("work"), None, &cfg);
    let rp = res.resolved.expect("work resolves");
    assert_eq!(rp.watchdog_minutes, 20, "profile value must override default");
    assert_eq!(rp.downgrade_policy, DowngradePolicy::Tighten);
    assert_eq!(rp.roles.tier2.as_ref().unwrap().model(), "opus-4-7");
    assert_eq!(rp.containment_min.tier2, Some(1));
    assert_eq!(rp.advisor.context.as_deref(), Some("1m"));
}

#[test]
fn merge_advisor_inherits_and_overrides() {
    let cfg = fixture();
    let res = resolve(Some("personal"), None, &cfg);
    let rp = res.resolved.expect("personal resolves");
    assert_eq!(rp.advisor.model.as_deref(), Some("fable-5"));
    assert_eq!(rp.advisor.context.as_deref(), Some("standard"));
    assert!(rp.advisor.writable_paths.is_empty());
}

#[test]
fn explicit_missing_profile_is_error() {
    let cfg = fixture();
    let res = resolve(Some("nonexistent"), None, &cfg);
    assert_eq!(res.profile, "nonexistent");
    let json = resolved_profile_json(&res, Ok(serde_json::Value::Null));
    assert!(json.get("error").is_some(), "json carries an error field");
    let err = res.resolved.as_ref().expect_err("missing explicit profile is an error");
    assert!(err.contains("nonexistent"), "error mentions the name: {err}");
    assert_eq!(
        err,
        "profile \"nonexistent\" requested via --profile but not found in config"
    );
}

#[test]
fn explicit_env_missing_profile_is_error() {
    let cfg = fixture();
    let res = resolve(None, Some("ghost"), &cfg);
    assert!(res.resolved.is_err());
    let err = res.resolved.unwrap_err();
    assert!(err.contains("MAESTRO_PROFILE"), "error names the env source: {err}");
}

#[test]
fn implicit_default_missing_falls_back_to_defaults() {
    let cfg = empty_config();
    let res = resolve(None, None, &cfg);
    assert_eq!(res.profile, "default");
    assert_eq!(res.source, ProfileSource::Implicit);
    let document: serde_json::Value = serde_json::from_str(r#"{"watchdog_minutes": 10}"#).unwrap();
    assert_eq!(resolved_profile_json(&res, Ok(document.clone())), document);
    assert_eq!(
        resolved_profile_json(&res, Err("no".to_string()))["error"],
        "failed to serialize resolved profile: no"
    );
    let rp = res.resolved.expect("implicit default falls back to defaults-only");
    assert_eq!(rp.watchdog_minutes, 10);
    assert_eq!(rp.concurrency.machine_cap, 4);
    assert!(rp.roles.tier0.is_none(), "no profile roles");
}

#[test]
fn default_key_missing_profile_is_error() {
    let mut cfg = empty_config();
    cfg.default_profile = Some("ghost".to_string());
    cfg.defaults.watchdog_minutes = 7;
    let res = resolve(None, None, &cfg);
    assert_eq!(res.profile, "ghost");
    assert_eq!(res.source, ProfileSource::DefaultKey);
    // Nobody asked for it by name: the defaults stand in.
    let rp = res.resolved.expect("default_key missing falls back to defaults");
    assert_eq!(rp.watchdog_minutes, 7);
}

#[test]
fn explicit_sources_are_the_flag_and_the_environment() {
    assert!(ProfileSource::Flag.is_explicit());
    assert!(ProfileSource::Env.is_explicit());
    assert!(!ProfileSource::DefaultKey.is_explicit());
    assert!(!ProfileSource::Implicit.is_explicit());
}
