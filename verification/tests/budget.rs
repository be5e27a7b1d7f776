use maestro::budget::{
    budget_exhausted, budget_verdict, checked_plan_ceiling, plan_ceiling_duration,
    watchdog_duration,
};
use maestro::clock::MINUTE;
use maestro::config::{
    AdvisorConfig, Concurrency, ContainmentConfig, Defaults, DowngradePolicy, LifetimeFactors,
    ProxyConfig, ShimConfig, TightenFactors,
};
use maestro::resolve::ResolvedProfile;

fn profile(watchdog_minutes: u32) -> ResolvedProfile {
    let defaults = Defaults {
        concurrency: Concurrency { machine_cap: 4, advisor_cap: 2 },
        watchdog_minutes,
        shim: ShimConfig { excerpt_cap_chars: 1500, cache_ttl_hours: 24 },
        downgrade_policy: DowngradePolicy::Tighten,
        tighten: TightenFactors { allowlist_factor_bits: 0, turn_factor_bits: 0 },
        lifetime: LifetimeFactors { token_factor_bits: 0, wall_clock_minutes: 30 },
        advisor: AdvisorConfig { model: None, context: None, writable_paths: vec![] },
        containment: ContainmentConfig {
            backend: "auto".to_string(),
            network: "deny".to_string(),
            devshell_variant: None,
            podman_image: None,
        },
        proxy: ProxyConfig { enabled: false },
    };
    ResolvedProfile::merge(&defaults, None)
}

fn value(text: Option<String>) -> serde_json::Value {
    serde_json::from_str(&text.unwrap()).unwrap()
}

#[test]
fn tokens_stop_a_task_at_its_ceiling() {
    assert!(budget_verdict(Some(100), 60, 39, 30, None, 0).is_none());
    let v = value(budget_verdict(Some(100), 60, 40, 30, None, 0));
    assert_eq!(v["kind"], "budget_exhausted");
    assert_eq!(v["reason"], "lifetime_tokens");
    assert_eq!(v["message"], "task hit its lifetime token ceiling");
    assert_eq!(v["tokens_in"], 60);
    assert_eq!(v["tokens_out"], 40);
    assert_eq!(v["ceiling"], 100);
    // Spending more does not let it go on.
    assert!(budget_verdict(Some(100), 61, 45, 30, None, 0).is_some());
    assert!(budget_verdict(None, 1 << 40, 1 << 40, 30, None, 0).is_none());
}

#[test]
fn the_clock_stops_a_task_at_whole_minutes() {
    let minute = MINUTE as i128;
    let at = |spawned: i128, now: i128| budget_verdict(None, 0, 0, 2, Some(spawned), now);
    assert!(at(0, 2 * minute - 1).is_none());
    let v = value(at(0, 2 * minute));
    assert_eq!(v["reason"], "lifetime_wall_clock");
    assert_eq!(v["message"], "task hit its lifetime wall-clock ceiling");
    assert_eq!(v["elapsed_minutes"], 2);
    assert_eq!(v["ceiling_minutes"], 2);
    assert!(at(0, 9 * minute).is_some());
    assert!(budget_verdict(None, 0, 0, 0, None, minute).is_none());
}

#[test]
fn tokens_are_weighed_before_the_clock() {
    let v = value(budget_verdict(Some(1), 1, 0, 0, Some(0), 1));
    assert_eq!(v["reason"], "lifetime_tokens");
}

#[test]
fn spawn_times_are_read_as_timestamps() {
    // An hour into 2026, in nanoseconds since the epoch.
    let now: i128 = 1_767_229_200_000_000_000;
    let stop = |ts: Option<&str>| budget_exhausted(None, 0, 0, 60, ts, now);
    assert_eq!(value(stop(Some("2026-01-01T00:00:00Z")))["elapsed_minutes"], 60);
    assert!(stop(Some("2026-01-01T00:00:01Z")).is_none());
    assert!(stop(Some("yesterday")).is_none());
    assert!(stop(None).is_none());
    // An offset is part of the instant.
    assert!(stop(Some("2026-01-01T02:00:00+02:00")).is_some());
}

#[test]
fn watchdogs_follow_the_profile_or_the_override() {
    assert_eq!(watchdog_duration(&profile(10), None), 600);
    assert_eq!(watchdog_duration(&profile(0), None), 60);
    assert_eq!(watchdog_duration(&profile(10), Some(" 7 ")), 7);
    assert_eq!(watchdog_duration(&profile(10), Some("0")), 1);
    assert_eq!(watchdog_duration(&profile(10), Some("soon")), 600);
}

#[test]
fn plans_outlast_the_watchdog() {
    assert_eq!(plan_ceiling_duration(&profile(10), None, None), 3000);
    assert_eq!(plan_ceiling_duration(&profile(1), None, None), 300);
    assert_eq!(plan_ceiling_duration(&profile(1), None, Some("7")), 300);
    assert_eq!(plan_ceiling_duration(&profile(1), Some("2"), None), 2);
    let most = u64::MAX.to_string();
    assert_eq!(checked_plan_ceiling(&profile(1), None, Some(&most)), None);
    assert_eq!(checked_plan_ceiling(&profile(1), Some("9"), Some(&most)), Some(9));
    assert_eq!(checked_plan_ceiling(&profile(10), None, None), Some(3000));
}
