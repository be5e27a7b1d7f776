//! Which profile is active, and what it comes to once laid over the defaults.

use crate::config::{
    AdvisorConfig, AdvisorConfigView, Concurrency, Config, ContainmentConfig,
    ContainmentConfigView, ContainmentMin, Defaults, DefaultsView, DowngradePolicy,
    LifetimeFactors, Profile, ProfileView, ProxyConfig, Roles, RolesView, SearchConfig,
    SearchConfigView, ShimConfig, TightenFactors,
};
use crate::json::{self, object, of_object, put_text, Json};
use crate::text::{cat2, cat5, same};
use serde_json::Value;
use vstd::prelude::*;

verus! {

/// Where the active profile's name came from.
#[derive(Debug, Clone, Copy, PartialEq, Eq, Structural)]
pub enum ProfileSource {
    /// The `--profile` flag.
    Flag,
    /// The `MAESTRO_PROFILE` environment variable.
    Env,
    /// The `default_profile` key of the configuration.
    DefaultKey,
    /// Nothing named one.
    Implicit,
}

impl ProfileSource {
    /// Whether someone asked for the profile by name (flag or environment).
    pub open spec fn explicit(self) -> bool {
        self is Flag || self is Env
    }

    /// Whether someone asked for the profile by name (flag or environment).
    pub fn is_explicit(self) -> (r: bool)
        ensures
            r == self.explicit(),
    {
        match self {
            ProfileSource::Flag => true,
            ProfileSource::Env => true,
            ProfileSource::DefaultKey => false,
            ProfileSource::Implicit => false,
        }
    }
}

/// The active profile's name and where it came from.
#[derive(Debug)]
pub struct ActiveProfile {
    pub name: String,
    pub source: ProfileSource,
}

/// A name that was given and is not empty.
pub open spec fn given(name: Option<Seq<char>>) -> Option<Seq<char>> {
    match name {
        Some(n) if n.len() > 0 => Some(n),
        _ => None,
    }
}

/// The active profile by precedence: flag, environment, `default_profile`,
/// then the name `default`. Empty names count as absent.
pub open spec fn active(
    flag: Option<Seq<char>>,
    env: Option<Seq<char>>,
    key: Option<Seq<char>>,
) -> (Seq<char>, ProfileSource) {
    match (given(flag), given(env), given(key)) {
        (Some(n), _, _) => (n, ProfileSource::Flag),
        (None, Some(n), _) => (n, ProfileSource::Env),
        (None, None, Some(n)) => (n, ProfileSource::DefaultKey),
        (None, None, None) => ("default"@, ProfileSource::Implicit),
    }
}

/// Determines the active profile.
pub fn active_profile(flag: Option<&str>, env: Option<&str>, config: &Config) -> (r: ActiveProfile)
    ensures
        (r.name@, r.source) == active(
            flag.deep_view(),
            env.deep_view(),
            config.default_profile.deep_view(),
        ),
{
    match flag {
        Some(name) => {
            if !name.is_empty() {
                return ActiveProfile { name: name.to_owned(), source: ProfileSource::Flag };
            }
        },
        None => {},
    }
    match env {
        Some(name) => {
            if !name.is_empty() {
                return ActiveProfile { name: name.to_owned(), source: ProfileSource::Env };
            }
        },
        None => {},
    }
    match &config.default_profile {
        Some(name) => {
            if !name.as_str().is_empty() {
                return ActiveProfile { name: name.clone(), source: ProfileSource::DefaultKey };
            }
        },
        None => {},
    }
    ActiveProfile { name: "default".to_owned(), source: ProfileSource::Implicit }
}

/// The defaults with a profile laid over them.
#[derive(Debug)]
pub struct ResolvedProfile {
    pub concurrency: Concurrency,
    pub watchdog_minutes: u32,
    pub shim: ShimConfig,
    pub downgrade_policy: DowngradePolicy,
    pub tighten: TightenFactors,
    pub lifetime: LifetimeFactors,
    pub advisor: AdvisorConfig,
    pub roles: Roles,
    pub containment_min: ContainmentMin,
    pub containment: ContainmentConfig,
    pub search: SearchConfig,
    /// Whether driven CLIs are tightened even without a downgrade.
    pub codex_tighten: bool,
    pub proxy: ProxyConfig,
}

/// What a [`ResolvedProfile`] says.
#[verifier::ext_equal]
pub struct ResolvedProfileView {
    pub concurrency: Concurrency,
    pub watchdog_minutes: u32,
    pub shim: ShimConfig,
    pub downgrade_policy: DowngradePolicy,
    pub tighten: TightenFactors,
    pub lifetime: LifetimeFactors,
    pub advisor: AdvisorConfigView,
    pub roles: RolesView,
    pub containment_min: ContainmentMin,
    pub containment: ContainmentConfigView,
    pub search: SearchConfigView,
    pub codex_tighten: bool,
    pub proxy: ProxyConfig,
}

impl DeepView for ResolvedProfile {
    type V = ResolvedProfileView;

    open spec fn deep_view(&self) -> ResolvedProfileView {
        ResolvedProfileView {
            concurrency: self.concurrency,
            watchdog_minutes: self.watchdog_minutes,
            shim: self.shim,
            downgrade_policy: self.downgrade_policy,
            tighten: self.tighten,
            lifetime: self.lifetime,
            advisor: self.advisor.deep_view(),
            roles: self.roles.deep_view(),
            containment_min: self.containment_min,
            containment: self.containment.deep_view(),
            search: self.search.deep_view(),
            codex_tighten: self.codex_tighten,
            proxy: self.proxy,
        }
    }
}

impl Clone for ResolvedProfile {
    fn clone(&self) -> (r: Self)
        ensures
            r.deep_view() == self.deep_view(),
    {
        ResolvedProfile {
            concurrency: self.concurrency,
            watchdog_minutes: self.watchdog_minutes,
            shim: self.shim,
            downgrade_policy: self.downgrade_policy,
            tighten: self.tighten,
            lifetime: self.lifetime,
            advisor: self.advisor.clone(),
            roles: self.roles.clone(),
            containment_min: self.containment_min,
            containment: self.containment.clone(),
            search: self.search.clone(),
            codex_tighten: self.codex_tighten,
            proxy: self.proxy,
        }
    }
}

/// The value of a profile, or the default where the profile has none.
pub open spec fn over<T>(profile: Option<T>, default: T) -> T {
    match profile {
        Some(v) => v,
        None => default,
    }
}

/// The first of two optional values that is present.
pub open spec fn either<T>(first: Option<T>, second: Option<T>) -> Option<T> {
    match first {
        Some(v) => Some(v),
        None => second,
    }
}

/// A profile's advisor settings over the default ones, field by field; an
/// empty list of writable paths counts as absent.
pub open spec fn merged_advisor(
    defaults: AdvisorConfigView,
    profile: AdvisorConfigView,
) -> AdvisorConfigView {
    AdvisorConfigView {
        model: either(profile.model, defaults.model),
        context: either(profile.context, defaults.context),
        writable_paths: if profile.writable_paths.len() == 0 {
            defaults.writable_paths
        } else {
            profile.writable_paths
        },
    }
}

/// The defaults with a profile laid over them: what the profile sets wins, what
/// it leaves out comes from the defaults. Roles, containment minima and search
/// settings stand only in profiles; the proxy only in the defaults.
pub open spec fn merged(d: DefaultsView, profile: Option<ProfileView>) -> ResolvedProfileView {
    match profile {
        None => ResolvedProfileView {
            concurrency: d.concurrency,
            watchdog_minutes: d.watchdog_minutes,
            shim: d.shim,
            downgrade_policy: d.downgrade_policy,
            tighten: d.tighten,
            lifetime: d.lifetime,
            advisor: d.advisor,
            roles: RolesView::none(),
            containment_min: ContainmentMin { tier0: None, tier1: None, tier2: None },
            containment: d.containment,
            search: SearchConfigView { backend: None, endpoint: None },
            codex_tighten: false,
            proxy: d.proxy,
        },
        Some(p) => ResolvedProfileView {
            concurrency: over(p.concurrency, d.concurrency),
            watchdog_minutes: over(p.watchdog_minutes, d.watchdog_minutes),
            shim: over(p.shim, d.shim),
            downgrade_policy: over(p.downgrade_policy, d.downgrade_policy),
            tighten: over(p.tighten, d.tighten),
            lifetime: over(p.lifetime, d.lifetime),
            advisor: merged_advisor(d.advisor, p.advisor),
            roles: p.roles,
            containment_min: p.containment_min,
            containment: over(p.containment, d.containment),
            search: p.search,
            codex_tighten: over(p.codex_tighten, false),
            proxy: d.proxy,
        },
    }
}

fn copy_or(first: &Option<String>, second: &Option<String>) -> (r: Option<String>)
    ensures
        r.deep_view() == either(first.deep_view(), second.deep_view()),
{
    match first {
        Some(v) => Some(v.clone()),
        None => second.clone(),
    }
}

fn merge_advisor(defaults: &AdvisorConfig, profile: &AdvisorConfig) -> (r: AdvisorConfig)
    ensures
        r.deep_view() == merged_advisor(defaults.deep_view(), profile.deep_view()),
{
    AdvisorConfig {
        model: copy_or(&profile.model, &defaults.model),
        context: copy_or(&profile.context, &defaults.context),
        writable_paths: if profile.writable_paths.len() == 0 {
            defaults.writable_paths.clone()
        } else {
            profile.writable_paths.clone()
        },
    }
}

impl ResolvedProfile {
    /// Lays an optional profile over the defaults.
    pub fn merge(defaults: &Defaults, profile: Option<&Profile>) -> (r: Self)
        ensures
            r.deep_view() == merged(defaults.deep_view(), profile.deep_view()),
    {
        match profile {
            None => ResolvedProfile {
                concurrency: defaults.concurrency,
                watchdog_minutes: defaults.watchdog_minutes,
                shim: defaults.shim,
                downgrade_policy: defaults.downgrade_policy,
                tighten: defaults.tighten,
                lifetime: defaults.lifetime,
                advisor: defaults.advisor.clone(),
                roles: Roles::none(),
                containment_min: ContainmentMin { tier0: None, tier1: None, tier2: None },
                containment: defaults.containment.clone(),
                search: SearchConfig { backend: None, endpoint: None },
                codex_tighten: false,
                proxy: defaults.proxy,
            },
            Some(p) => ResolvedProfile {
                concurrency: p.concurrency.unwrap_or(defaults.concurrency),
                watchdog_minutes: p.watchdog_minutes.unwrap_or(defaults.watchdog_minutes),
                shim: p.shim.unwrap_or(defaults.shim),
                downgrade_policy: p.downgrade_policy.unwrap_or(defaults.downgrade_policy),
                tighten: p.tighten.unwrap_or(defaults.tighten),
                lifetime: p.lifetime.unwrap_or(defaults.lifetime),
                advisor: merge_advisor(&defaults.advisor, &p.advisor),
                roles: p.roles.clone(),
                containment_min: p.containment_min,
                containment: match &p.containment {
                    Some(c) => c.clone(),
                    None => defaults.containment.clone(),
                },
                search: p.search.clone(),
                codex_tighten: p.codex_tighten.unwrap_or(false),
                proxy: defaults.proxy,
            },
        }
    }
}

/// The outcome of resolving the configuration.
#[derive(Debug)]
pub struct Resolution {
    pub profile: String,
    pub source: ProfileSource,
    pub resolved: Result<ResolvedProfile, String>,
}

/// How an error names the source of a profile request.
pub open spec fn source_words(source: ProfileSource) -> Seq<char> {
    match source {
        ProfileSource::Flag => "--profile"@,
        ProfileSource::Env => "MAESTRO_PROFILE"@,
        _ => "explicit request"@,
    }
}

/// The words for a profile that was asked for and does not exist.
pub open spec fn missing_profile(name: Seq<char>, source: ProfileSource) -> Seq<char> {
    "profile \""@ + name + "\" requested via "@ + source_words(source)
        + " but not found in config"@
}

impl Resolution {
    /// The profile this resolution arrived at, if it did.
    pub open spec fn outcome(self) -> Result<ResolvedProfileView, Seq<char>> {
        match self.resolved {
            Ok(rp) => Ok(rp.deep_view()),
            Err(e) => Err(e@),
        }
    }
}

/// What a configuration resolves to: the named profile over the defaults; the
/// defaults alone where nobody asked for the missing profile by name; an error
/// where someone did.
pub open spec fn resolution(
    flag: Option<Seq<char>>,
    env: Option<Seq<char>>,
    config: Config,
) -> Result<ResolvedProfileView, Seq<char>> {
    let (name, source) = active(flag, env, config.default_profile.deep_view());
    let profile = config.profile(name);
    if profile is None && source.explicit() {
        Err(missing_profile(name, source))
    } else {
        Ok(merged(config.defaults.deep_view(), profile))
    }
}

/// Finds a profile by name.
pub(crate) fn find<'a>(config: &'a Config, name: &str) -> (r: Option<&'a Profile>)
    requires
        config.wf(),
    ensures
        r.deep_view() == config.profile(name@),
{
    let mut i: usize = 0;
    while i < config.profiles.len()
        invariant
            i <= config.profiles@.len(),
            config.wf(),
            forall|j: int| 0 <= j < i ==> !config.named(j, name@),
        decreases config.profiles@.len() - i,
    {
        let (key, profile) = &config.profiles[i];
        if same(key, name) {
            proof {
                assert(config.named(i as int, name@));
                let c = choose|c: int| config.named(c, name@);
                assert(config.named(c, name@));
                assert(c == i) by {
                    if c < i {
                        assert(config.profiles@[c].0@ != config.profiles@[i as int].0@);
                    } else if c > i {
                        assert(config.profiles@[i as int].0@ != config.profiles@[c].0@);
                    }
                }
            }
            return Some(profile);
        }
        i = i + 1;
    }
    assert(forall|j: int| !config.named(j, name@));
    None
}

/// Resolves the configuration: picks the active profile, lays it over the
/// defaults.
pub fn resolve(flag: Option<&str>, env: Option<&str>, config: &Config) -> (r: Resolution)
    requires
        config.wf(),
    ensures
        (r.profile@, r.source) == active(
            flag.deep_view(),
            env.deep_view(),
            config.default_profile.deep_view(),
        ),
        r.outcome() == resolution(flag.deep_view(), env.deep_view(), *config),
{
    let active = active_profile(flag, env, config);
    let profile = find(config, &active.name);
    let resolved = if profile.is_none() && active.source.is_explicit() {
        let via = match active.source {
            ProfileSource::Flag => "--profile",
            ProfileSource::Env => "MAESTRO_PROFILE",
            _ => "explicit request",
        };
        Err(
            cat5(
                "profile \"",
                &active.name,
                "\" requested via ",
                via,
                " but not found in config",
            ),
        )
    } else {
        Ok(ResolvedProfile::merge(&config.defaults, profile))
    };
    Resolution { profile: active.name, source: active.source, resolved }
}

/// An object that says what went wrong.
pub open spec fn trouble(message: Seq<char>) -> Json {
    Json::Object(map!["error"@ => Json::Text(message)])
}

fn trouble_value(message: &str) -> (r: Value)
    ensures
        json::document(r) == trouble(message@),
{
    let mut m = object();
    put_text(&mut m, "error", message);
    assert(json::fields(m) =~= map!["error"@ => Json::Text(message@)]);
    of_object(m)
}

/// What a doctor report shows of the resolved profile: the profile as a document,
/// or what went wrong where it did not resolve or could not be made one. `shown`
/// is the document of the profile that `res` resolved to, or the error of making
/// it; it counts only where one resolved.
pub fn resolved_profile_json(res: &Resolution, shown: Result<Value, String>) -> (r: Value)
    ensures
        json::document(r) == (match (res.outcome(), shown) {
            (Ok(_), Ok(v)) => json::document(v),
            (Ok(_), Err(e)) => trouble("failed to serialize resolved profile: "@ + e@),
            (Err(m), _) => trouble(m),
        }),
{
    match &res.resolved {
        Ok(_) => match shown {
            Ok(v) => v,
            Err(e) => trouble_value(&cat2("failed to serialize resolved profile: ", &e)),
        },
        Err(m) => trouble_value(m),
    }
}

// ---------------------------------------------------------------------------
// Laws
// ---------------------------------------------------------------------------

/// The flag beats the environment, which beats the `default_profile` key, which
/// beats the implicit name; empty names never win.
pub proof fn law_precedence(
    flag: Option<Seq<char>>,
    env: Option<Seq<char>>,
    key: Option<Seq<char>>,
)
    ensures
        given(flag) is Some ==> active(flag, env, key) == (flag->0, ProfileSource::Flag),
        given(flag) is None && given(env) is Some ==> active(flag, env, key) == (
            env->0,
            ProfileSource::Env,
        ),
        given(flag) is None && given(env) is None && given(key) is Some ==> active(flag, env, key)
            == (key->0, ProfileSource::DefaultKey),
        given(flag) is None && given(env) is None && given(key) is None ==> active(flag, env, key)
            == ("default"@, ProfileSource::Implicit),
{
}

/// Resolution fails exactly where a profile was asked for by name and is
/// missing; a missing `default_profile` or implicit profile falls back to the
/// defaults.
pub proof fn law_only_explicit_requests_fail(
    flag: Option<Seq<char>>,
    env: Option<Seq<char>>,
    config: Config,
)
    ensures
        ({
            let (name, source) = active(flag, env, config.default_profile.deep_view());
            let r = resolution(flag, env, config);
            &&& r is Err <==> source.explicit() && config.profile(name) is None
            &&& !source.explicit() && config.profile(name) is None ==> (r matches Ok(rp) && rp
                == merged(config.defaults.deep_view(), None))
        }),
{
}

/// A setting that the profile leaves out comes from the defaults, and one that
/// it makes overrides them.
pub proof fn law_profile_over_defaults(d: DefaultsView, p: ProfileView)
    ensures
        ({
            let r = merged(d, Some(p));
            &&& r.watchdog_minutes == over(p.watchdog_minutes, d.watchdog_minutes)
            &&& r.concurrency == over(p.concurrency, d.concurrency)
            &&& r.shim == over(p.shim, d.shim)
            &&& r.downgrade_policy == over(p.downgrade_policy, d.downgrade_policy)
            &&& r.tighten == over(p.tighten, d.tighten)
            &&& r.lifetime == over(p.lifetime, d.lifetime)
            &&& r.containment == over(p.containment, d.containment)
            &&& p.advisor.model is None ==> r.advisor.model == d.advisor.model
            &&& p.advisor.model is Some ==> r.advisor.model == p.advisor.model
            &&& p.advisor.writable_paths.len() > 0 ==> r.advisor.writable_paths
                == p.advisor.writable_paths
            &&& r.roles == p.roles
            &&& r.proxy == d.proxy
        }),
{
}

/// Every setting that a profile makes is the one that holds, and every setting
/// that it leaves out is the default; what stands only in profiles comes from the
/// profile alone, and without one there is none of it.
pub proof fn law_each_setting_comes_from_its_place(d: DefaultsView, p: ProfileView)
    ensures
        ({
            let r = merged(d, Some(p));
            &&& p.concurrency matches Some(v) ==> r.concurrency == v
            &&& p.concurrency is None ==> r.concurrency == d.concurrency
            &&& p.watchdog_minutes matches Some(v) ==> r.watchdog_minutes == v
            &&& p.watchdog_minutes is None ==> r.watchdog_minutes == d.watchdog_minutes
            &&& p.shim matches Some(v) ==> r.shim == v
            &&& p.shim is None ==> r.shim == d.shim
            &&& p.downgrade_policy matches Some(v) ==> r.downgrade_policy == v
            &&& p.downgrade_policy is None ==> r.downgrade_policy == d.downgrade_policy
            &&& p.tighten matches Some(v) ==> r.tighten == v
            &&& p.tighten is None ==> r.tighten == d.tighten
            &&& p.lifetime matches Some(v) ==> r.lifetime == v
            &&& p.lifetime is None ==> r.lifetime == d.lifetime
            &&& p.containment matches Some(v) ==> r.containment == v
            &&& p.containment is None ==> r.containment == d.containment
            &&& p.advisor.model matches Some(v) ==> r.advisor.model == Some(v)
            &&& p.advisor.model is None ==> r.advisor.model == d.advisor.model
            &&& p.advisor.context matches Some(v) ==> r.advisor.context == Some(v)
            &&& p.advisor.context is None ==> r.advisor.context == d.advisor.context
            &&& p.advisor.writable_paths.len() > 0 ==> r.advisor.writable_paths
                == p.advisor.writable_paths
            &&& p.advisor.writable_paths.len() == 0 ==> r.advisor.writable_paths
                == d.advisor.writable_paths
            &&& p.codex_tighten matches Some(v) ==> r.codex_tighten == v
            &&& p.codex_tighten is None ==> !r.codex_tighten
            &&& r.roles == p.roles
            &&& r.containment_min == p.containment_min
            &&& r.search == p.search
            &&& r.proxy == d.proxy
        }),
        ({
            let r = merged(d, None);
            &&& r.concurrency == d.concurrency
            &&& r.watchdog_minutes == d.watchdog_minutes
            &&& r.shim == d.shim
            &&& r.downgrade_policy == d.downgrade_policy
            &&& r.tighten == d.tighten
            &&& r.lifetime == d.lifetime
            &&& r.advisor == d.advisor
            &&& r.containment == d.containment
            &&& r.proxy == d.proxy
            &&& !r.codex_tighten
            &&& r.roles.tier0 is None && r.roles.tier1 is None && r.roles.tier2 is None
            &&& r.roles.verifier_floor is None && r.roles.shim is None
            &&& r.containment_min.tier0 is None && r.containment_min.tier1 is None
                && r.containment_min.tier2 is None
            &&& r.search.backend is None && r.search.endpoint is None
        }),
{
}

/// A profile that is there is laid over the defaults, however it was asked for; one
/// that was asked for and is not there is an error that names it and how it was
/// asked for. An error is shown in its own words.
pub proof fn law_named_profiles_are_laid_over_the_defaults(
    flag: Option<Seq<char>>,
    env: Option<Seq<char>>,
    config: Config,
    message: Seq<char>,
)
    ensures
        ({
            let (name, source) = active(flag, env, config.default_profile.deep_view());
            let r = resolution(flag, env, config);
            &&& config.profile(name) matches Some(p) ==> r == Ok::<ResolvedProfileView, Seq<char>>(
                merged(config.defaults.deep_view(), Some(p)),
            )
            &&& r matches Err(e) ==> e == "profile \""@ + name + "\" requested via "@ + (
            if source is Flag {
                "--profile"@
            } else {
                "MAESTRO_PROFILE"@
            }) + " but not found in config"@
            &&& source.explicit() <==> source is Flag || source is Env
        }),
        flag matches Some(n) ==> (n.len() > 0 ==> given(flag) == flag) && (n.len() == 0 ==> given(
            flag,
        ) is None),
        given(None) is None,
        trouble(message) == Json::Object(map!["error"@ => Json::Text(message)]),
{
}

} // verus!
