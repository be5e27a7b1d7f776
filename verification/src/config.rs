//! Configuration as the rules read it. The factors that configuration gives as
//! floating-point numbers are carried as their bit patterns
//! (`f64::to_bits`): they pass through unchanged, and what is computed from
//! them comes in as an integer where a rule needs it.

use vstd::prelude::*;

verus! {

/// How many workers may run at once.
#[derive(Debug, Clone, Copy, PartialEq, Eq, Structural)]
pub struct Concurrency {
    /// On the whole machine.
    pub machine_cap: u32,
    /// For one advisor.
    pub advisor_cap: u32,
}

/// Limits of the web shim.
#[derive(Debug, Clone, Copy, PartialEq, Eq, Structural)]
pub struct ShimConfig {
    /// The longest excerpt handed to the advisor, in characters (0: no limit).
    pub excerpt_cap_chars: u32,
    /// How long a cached page counts as fresh.
    pub cache_ttl_hours: u32,
}

/// What to do where the host cannot contain a task as asked.
#[derive(Debug, Clone, Copy, PartialEq, Eq, Structural)]
pub enum DowngradePolicy {
    Tighten,
    Refuse,
}

/// How far budgets shrink while a task is tightened.
#[derive(Debug, Clone, Copy, PartialEq, Eq, Structural)]
pub struct TightenFactors {
    /// Bits of the factor on the number of changed files.
    pub allowlist_factor_bits: u64,
    /// Bits of the factor on the number of turns.
    pub turn_factor_bits: u64,
}

/// Ceilings over the whole life of a task.
#[derive(Debug, Clone, Copy, PartialEq, Eq, Structural)]
pub struct LifetimeFactors {
    /// Bits of the factor on the ladder's token budgets.
    pub token_factor_bits: u64,
    /// Minutes from the first spawn.
    pub wall_clock_minutes: i64,
}

/// The least containment level for each tier.
#[derive(Debug, Clone, Copy, PartialEq, Eq, Structural)]
pub struct ContainmentMin {
    pub tier0: Option<u8>,
    pub tier1: Option<u8>,
    pub tier2: Option<u8>,
}

/// The advisor's own settings.
#[derive(Debug)]
pub struct AdvisorConfig {
    pub model: Option<String>,
    pub context: Option<String>,
    /// In-repo globs that the advisor may write.
    pub writable_paths: Vec<String>,
}

/// What a [`AdvisorConfig`] says.
#[verifier::ext_equal]
pub struct AdvisorConfigView {
    pub model: Option<Seq<char>>,
    pub context: Option<Seq<char>>,
    pub writable_paths: Seq<Seq<char>>,
}

impl DeepView for AdvisorConfig {
    type V = AdvisorConfigView;

    open spec fn deep_view(&self) -> AdvisorConfigView {
        AdvisorConfigView {
            model: self.model.deep_view(),
            context: self.context.deep_view(),
            writable_paths: self.writable_paths.deep_view(),
        }
    }
}

impl Clone for AdvisorConfig {
    fn clone(&self) -> (r: Self)
        ensures
            r.deep_view() == self.deep_view(),
    {
        AdvisorConfig {
            model: self.model.clone(),
            context: self.context.clone(),
            writable_paths: self.writable_paths.clone(),
        }
    }
}

/// A role given as a table.
#[derive(Debug)]
pub struct RoleModelTable {
    pub model: String,
    /// Which backend runs the model.
    pub kind: Option<String>,
    pub base_url: Option<String>,
    /// The program of a driven CLI.
    pub command: Option<String>,
    pub args: Option<Vec<String>>,
    /// How a driven CLI is driven.
    pub adapter: Option<String>,
    pub turn_budget: Option<u32>,
    /// Bits of the dollar cap of an API-billed CLI.
    pub max_budget_usd_bits: Option<u64>,
}

/// What a [`RoleModelTable`] says.
#[verifier::ext_equal]
pub struct RoleModelTableView {
    pub model: Seq<char>,
    pub kind: Option<Seq<char>>,
    pub base_url: Option<Seq<char>>,
    pub command: Option<Seq<char>>,
    pub args: Option<Seq<Seq<char>>>,
    pub adapter: Option<Seq<char>>,
    pub turn_budget: Option<u32>,
    pub max_budget_usd_bits: Option<u64>,
}

impl DeepView for RoleModelTable {
    type V = RoleModelTableView;

    open spec fn deep_view(&self) -> RoleModelTableView {
        RoleModelTableView {
            model: self.model.deep_view(),
            kind: self.kind.deep_view(),
            base_url: self.base_url.deep_view(),
            command: self.command.deep_view(),
            args: self.args.deep_view(),
            adapter: self.adapter.deep_view(),
            turn_budget: self.turn_budget,
            max_budget_usd_bits: self.max_budget_usd_bits,
        }
    }
}

impl Clone for RoleModelTable {
    fn clone(&self) -> (r: Self)
        ensures
            r.deep_view() == self.deep_view(),
    {
        RoleModelTable {
            model: self.model.clone(),
            kind: self.kind.clone(),
            base_url: self.base_url.clone(),
            command: self.command.clone(),
            args: self.args.clone(),
            adapter: self.adapter.clone(),
            turn_budget: self.turn_budget,
            max_budget_usd_bits: self.max_budget_usd_bits,
        }
    }
}

/// A role: a model by name, or a table.
#[derive(Debug)]
pub enum RoleModel {
    Bare(String),
    Detailed(RoleModelTable),
}

/// What a [`RoleModel`] says.
#[verifier::ext_equal]
pub enum RoleModelView {
    Bare(Seq<char>),
    Detailed(RoleModelTableView),
}

impl DeepView for RoleModel {
    type V = RoleModelView;

    open spec fn deep_view(&self) -> RoleModelView {
        match self {
            RoleModel::Bare(m) => RoleModelView::Bare(m@),
            RoleModel::Detailed(t) => RoleModelView::Detailed(t.deep_view()),
        }
    }
}

impl Clone for RoleModel {
    fn clone(&self) -> (r: Self)
        ensures
            r.deep_view() == self.deep_view(),
    {
        match self {
            RoleModel::Bare(m) => RoleModel::Bare(m.clone()),
            RoleModel::Detailed(t) => RoleModel::Detailed(t.clone()),
        }
    }
}

impl RoleModelView {
    /// The model's name.
    pub open spec fn model(self) -> Seq<char> {
        match self {
            RoleModelView::Bare(m) => m,
            RoleModelView::Detailed(t) => t.model,
        }
    }
}

impl RoleModel {
    /// The model's name.
    pub fn model(&self) -> (r: &str)
        ensures
            r@ == self.deep_view().model(),
    {
        match self {
            RoleModel::Bare(m) => m,
            RoleModel::Detailed(t) => &t.model,
        }
    }
}

/// The models of a profile.
#[derive(Debug)]
pub struct Roles {
    pub tier0: Option<RoleModel>,
    pub tier1: Option<RoleModel>,
    pub tier2: Option<RoleModel>,
    /// The preferred verifier.
    pub verifier_floor: Option<RoleModel>,
    /// The model behind search and extraction.
    pub shim: Option<RoleModel>,
}

/// What a [`Roles`] says.
#[verifier::ext_equal]
pub struct RolesView {
    pub tier0: Option<RoleModelView>,
    pub tier1: Option<RoleModelView>,
    pub tier2: Option<RoleModelView>,
    pub verifier_floor: Option<RoleModelView>,
    pub shim: Option<RoleModelView>,
}

impl DeepView for Roles {
    type V = RolesView;

    open spec fn deep_view(&self) -> RolesView {
        RolesView {
            tier0: self.tier0.deep_view(),
            tier1: self.tier1.deep_view(),
            tier2: self.tier2.deep_view(),
            verifier_floor: self.verifier_floor.deep_view(),
            shim: self.shim.deep_view(),
        }
    }
}

impl Clone for Roles {
    fn clone(&self) -> (r: Self)
        ensures
            r.deep_view() == self.deep_view(),
    {
        Roles {
            tier0: self.tier0.clone(),
            tier1: self.tier1.clone(),
            tier2: self.tier2.clone(),
            verifier_floor: self.verifier_floor.clone(),
            shim: self.shim.clone(),
        }
    }
}

impl Roles {
    /// No model for any role.
    pub fn none() -> (r: Self)
        ensures
            r.deep_view() == RolesView::none(),
    {
        Roles { tier0: None, tier1: None, tier2: None, verifier_floor: None, shim: None }
    }

    /// The model behind search and extraction: the configured one, or else
    /// `default`.
    pub fn shim_model<'a>(&'a self, default: &'a str) -> (r: &'a str)
        ensures
            r@ == self.deep_view().shim_model(default@),
    {
        match &self.shim {
            Some(role) => role.model(),
            None => default,
        }
    }
}

impl RolesView {
    /// No model for any role.
    pub open spec fn none() -> RolesView {
        RolesView { tier0: None, tier1: None, tier2: None, verifier_floor: None, shim: None }
    }

    /// The model behind search and extraction.
    pub open spec fn shim_model(self, default: Seq<char>) -> Seq<char> {
        match self.shim {
            Some(role) => role.model(),
            None => default,
        }
    }
}

/// How commands are contained.
#[derive(Debug)]
pub struct ContainmentConfig {
    pub backend: String,
    /// `allow` opens the network; anything else closes it.
    pub network: String,
    pub devshell_variant: Option<String>,
    pub podman_image: Option<String>,
}

/// What a [`ContainmentConfig`] says.
#[verifier::ext_equal]
pub struct ContainmentConfigView {
    pub backend: Seq<char>,
    pub network: Seq<char>,
    pub devshell_variant: Option<Seq<char>>,
    pub podman_image: Option<Seq<char>>,
}

impl DeepView for ContainmentConfig {
    type V = ContainmentConfigView;

    open spec fn deep_view(&self) -> ContainmentConfigView {
        ContainmentConfigView {
            backend: self.backend.deep_view(),
            network: self.network.deep_view(),
            devshell_variant: self.devshell_variant.deep_view(),
            podman_image: self.podman_image.deep_view(),
        }
    }
}

impl Clone for ContainmentConfig {
    fn clone(&self) -> (r: Self)
        ensures
            r.deep_view() == self.deep_view(),
    {
        ContainmentConfig {
            backend: self.backend.clone(),
            network: self.network.clone(),
            devshell_variant: self.devshell_variant.clone(),
            podman_image: self.podman_image.clone(),
        }
    }
}

/// Where searches go.
#[derive(Debug)]
pub struct SearchConfig {
    pub backend: Option<String>,
    pub endpoint: Option<String>,
}

/// What a [`SearchConfig`] says.
#[verifier::ext_equal]
pub struct SearchConfigView {
    pub backend: Option<Seq<char>>,
    pub endpoint: Option<Seq<char>>,
}

impl DeepView for SearchConfig {
    type V = SearchConfigView;

    open spec fn deep_view(&self) -> SearchConfigView {
        SearchConfigView {
            backend: self.backend.deep_view(),
            endpoint: self.endpoint.deep_view(),
        }
    }
}

impl Clone for SearchConfig {
    fn clone(&self) -> (r: Self)
        ensures
            r.deep_view() == self.deep_view(),
    {
        SearchConfig {
            backend: self.backend.clone(),
            endpoint: self.endpoint.clone(),
        }
    }
}

/// The credential proxy.
#[derive(Debug, Clone, Copy, PartialEq, Eq, Structural)]
pub struct ProxyConfig {
    pub enabled: bool,
}

/// Settings that hold unless a profile overrides them.
#[derive(Debug)]
pub struct Defaults {
    pub concurrency: Concurrency,
    pub watchdog_minutes: u32,
    pub shim: ShimConfig,
    pub downgrade_policy: DowngradePolicy,
    pub tighten: TightenFactors,
    pub lifetime: LifetimeFactors,
    pub advisor: AdvisorConfig,
    pub containment: ContainmentConfig,
    pub proxy: ProxyConfig,
}

/// What a [`Defaults`] says.
#[verifier::ext_equal]
pub struct DefaultsView {
    pub concurrency: Concurrency,
    pub watchdog_minutes: u32,
    pub shim: ShimConfig,
    pub downgrade_policy: DowngradePolicy,
    pub tighten: TightenFactors,
    pub lifetime: LifetimeFactors,
    pub advisor: AdvisorConfigView,
    pub containment: ContainmentConfigView,
    pub proxy: ProxyConfig,
}

impl DeepView for Defaults {
    type V = DefaultsView;

    open spec fn deep_view(&self) -> DefaultsView {
        DefaultsView {
            concurrency: self.concurrency,
            watchdog_minutes: self.watchdog_minutes,
            shim: self.shim,
            downgrade_policy: self.downgrade_policy,
            tighten: self.tighten,
            lifetime: self.lifetime,
            advisor: self.advisor.deep_view(),
            containment: self.containment.deep_view(),
            proxy: self.proxy,
        }
    }
}

impl Clone for Defaults {
    fn clone(&self) -> (r: Self)
        ensures
            r.deep_view() == self.deep_view(),
    {
        Defaults {
            concurrency: self.concurrency,
            watchdog_minutes: self.watchdog_minutes,
            shim: self.shim,
            downgrade_policy: self.downgrade_policy,
            tighten: self.tighten,
            lifetime: self.lifetime,
            advisor: self.advisor.clone(),
            containment: self.containment.clone(),
            proxy: self.proxy,
        }
    }
}

/// A named set of settings.
#[derive(Debug)]
pub struct Profile {
    pub concurrency: Option<Concurrency>,
    pub watchdog_minutes: Option<u32>,
    pub shim: Option<ShimConfig>,
    pub downgrade_policy: Option<DowngradePolicy>,
    pub tighten: Option<TightenFactors>,
    pub lifetime: Option<LifetimeFactors>,
    pub advisor: AdvisorConfig,
    pub roles: Roles,
    pub containment_min: ContainmentMin,
    pub containment: Option<ContainmentConfig>,
    pub search: SearchConfig,
    pub codex_tighten: Option<bool>,
}

/// What a [`Profile`] says.
#[verifier::ext_equal]
pub struct ProfileView {
    pub concurrency: Option<Concurrency>,
    pub watchdog_minutes: Option<u32>,
    pub shim: Option<ShimConfig>,
    pub downgrade_policy: Option<DowngradePolicy>,
    pub tighten: Option<TightenFactors>,
    pub lifetime: Option<LifetimeFactors>,
    pub advisor: AdvisorConfigView,
    pub roles: RolesView,
    pub containment_min: ContainmentMin,
    pub containment: Option<ContainmentConfigView>,
    pub search: SearchConfigView,
    pub codex_tighten: Option<bool>,
}

impl DeepView for Profile {
    type V = ProfileView;

    open spec fn deep_view(&self) -> ProfileView {
        ProfileView {
            concurrency: self.concurrency,
            watchdog_minutes: self.watchdog_minutes,
            shim: self.shim,
            downgrade_policy: self.downgrade_policy,
            tighten: self.tighten,
            lifetime: self.lifetime,
            advisor: self.advisor.deep_view(),
            roles: self.roles.deep_view(),
            containment_min: self.containment_min,
            containment: self.containment.deep_view(),
            search: self.search.deep_view(),
            codex_tighten: self.codex_tighten,
        }
    }
}

impl Clone for Profile {
    fn clone(&self) -> (r: Self)
        ensures
            r.deep_view() == self.deep_view(),
    {
        Profile {
            concurrency: self.concurrency,
            watchdog_minutes: self.watchdog_minutes,
            shim: self.shim,
            downgrade_policy: self.downgrade_policy,
            tighten: self.tighten,
            lifetime: self.lifetime,
            advisor: self.advisor.clone(),
            roles: self.roles.clone(),
            containment_min: self.containment_min,
            containment: self.containment.clone(),
            search: self.search.clone(),
            codex_tighten: self.codex_tighten,
        }
    }
}

/// A configuration file: defaults and named profiles, each name at most once.
#[derive(Debug)]
pub struct Config {
    pub default_profile: Option<String>,
    pub defaults: Defaults,
    pub profiles: Vec<(String, Profile)>,
}

impl Config {
    /// Whether no two profiles share a name.
    pub open spec fn wf(self) -> bool {
        forall|i: int, j: int|
            0 <= i < j < self.profiles@.len() ==> (#[trigger] self.profiles@[i]).0@ != (
            #[trigger] self.profiles@[j]).0@
    }

    /// Whether profile `i` has the name `name`.
    pub open spec fn named(self, i: int, name: Seq<char>) -> bool {
        0 <= i < self.profiles@.len() && self.profiles@[i].0@ == name
    }

    /// The profile with a name, if there is one.
    pub open spec fn profile(self, name: Seq<char>) -> Option<ProfileView> {
        if exists|i: int| self.named(i, name) {
            let i = choose|i: int| self.named(i, name);
            Some(self.profiles@[i].1.deep_view())
        } else {
            None
        }
    }
}

// ---------------------------------------------------------------------------
// Laws
// ---------------------------------------------------------------------------

/// A profile is found by its name, and by no other.
pub proof fn law_profiles_are_found_by_name(config: Config, i: int)
    requires
        config.wf(),
        0 <= i < config.profiles@.len(),
    ensures
        config.profile(config.profiles@[i].0@) == Some(config.profiles@[i].1.deep_view()),
        forall|name: Seq<char>|
            #![trigger config.profile(name)]
            (forall|j: int| 0 <= j < config.profiles@.len() ==> (#[trigger] config.profiles@[j]).0@
                != name) ==> config.profile(name) is None,
{
    let name = config.profiles@[i].0@;
    assert(config.named(i, name));
    let k = choose|k: int| config.named(k, name);
    assert(k == i);
}

/// The model behind search and extraction is the one that is configured, and the
/// default only where none is.
pub proof fn law_shim_model_is_as_configured(roles: RolesView, default: Seq<char>)
    ensures
        roles.shim is None ==> roles.shim_model(default) == default,
        roles.shim matches Some(RoleModelView::Bare(m)) ==> roles.shim_model(default) == m,
        roles.shim matches Some(RoleModelView::Detailed(t)) ==> roles.shim_model(default)
            == t.model,
{
}

/// What is said of the settings is what they hold, field by field.
pub proof fn law_settings_are_said_whole(
    role_model_table: RoleModelTable,
    roles: Roles,
    advisor_config: AdvisorConfig,
    containment_config: ContainmentConfig,
    search_config: SearchConfig,
    defaults: Defaults,
    profile: Profile,
)
    ensures
        role_model_table.deep_view().model == role_model_table.model.deep_view(),
        role_model_table.deep_view().kind == role_model_table.kind.deep_view(),
        role_model_table.deep_view().base_url == role_model_table.base_url.deep_view(),
        role_model_table.deep_view().command == role_model_table.command.deep_view(),
        role_model_table.deep_view().args == role_model_table.args.deep_view(),
        role_model_table.deep_view().adapter == role_model_table.adapter.deep_view(),
        role_model_table.deep_view().turn_budget == role_model_table.turn_budget,
        role_model_table.deep_view().max_budget_usd_bits == role_model_table.max_budget_usd_bits,
        roles.deep_view().tier0 == roles.tier0.deep_view(),
        roles.deep_view().tier1 == roles.tier1.deep_view(),
        roles.deep_view().tier2 == roles.tier2.deep_view(),
        roles.deep_view().verifier_floor == roles.verifier_floor.deep_view(),
        roles.deep_view().shim == roles.shim.deep_view(),
        advisor_config.deep_view().model == advisor_config.model.deep_view(),
        advisor_config.deep_view().context == advisor_config.context.deep_view(),
        advisor_config.deep_view().writable_paths == advisor_config.writable_paths.deep_view(),
        containment_config.deep_view().backend == containment_config.backend.deep_view(),
        containment_config.deep_view().network == containment_config.network.deep_view(),
        containment_config.deep_view().devshell_variant == containment_config.devshell_variant.deep_view(),
        containment_config.deep_view().podman_image == containment_config.podman_image.deep_view(),
        search_config.deep_view().backend == search_config.backend.deep_view(),
        search_config.deep_view().endpoint == search_config.endpoint.deep_view(),
        defaults.deep_view().concurrency == defaults.concurrency,
        defaults.deep_view().watchdog_minutes == defaults.watchdog_minutes,
        defaults.deep_view().shim == defaults.shim,
        defaults.deep_view().downgrade_policy == defaults.downgrade_policy,
        defaults.deep_view().tighten == defaults.tighten,
        defaults.deep_view().lifetime == defaults.lifetime,
        defaults.deep_view().advisor == defaults.advisor.deep_view(),
        defaults.deep_view().containment == defaults.containment.deep_view(),
        defaults.deep_view().proxy == defaults.proxy,
        profile.deep_view().concurrency == profile.concurrency,
        profile.deep_view().watchdog_minutes == profile.watchdog_minutes,
        profile.deep_view().shim == profile.shim,
        profile.deep_view().downgrade_policy == profile.downgrade_policy,
        profile.deep_view().tighten == profile.tighten,
        profile.deep_view().lifetime == profile.lifetime,
        profile.deep_view().advisor == profile.advisor.deep_view(),
        profile.deep_view().roles == profile.roles.deep_view(),
        profile.deep_view().containment_min == profile.containment_min,
        profile.deep_view().containment == profile.containment.deep_view(),
        profile.deep_view().search == profile.search.deep_view(),
        profile.deep_view().codex_tighten == profile.codex_tighten,
{
}

} // verus!
