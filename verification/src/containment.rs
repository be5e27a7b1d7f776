//! How strictly a task is contained, and what tightens where the host cannot
//! contain it as asked.

use crate::config::{ContainmentConfig, ContainmentMin};
use crate::domain::{Level, NetworkPolicy, Tier};
use crate::json::{self, compact, object, put_int, put_text, Json};
use crate::resolve::ResolvedProfile;
use crate::roles::ResolvedRole;
use crate::task::TaskSpec;
use crate::text::{opt_is, same};
use vstd::prelude::*;

verus! {

/// The larger of two numbers.
pub open spec fn larger(a: int, b: int) -> int {
    if a >= b {
        a
    } else {
        b
    }
}

/// The profile's least containment level for a tier.
pub open spec fn profile_floor(min: ContainmentMin, tier: Tier) -> int {
    let floor = match tier {
        Tier::T0 => min.tier0,
        Tier::T1 => min.tier1,
        Tier::T2 => min.tier2,
    };
    match floor {
        Some(level) => level as int,
        None => 0,
    }
}

/// The containment floor of a task: a task can only raise what its profile
/// demands.
pub fn containment_floor(rp: &ResolvedProfile, tier: Tier, spec_min: u8) -> (r: u8)
    ensures
        r == larger(profile_floor(rp.containment_min, tier), spec_min as int),
{
    let floor: Option<u8> = match tier {
        Tier::T0 => rp.containment_min.tier0,
        Tier::T1 => rp.containment_min.tier1,
        Tier::T2 => rp.containment_min.tier2,
    };
    let floor: u8 = match floor {
        Some(level) => level,
        None => 0,
    };
    if floor >= spec_min {
        floor
    } else {
        spec_min
    }
}

/// How every surface of a task is contained, settled once when the task is taken
/// in.
#[derive(Debug)]
pub struct ContainmentRecipe {
    /// The level the host can give.
    pub level: Level,
    /// The name of the sandbox backend.
    pub backend: String,
    pub network: NetworkPolicy,
    /// Where the development shell is described.
    pub flake_dir: String,
    pub devshell_variant: Option<String>,
    pub podman_image: Option<String>,
    /// The level that was asked for.
    pub requested: Level,
    /// Whether the host forced a lower level.
    pub downgraded: bool,
}

/// What a [`ContainmentRecipe`] says.
#[verifier::ext_equal]
pub struct ContainmentRecipeView {
    pub level: Level,
    pub backend: Seq<char>,
    pub network: NetworkPolicy,
    pub flake_dir: Seq<char>,
    pub devshell_variant: Option<Seq<char>>,
    pub podman_image: Option<Seq<char>>,
    pub requested: Level,
    pub downgraded: bool,
}

impl DeepView for ContainmentRecipe {
    type V = ContainmentRecipeView;

    open spec fn deep_view(&self) -> ContainmentRecipeView {
        ContainmentRecipeView {
            level: self.level,
            backend: self.backend.deep_view(),
            network: self.network,
            flake_dir: self.flake_dir.deep_view(),
            devshell_variant: self.devshell_variant.deep_view(),
            podman_image: self.podman_image.deep_view(),
            requested: self.requested,
            downgraded: self.downgraded,
        }
    }
}

impl Clone for ContainmentRecipe {
    fn clone(&self) -> (r: Self)
        ensures
            r.deep_view() == self.deep_view(),
    {
        ContainmentRecipe {
            level: self.level,
            backend: self.backend.clone(),
            network: self.network,
            flake_dir: self.flake_dir.clone(),
            devshell_variant: self.devshell_variant.clone(),
            podman_image: self.podman_image.clone(),
            requested: self.requested,
            downgraded: self.downgraded,
        }
    }
}

/// How one command in one workspace is contained.
#[derive(Debug)]
pub struct SandboxSpec {
    pub level: Level,
    pub backend: String,
    pub workspace: String,
    pub network: NetworkPolicy,
    pub flake_dir: Option<String>,
    pub devshell_variant: Option<String>,
    pub podman_image: Option<String>,
}

/// What a [`SandboxSpec`] says.
#[verifier::ext_equal]
pub struct SandboxSpecView {
    pub level: Level,
    pub backend: Seq<char>,
    pub workspace: Seq<char>,
    pub network: NetworkPolicy,
    pub flake_dir: Option<Seq<char>>,
    pub devshell_variant: Option<Seq<char>>,
    pub podman_image: Option<Seq<char>>,
}

impl DeepView for SandboxSpec {
    type V = SandboxSpecView;

    open spec fn deep_view(&self) -> SandboxSpecView {
        SandboxSpecView {
            level: self.level,
            backend: self.backend.deep_view(),
            workspace: self.workspace.deep_view(),
            network: self.network,
            flake_dir: self.flake_dir.deep_view(),
            devshell_variant: self.devshell_variant.deep_view(),
            podman_image: self.podman_image.deep_view(),
        }
    }
}

impl Clone for SandboxSpec {
    fn clone(&self) -> (r: Self)
        ensures
            r.deep_view() == self.deep_view(),
    {
        SandboxSpec {
            level: self.level,
            backend: self.backend.clone(),
            workspace: self.workspace.clone(),
            network: self.network,
            flake_dir: self.flake_dir.clone(),
            devshell_variant: self.devshell_variant.clone(),
            podman_image: self.podman_image.clone(),
        }
    }
}

/// The level a floor asks for; floors above the highest level ask for it.
pub open spec fn level_of(floor: int) -> Level {
    if floor <= 0 {
        Level::L0
    } else if floor == 1 {
        Level::L1
    } else {
        Level::L2
    }
}

/// The level a floor asks for.
pub fn requested_level(floor: u8) -> (r: Level)
    ensures
        r == level_of(floor as int),
{
    if floor == 0 {
        Level::L0
    } else if floor == 1 {
        Level::L1
    } else {
        Level::L2
    }
}

/// The network policy a configuration word stands for: `allow` opens the
/// network, anything else closes it.
pub open spec fn network_of(word: Seq<char>) -> NetworkPolicy {
    if word == "allow"@ {
        NetworkPolicy::Allow
    } else {
        NetworkPolicy::Deny
    }
}

/// What the host's sandbox makes of a request.
#[derive(Debug)]
pub struct HostContainment {
    /// The name of the backend it uses.
    pub backend: String,
    /// The level it can give.
    pub level: Level,
    /// Whether that is below what was asked for.
    pub downgraded: bool,
}

impl ContainmentRecipe {
    /// Settles how a task is contained, from the floor that was asked for and
    /// what the host makes of it.
    pub fn resolve(
        requested_floor: u8,
        containment: &ContainmentConfig,
        repo: &str,
        host: HostContainment,
    ) -> (r: Self)
        ensures
            r.deep_view() == (ContainmentRecipeView {
                level: host.level,
                backend: host.backend@,
                network: network_of(containment.network@),
                flake_dir: repo@,
                devshell_variant: containment.devshell_variant.deep_view(),
                podman_image: containment.podman_image.deep_view(),
                requested: level_of(requested_floor as int),
                downgraded: host.downgraded,
            }),
    {
        ContainmentRecipe {
            level: host.level,
            backend: host.backend,
            network: if same(&containment.network, "allow") {
                NetworkPolicy::Allow
            } else {
                NetworkPolicy::Deny
            },
            flake_dir: repo.to_owned(),
            devshell_variant: containment.devshell_variant.clone(),
            podman_image: containment.podman_image.clone(),
            requested: requested_level(requested_floor),
            downgraded: host.downgraded,
        }
    }

    /// The containment of a command in a workspace.
    pub fn spec_for(&self, workspace: &str) -> (r: SandboxSpec)
        ensures
            r.deep_view() == self.deep_view().in_workspace(workspace@),
    {
        SandboxSpec {
            level: self.level,
            backend: self.backend.clone(),
            workspace: workspace.to_owned(),
            network: self.network,
            flake_dir: Some(self.flake_dir.clone()),
            devshell_variant: self.devshell_variant.clone(),
            podman_image: self.podman_image.clone(),
        }
    }

    /// The payload of the event that records a downgrade.
    pub fn downgrade_payload(&self) -> (r: String)
        ensures
            r@ == json::compact_text(self.deep_view().downgrade()),
    {
        let mut m = object();
        put_int(&mut m, "requested", self.requested.as_u8() as i64);
        put_int(&mut m, "actual", self.level.as_u8() as i64);
        put_text(&mut m, "backend", &self.backend);
        assert(json::fields(m) =~= self.deep_view().downgrade());
        compact(m)
    }
}

impl ContainmentRecipeView {
    /// The containment of a command in a workspace.
    pub open spec fn in_workspace(self, workspace: Seq<char>) -> SandboxSpecView {
        SandboxSpecView {
            level: self.level,
            backend: self.backend,
            workspace,
            network: self.network,
            flake_dir: Some(self.flake_dir),
            devshell_variant: self.devshell_variant,
            podman_image: self.podman_image,
        }
    }

    /// The fields that record a downgrade.
    pub open spec fn downgrade(self) -> Map<Seq<char>, Json> {
        map![
            "requested"@ => Json::Int(self.requested.rank()),
            "actual"@ => Json::Int(self.level.rank()),
            "backend"@ => Json::Text(self.backend),
        ]
    }
}

/// Whether a task runs tightened: its containment was downgraded, or its
/// profile tightens driven CLIs and its role is one.
pub open spec fn tightened(
    downgraded: bool,
    codex_tighten: bool,
    kind: Option<Seq<char>>,
) -> bool {
    downgraded || (codex_tighten && kind == Some("driven_cli"@))
}

/// Whether a task runs tightened.
pub fn tightening_active(rp: &ResolvedProfile, recipe: &ContainmentRecipe, role: &ResolvedRole) -> (r:
    bool)
    ensures
        r == tightened(recipe.downgraded, rp.codex_tighten, role.kind.deep_view()),
{
    recipe.downgraded || (rp.codex_tighten && opt_is(&role.kind, "driven_cli"))
}

/// The cap on the changed files of a tightened task: `scaled`, but at least one.
/// No cap where the task is not tightened or nothing may change anyway.
pub open spec fn file_cap(tightened: bool, entries: nat, scaled: usize) -> Option<usize> {
    if tightened && entries > 0 {
        Some(
            if scaled >= 1 {
                scaled
            } else {
                1usize
            },
        )
    } else {
        None
    }
}

/// The cap on the changed files of a tightened task; `scaled` is the allowlist's
/// length times the profile's factor, rounded up.
pub fn tighten_file_cap(
    rp: &ResolvedProfile,
    recipe: &ContainmentRecipe,
    role: &ResolvedRole,
    spec: &TaskSpec,
    scaled: usize,
) -> (r: Option<usize>)
    ensures
        r == file_cap(
            tightened(recipe.downgraded, rp.codex_tighten, role.kind.deep_view()),
            spec.file_allowlist@.len(),
            scaled,
        ),
{
    if !tightening_active(rp, recipe, role) || spec.file_allowlist.len() == 0 {
        None
    } else if scaled >= 1 {
        Some(scaled)
    } else {
        Some(1)
    }
}

// ---------------------------------------------------------------------------
// Laws
// ---------------------------------------------------------------------------

/// A task's floor is never below its profile's, and never below its own.
pub proof fn law_floor_only_rises(min: ContainmentMin, tier: Tier, spec_min: int)
    ensures
        larger(profile_floor(min, tier), spec_min) >= profile_floor(min, tier),
        larger(profile_floor(min, tier), spec_min) >= spec_min,
{
}

/// A higher floor never asks for a lower level.
pub proof fn law_level_follows_floor(a: int, b: int)
    requires
        a <= b,
    ensures
        level_of(a).rank() <= level_of(b).rank(),
{
}

/// Every workspace of a task is contained at the level the task was settled
/// at, whichever tier runs in it.
pub proof fn law_recipe_holds_everywhere(recipe: ContainmentRecipeView, a: Seq<char>, b: Seq<char>)
    ensures
        recipe.in_workspace(a).level == recipe.level,
        recipe.in_workspace(a).level == recipe.in_workspace(b).level,
        recipe.in_workspace(a).backend == recipe.in_workspace(b).backend,
        recipe.in_workspace(a).network == recipe.in_workspace(b).network,
{
}

/// A tier's floor is the level its profile sets for that tier, and zero where it
/// sets none; the larger of two floors is one of them.
pub proof fn law_floors_are_set_by_tier(min: ContainmentMin, a: int, b: int)
    ensures
        min.tier0 matches Some(level) ==> profile_floor(min, Tier::T0) == level,
        min.tier1 matches Some(level) ==> profile_floor(min, Tier::T1) == level,
        min.tier2 matches Some(level) ==> profile_floor(min, Tier::T2) == level,
        min.tier0 is None ==> profile_floor(min, Tier::T0) == 0,
        min.tier1 is None ==> profile_floor(min, Tier::T1) == 0,
        min.tier2 is None ==> profile_floor(min, Tier::T2) == 0,
        larger(a, b) == a || larger(a, b) == b,
        larger(a, b) >= a && larger(a, b) >= b,
{
}

/// A floor within the levels there are asks for exactly that level, and one above
/// them for the highest.
pub proof fn law_levels_are_asked_for_by_number(floor: int)
    ensures
        0 <= floor <= 2 ==> level_of(floor).rank() == floor,
        floor > 2 ==> level_of(floor).rank() == 2,
        floor < 0 ==> level_of(floor).rank() == 0,
        Level::L0.rank() == 0 && Level::L1.rank() == 1 && Level::L2.rank() == 2,
{
}

/// The network is closed unless the configuration says `allow`, to the letter.
pub proof fn law_network_is_closed_by_default(word: Seq<char>)
    ensures
        network_of(word) is Allow <==> word == "allow"@,
        network_of(word) is Deny <==> word != "allow"@,
{
}

/// A command is contained in its own workspace, with everything else as the task
/// was settled; a downgrade is recorded with the level asked for, the level given
/// and the backend that gave it.
pub proof fn law_commands_are_contained_where_they_run(
    recipe: ContainmentRecipeView,
    workspace: Seq<char>,
)
    ensures
        recipe.in_workspace(workspace) == (SandboxSpecView {
            level: recipe.level,
            backend: recipe.backend,
            workspace,
            network: recipe.network,
            flake_dir: Some(recipe.flake_dir),
            devshell_variant: recipe.devshell_variant,
            podman_image: recipe.podman_image,
        }),
        recipe.downgrade()["requested"@] == Json::Int(recipe.requested.rank()),
        recipe.downgrade()["actual"@] == Json::Int(recipe.level.rank()),
        recipe.downgrade()["backend"@] == Json::Text(recipe.backend),
        recipe.downgrade().dom() =~= set!["requested"@, "actual"@, "backend"@],
{
    reveal_strlit("requested");
    reveal_strlit("actual");
    reveal_strlit("backend");
    assert("requested"@.len() == 9 && "actual"@.len() == 6 && "backend"@.len() == 7);
}

/// A downgraded task always runs tightened, any other only where its profile
/// tightens driven CLIs and its role is one. Tightened, at least one file may
/// change; otherwise none is counted.
pub proof fn law_tightening_is_never_total(
    codex_tighten: bool,
    kind: Option<Seq<char>>,
    entries: nat,
    scaled: usize,
)
    ensures
        tightened(true, codex_tighten, kind),
        tightened(false, codex_tighten, kind) <==> codex_tighten && kind == Some("driven_cli"@),
        file_cap(false, entries, scaled) is None,
        file_cap(true, 0, scaled) is None,
        entries > 0 ==> (file_cap(true, entries, scaled) matches Some(cap) && cap >= 1 && (scaled
            >= 1 ==> cap == scaled)),
{
}

/// What is said of how a task is contained is what it holds, field by field.
pub proof fn law_recipes_are_said_whole(
    containment_recipe: ContainmentRecipe,
    sandbox_spec: SandboxSpec,
)
    ensures
        containment_recipe.deep_view().level == containment_recipe.level,
        containment_recipe.deep_view().backend == containment_recipe.backend.deep_view(),
        containment_recipe.deep_view().network == containment_recipe.network,
        containment_recipe.deep_view().flake_dir == containment_recipe.flake_dir.deep_view(),
        containment_recipe.deep_view().devshell_variant == containment_recipe.devshell_variant.deep_view(),
        containment_recipe.deep_view().podman_image == containment_recipe.podman_image.deep_view(),
        containment_recipe.deep_view().requested == containment_recipe.requested,
        containment_recipe.deep_view().downgraded == containment_recipe.downgraded,
        sandbox_spec.deep_view().level == sandbox_spec.level,
        sandbox_spec.deep_view().backend == sandbox_spec.backend.deep_view(),
        sandbox_spec.deep_view().workspace == sandbox_spec.workspace.deep_view(),
        sandbox_spec.deep_view().network == sandbox_spec.network,
        sandbox_spec.deep_view().flake_dir == sandbox_spec.flake_dir.deep_view(),
        sandbox_spec.deep_view().devshell_variant == sandbox_spec.devshell_variant.deep_view(),
        sandbox_spec.deep_view().podman_image == sandbox_spec.podman_image.deep_view(),
{
}

} // verus!
