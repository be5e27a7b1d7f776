//! Which model does what: the ladder of implementer tiers, the backend behind a
//! role, and the verifier that judges an attempt.

use crate::config::{RoleModel, RoleModelView, RolesView};
use crate::delegate::DelegateError;
use crate::domain::{Independence, Tier};
use crate::resolve::ResolvedProfile;
use crate::text::{self, before, cat2, opt_is, same};
use vstd::prelude::*;

verus! {

/// A role with everything a worker needs to run it.
#[derive(Debug)]
pub struct ResolvedRole {
    pub model: String,
    /// Which backend runs the model.
    pub kind: Option<String>,
    pub base_url: Option<String>,
    /// The program of a driven CLI.
    pub command: Option<String>,
    pub args: Option<Vec<String>>,
    /// How a driven CLI is driven.
    pub adapter: Option<String>,
    /// Bits of the dollar cap of an API-billed CLI; none for a subscription.
    pub max_budget_usd_bits: Option<u64>,
}

/// What a [`ResolvedRole`] says.
#[verifier::ext_equal]
pub struct ResolvedRoleView {
    pub model: Seq<char>,
    pub kind: Option<Seq<char>>,
    pub base_url: Option<Seq<char>>,
    pub command: Option<Seq<char>>,
    pub args: Option<Seq<Seq<char>>>,
    pub adapter: Option<Seq<char>>,
    pub max_budget_usd_bits: Option<u64>,
}

impl DeepView for ResolvedRole {
    type V = ResolvedRoleView;

    open spec fn deep_view(&self) -> ResolvedRoleView {
        ResolvedRoleView {
            model: self.model.deep_view(),
            kind: self.kind.deep_view(),
            base_url: self.base_url.deep_view(),
            command: self.command.deep_view(),
            args: self.args.deep_view(),
            adapter: self.adapter.deep_view(),
            max_budget_usd_bits: self.max_budget_usd_bits,
        }
    }
}

impl Clone for ResolvedRole {
    fn clone(&self) -> (r: Self)
        ensures
            r.deep_view() == self.deep_view(),
    {
        ResolvedRole {
            model: self.model.clone(),
            kind: self.kind.clone(),
            base_url: self.base_url.clone(),
            command: self.command.clone(),
            args: self.args.clone(),
            adapter: self.adapter.clone(),
            max_budget_usd_bits: self.max_budget_usd_bits,
        }
    }
}

/// A configured role with everything a worker needs; a bare model name carries
/// nothing but itself.
pub open spec fn resolved(role: RoleModelView) -> ResolvedRoleView {
    match role {
        RoleModelView::Bare(m) => ResolvedRoleView {
            model: m,
            kind: None,
            base_url: None,
            command: None,
            args: None,
            adapter: None,
            max_budget_usd_bits: None,
        },
        RoleModelView::Detailed(t) => ResolvedRoleView {
            model: t.model,
            kind: t.kind,
            base_url: t.base_url,
            command: t.command,
            args: t.args,
            adapter: t.adapter,
            max_budget_usd_bits: t.max_budget_usd_bits,
        },
    }
}

/// The role configured for a tier.
pub open spec fn tier_role(roles: RolesView, tier: Tier) -> Option<ResolvedRoleView> {
    let role = match tier {
        Tier::T0 => roles.tier0,
        Tier::T1 => roles.tier1,
        Tier::T2 => roles.tier2,
    };
    match role {
        Some(r) => Some(resolved(r)),
        None => None,
    }
}

/// Whether a tier has a model.
pub open spec fn configured(roles: RolesView, tier: Tier) -> bool {
    tier_role(roles, tier) is Some
}

fn resolve_role(role: &RoleModel) -> (r: ResolvedRole)
    ensures
        r.deep_view() == resolved(role.deep_view()),
{
    match role {
        RoleModel::Bare(m) => ResolvedRole {
            model: m.clone(),
            kind: None,
            base_url: None,
            command: None,
            args: None,
            adapter: None,
            max_budget_usd_bits: None,
        },
        RoleModel::Detailed(t) => ResolvedRole {
            model: t.model.clone(),
            kind: t.kind.clone(),
            base_url: t.base_url.clone(),
            command: t.command.clone(),
            args: t.args.clone(),
            adapter: t.adapter.clone(),
            max_budget_usd_bits: t.max_budget_usd_bits,
        },
    }
}

/// The role configured for a tier.
pub fn role_for_tier(rp: &ResolvedProfile, tier: Tier) -> (r: Option<ResolvedRole>)
    ensures
        r.deep_view() == tier_role(rp.roles.deep_view(), tier),
{
    let role = match tier {
        Tier::T0 => &rp.roles.tier0,
        Tier::T1 => &rp.roles.tier1,
        Tier::T2 => &rp.roles.tier2,
    };
    match role {
        Some(role) => Some(resolve_role(role)),
        None => None,
    }
}

// ---------------------------------------------------------------------------
// The ladder
// ---------------------------------------------------------------------------

/// The top of the ladder that starts at `from`: the highest configured tier
/// above it, or `from` itself.
pub open spec fn ladder_top(roles: RolesView, from: Tier) -> Tier {
    if from.rank() < Tier::T2.rank() && configured(roles, Tier::T2) {
        Tier::T2
    } else if from.rank() < Tier::T1.rank() && configured(roles, Tier::T1) {
        Tier::T1
    } else {
        from
    }
}

/// The next configured tier above `tier`.
pub open spec fn next_rung(roles: RolesView, tier: Tier) -> Option<Tier> {
    if tier.rank() < Tier::T1.rank() && configured(roles, Tier::T1) {
        Some(Tier::T1)
    } else if tier.rank() < Tier::T2.rank() && configured(roles, Tier::T2) {
        Some(Tier::T2)
    } else {
        None
    }
}

/// How many configured tiers stand strictly above `tier`.
pub open spec fn rungs_above(roles: RolesView, tier: Tier) -> int {
    (if tier.rank() < Tier::T1.rank() && configured(roles, Tier::T1) {
        1int
    } else {
        0int
    }) + (if tier.rank() < Tier::T2.rank() && configured(roles, Tier::T2) {
        1int
    } else {
        0int
    })
}

/// The top of the ladder that starts at `from`.
pub fn top_tier(rp: &ResolvedProfile, from: Tier) -> (r: Tier)
    ensures
        r == ladder_top(rp.roles.deep_view(), from),
{
    if from.as_int() < 2 && role_for_tier(rp, Tier::T2).is_some() {
        Tier::T2
    } else if from.as_int() < 1 && role_for_tier(rp, Tier::T1).is_some() {
        Tier::T1
    } else {
        from
    }
}

/// The next configured tier above `tier`, skipping gaps.
pub fn next_configured_tier(rp: &ResolvedProfile, tier: Tier) -> (r: Option<Tier>)
    ensures
        r == next_rung(rp.roles.deep_view(), tier),
{
    if tier.as_int() < 1 && role_for_tier(rp, Tier::T1).is_some() {
        Some(Tier::T1)
    } else if tier.as_int() < 2 && role_for_tier(rp, Tier::T2).is_some() {
        Some(Tier::T2)
    } else {
        None
    }
}

/// How many tiers the ladder from `start` has: `start` itself and every
/// configured tier above it.
pub fn ladder_tier_count(rp: &ResolvedProfile, start: Tier) -> (r: i64)
    ensures
        r == 1 + rungs_above(rp.roles.deep_view(), start),
{
    let mut count: i64 = 1;
    let mut tier = start;
    loop
        invariant
            1 <= count <= 3 - rungs_above(rp.roles.deep_view(), tier),
            count + rungs_above(rp.roles.deep_view(), tier) == 1 + rungs_above(
                rp.roles.deep_view(),
                start,
            ),
        ensures
            rungs_above(rp.roles.deep_view(), tier) == 0,
        decreases rungs_above(rp.roles.deep_view(), tier),
    {
        match next_configured_tier(rp, tier) {
            Some(next) => {
                count = count + 1;
                tier = next;
            },
            None => {
                break;
            },
        }
    }
    count
}

// ---------------------------------------------------------------------------
// Backends
// ---------------------------------------------------------------------------

/// The backend that runs a one-shot role.
#[derive(Debug)]
pub enum Backend {
    /// Deterministic and offline.
    Mock,
    /// The provider API, at an address of its own where one is given.
    Anthropic {
        base_url: Option<String>,
    },
}

/// What a [`Backend`] says.
pub enum BackendView {
    Mock,
    Anthropic {
        base_url: Option<Seq<char>>,
    },
}

impl DeepView for Backend {
    type V = BackendView;

    open spec fn deep_view(&self) -> BackendView {
        match self {
            Backend::Mock => BackendView::Mock,
            Backend::Anthropic { base_url } => BackendView::Anthropic {
                base_url: base_url.deep_view(),
            },
        }
    }
}

/// Whether a model and kind name the mock backend.
pub open spec fn is_mock(model: Seq<char>, kind: Option<Seq<char>>) -> bool {
    model == "mock"@ || kind == Some("mock"@)
}

/// The backend for a model and kind: the mock where either names it, the
/// provider API where the kind is absent or `anthropic`, and otherwise the
/// reason why there is none.
pub open spec fn backend_for(
    model: Seq<char>,
    kind: Option<Seq<char>>,
    base_url: Option<Seq<char>>,
) -> Result<BackendView, Seq<char>> {
    if is_mock(model, kind) {
        Ok(BackendView::Mock)
    } else {
        match kind {
            None => Ok(BackendView::Anthropic { base_url }),
            Some(k) => if k == "anthropic"@ {
                Ok(BackendView::Anthropic { base_url })
            } else if k == "driven_cli"@ {
                Err("driven_cli backend is not available until M3"@)
            } else if k == "openai_compat"@ {
                Err("openai_compat backend is not yet implemented (ADR-008)"@)
            } else {
                Err("unknown backend kind: "@ + k)
            },
        }
    }
}

/// Selects the backend for a role. A kind that is not available fails loudly:
/// there is no fallback.
pub fn select_backend(model: &str, kind: Option<&str>, base_url: Option<String>) -> (r: Result<
    Backend,
    DelegateError,
>)
    ensures
        match backend_for(model@, kind.deep_view(), base_url.deep_view()) {
            Ok(b) => r matches Ok(backend) && backend.deep_view() == b,
            Err(m) => r matches Err(e) && e is ModelUnavailable && e.message() == m,
        },
{
    if same(model, "mock") {
        return Ok(Backend::Mock);
    }
    match kind {
        None => Ok(Backend::Anthropic { base_url }),
        Some(k) => {
            if same(k, "mock") {
                Ok(Backend::Mock)
            } else if same(k, "anthropic") {
                Ok(Backend::Anthropic { base_url })
            } else if same(k, "driven_cli") {
                Err(
                    DelegateError::ModelUnavailable(
                        "driven_cli backend is not available until M3".to_owned(),
                    ),
                )
            } else if same(k, "openai_compat") {
                Err(
                    DelegateError::ModelUnavailable(
                        "openai_compat backend is not yet implemented (ADR-008)".to_owned(),
                    ),
                )
            } else {
                Err(DelegateError::ModelUnavailable(cat2("unknown backend kind: ", k)))
            }
        },
    }
}

// ---------------------------------------------------------------------------
// Verifiers
// ---------------------------------------------------------------------------

/// The provider a model's name starts with: what stands before its first dash.
pub fn provider_prefix(model: &str) -> (r: &str)
    ensures
        r@ == text::head(model@, '-'),
{
    before(model, '-')
}

/// How independent a verifier model is of an implementer model.
pub open spec fn independence(implementer: Seq<char>, verifier: Seq<char>) -> Independence {
    if implementer == verifier {
        Independence::FreshContextOnly
    } else if text::head(implementer, '-') == text::head(verifier, '-') {
        Independence::CrossModel
    } else {
        Independence::CrossProvider
    }
}

/// How independent a verifier model is of an implementer model.
pub fn classify_independence(implementer_model: &str, verifier_model: &str) -> (r: Independence)
    ensures
        r == independence(implementer_model@, verifier_model@),
{
    if same(implementer_model, verifier_model) {
        Independence::FreshContextOnly
    } else if same(provider_prefix(implementer_model), provider_prefix(verifier_model)) {
        Independence::CrossModel
    } else {
        Independence::CrossProvider
    }
}

/// The preferred verifier of a profile.
pub open spec fn floor_role(roles: RolesView) -> Option<ResolvedRoleView> {
    match roles.verifier_floor {
        Some(r) => Some(resolved(r)),
        None => None,
    }
}

/// The preferred verifier of a profile.
pub fn verifier_role(rp: &ResolvedProfile) -> (r: Option<ResolvedRole>)
    ensures
        r.deep_view() == floor_role(rp.roles.deep_view()),
{
    match &rp.roles.verifier_floor {
        Some(role) => Some(resolve_role(role)),
        None => None,
    }
}

/// Whether a tier has a model other than the implementer's.
pub open spec fn differs(roles: RolesView, tier: Tier, implementer: Seq<char>) -> bool {
    tier_role(roles, tier) matches Some(r) && r.model != implementer
}

/// The verifier for an implementer: the preferred one; else the lowest tier
/// with another model; else the lowest configured tier; else none.
pub open spec fn verifier_for(roles: RolesView, implementer: Seq<char>) -> Option<
    ResolvedRoleView,
> {
    if floor_role(roles) is Some {
        floor_role(roles)
    } else if differs(roles, Tier::T0, implementer) {
        tier_role(roles, Tier::T0)
    } else if differs(roles, Tier::T1, implementer) {
        tier_role(roles, Tier::T1)
    } else if differs(roles, Tier::T2, implementer) {
        tier_role(roles, Tier::T2)
    } else if configured(roles, Tier::T0) {
        tier_role(roles, Tier::T0)
    } else if configured(roles, Tier::T1) {
        tier_role(roles, Tier::T1)
    } else {
        tier_role(roles, Tier::T2)
    }
}

fn differing_role(rp: &ResolvedProfile, tier: Tier, implementer: &str) -> (r: Option<ResolvedRole>)
    ensures
        r.deep_view() == (if differs(rp.roles.deep_view(), tier, implementer@) {
            tier_role(rp.roles.deep_view(), tier)
        } else {
            None
        }),
{
    match role_for_tier(rp, tier) {
        Some(role) => {
            if same(&role.model, implementer) {
                None
            } else {
                Some(role)
            }
        },
        None => None,
    }
}

fn choose_verifier(rp: &ResolvedProfile, implementer: &str) -> (r: Option<ResolvedRole>)
    ensures
        r.deep_view() == verifier_for(rp.roles.deep_view(), implementer@),
{
    let floor = verifier_role(rp);
    if floor.is_some() {
        return floor;
    }
    let d0 = differing_role(rp, Tier::T0, implementer);
    if d0.is_some() {
        return d0;
    }
    let d1 = differing_role(rp, Tier::T1, implementer);
    if d1.is_some() {
        return d1;
    }
    let d2 = differing_role(rp, Tier::T2, implementer);
    if d2.is_some() {
        return d2;
    }
    let any0 = role_for_tier(rp, Tier::T0);
    if any0.is_some() {
        return any0;
    }
    let any1 = role_for_tier(rp, Tier::T1);
    if any1.is_some() {
        return any1;
    }
    role_for_tier(rp, Tier::T2)
}

/// Chooses the verifier for an attempt and says how independent it is.
pub fn select_verifier(rp: &ResolvedProfile, impl_model: &str) -> (r: Option<
    (ResolvedRole, Independence),
>)
    ensures
        match verifier_for(rp.roles.deep_view(), impl_model@) {
            Some(v) => r matches Some((role, how)) && role.deep_view() == v && how == independence(
                impl_model@,
                v.model,
            ),
            None => r is None,
        },
        rp.roles.verifier_floor matches Some(preferred) ==> (r matches Some((role, _))
            && role.model@ == preferred.deep_view().model()),
{
    match choose_verifier(rp, impl_model) {
        Some(role) => {
            let how = classify_independence(impl_model, &role.model);
            Some((role, how))
        },
        None => None,
    }
}

/// Whether a role runs on the mock backend.
pub fn verifier_role_is_mock(role: &ResolvedRole) -> (r: bool)
    ensures
        r == is_mock(role.model@, role.kind.deep_view()),
{
    same(&role.model, "mock") || opt_is(&role.kind, "mock")
}

/// The backend that runs a verifier: the mock, or the provider API at the
/// address given.
pub fn select_verifier_backend(role: &ResolvedRole, effective_base_url: Option<String>) -> (r:
    Backend)
    ensures
        r.deep_view() == (if is_mock(role.model@, role.kind.deep_view()) {
            BackendView::Mock
        } else {
            BackendView::Anthropic { base_url: effective_base_url.deep_view() }
        }),
{
    if verifier_role_is_mock(role) {
        Backend::Mock
    } else {
        Backend::Anthropic { base_url: effective_base_url }
    }
}

// ---------------------------------------------------------------------------
// Laws
// ---------------------------------------------------------------------------

/// The top of a ladder is never below its start, is its start or configured,
/// and no configured tier above the start lies above the top.
pub proof fn law_ladder_top(roles: RolesView, from: Tier)
    ensures
        ladder_top(roles, from).rank() >= from.rank(),
        ladder_top(roles, from) == from || configured(roles, ladder_top(roles, from)),
        forall|t: Tier|
            #![trigger configured(roles, t)]
            t.rank() > from.rank() && configured(roles, t) ==> t.rank() <= ladder_top(
                roles,
                from,
            ).rank(),
{
}

/// Climbing from below the top always finds a next rung: configured, strictly
/// higher, not above the top, with one rung fewer above it, and on a ladder
/// with the same top.
pub proof fn law_climb(roles: RolesView, tier: Tier)
    requires
        tier != ladder_top(roles, tier),
    ensures
        next_rung(roles, tier) matches Some(next) && configured(roles, next) && next.rank()
            > tier.rank() && next.rank() <= ladder_top(roles, tier).rank() && rungs_above(
            roles,
            next,
        ) == rungs_above(roles, tier) - 1 && ladder_top(roles, next) == ladder_top(roles, tier),
{
}

/// A ladder always has at least one tier, and exactly one where its start is
/// its top.
pub proof fn law_ladder_count(roles: RolesView, start: Tier)
    ensures
        1 + rungs_above(roles, start) >= 1,
        rungs_above(roles, start) == 0 <==> ladder_top(roles, start) == start,
{
}

/// A verifier exists wherever any tier or a preferred verifier is configured:
/// verification is never skipped for want of a choice.
pub proof fn law_verifier_exists(roles: RolesView, implementer: Seq<char>)
    ensures
        verifier_for(roles, implementer) is Some <==> (floor_role(roles) is Some || configured(
            roles,
            Tier::T0,
        ) || configured(roles, Tier::T1) || configured(roles, Tier::T2)),
{
}

/// Without a preferred verifier, an implementer judges its own model only where
/// no tier has another one.
pub proof fn law_verifier_differs_where_possible(roles: RolesView, implementer: Seq<char>)
    requires
        floor_role(roles) is None,
        differs(roles, Tier::T0, implementer) || differs(roles, Tier::T1, implementer) || differs(
            roles,
            Tier::T2,
            implementer,
        ),
    ensures
        verifier_for(roles, implementer) matches Some(v) && v.model != implementer,
{
}

/// The model a configured role names.
pub open spec fn named_model(role: RoleModelView) -> Seq<char> {
    match role {
        RoleModelView::Bare(m) => m,
        RoleModelView::Detailed(t) => t.model,
    }
}

/// A preferred verifier judges every implementer, even one that runs the same
/// model and even where a tier has another one: the tiers are looked at only
/// where none is preferred.
pub proof fn law_preferred_verifier_judges_everyone(roles: RolesView, implementer: Seq<char>)
    ensures
        floor_role(roles) is Some ==> verifier_for(roles, implementer) == floor_role(roles),
        floor_role(roles) is Some <==> roles.verifier_floor is Some,
        roles.verifier_floor matches Some(preferred) ==> {
            &&& verifier_for(roles, implementer) matches Some(v)
            &&& v.model == named_model(preferred)
            &&& v == resolved(preferred)
        },
{
}

/// Without a preferred verifier the lowest tier with another model judges, and
/// where every tier has the implementer's own, the lowest tier that has any.
pub proof fn law_lowest_other_tier_judges(roles: RolesView, implementer: Seq<char>, tier: Tier)
    requires
        roles.verifier_floor is None,
        configured(roles, tier),
    ensures
        differs(roles, tier, implementer) && (forall|t: Tier|
            #![trigger differs(roles, t, implementer)]
            t.rank() < tier.rank() ==> !differs(roles, t, implementer)) ==> verifier_for(
            roles,
            implementer,
        ) == tier_role(roles, tier),
        (forall|t: Tier| #![trigger differs(roles, t, implementer)] !differs(roles, t, implementer))
            && (forall|t: Tier|
            #![trigger configured(roles, t)]
            t.rank() < tier.rank() ==> !configured(roles, t)) ==> verifier_for(roles, implementer)
            == tier_role(roles, tier),
{
    assert(differs(roles, Tier::T0, implementer) || !differs(roles, Tier::T0, implementer));
    assert(differs(roles, Tier::T1, implementer) || !differs(roles, Tier::T1, implementer));
    assert(differs(roles, Tier::T2, implementer) || !differs(roles, Tier::T2, implementer));
    assert(configured(roles, Tier::T0) || !configured(roles, Tier::T0));
    assert(configured(roles, Tier::T1) || !configured(roles, Tier::T1));
}

/// A tier has the role that is configured for it and no other: the model by
/// itself where only a name is given, and every setting of a role that has any.
pub proof fn law_roles_are_as_configured(roles: RolesView)
    ensures
        tier_role(roles, Tier::T0) is Some <==> roles.tier0 is Some,
        tier_role(roles, Tier::T1) is Some <==> roles.tier1 is Some,
        tier_role(roles, Tier::T2) is Some <==> roles.tier2 is Some,
        roles.tier0 matches Some(r) ==> tier_role(roles, Tier::T0) == Some(resolved(r)),
        roles.tier1 matches Some(r) ==> tier_role(roles, Tier::T1) == Some(resolved(r)),
        roles.tier2 matches Some(r) ==> tier_role(roles, Tier::T2) == Some(resolved(r)),
        forall|r: RoleModelView| (#[trigger] resolved(r)).model == named_model(r),
        forall|r: RoleModelView|
            r is Bare ==> {
                &&& (#[trigger] resolved(r)).kind is None
                &&& resolved(r).base_url is None
                &&& resolved(r).command is None
                &&& resolved(r).args is None
                &&& resolved(r).adapter is None
                &&& resolved(r).max_budget_usd_bits is None
            },
        forall|r: RoleModelView|
            (#[trigger] resolved(r), r) matches (v, RoleModelView::Detailed(t)) ==> {
                &&& v.kind == t.kind
                &&& v.base_url == t.base_url
                &&& v.command == t.command
                &&& v.args == t.args
                &&& v.adapter == t.adapter
                &&& v.max_budget_usd_bits == t.max_budget_usd_bits
            },
{
}

/// The next rung is the nearest configured tier above: none between is skipped,
/// and there is none only where no tier above has a model.
pub proof fn law_no_rung_is_skipped(roles: RolesView, tier: Tier)
    ensures
        next_rung(roles, tier) is None <==> (forall|t: Tier|
            #![trigger configured(roles, t)]
            t.rank() > tier.rank() ==> !configured(roles, t)),
        next_rung(roles, tier) matches Some(next) ==> forall|t: Tier|
            #![trigger configured(roles, t)]
            tier.rank() < t.rank() < next.rank() ==> !configured(roles, t),
{
    assert(configured(roles, Tier::T1) || !configured(roles, Tier::T1));
    assert(configured(roles, Tier::T2) || !configured(roles, Tier::T2));
}

/// A backend is chosen by the kind alone, save that the model `mock` is always
/// offline; a role without a kind goes to the provider API, the address it names
/// is the one that is asked, and a kind without a backend is never replaced by
/// another.
pub proof fn law_backends_have_no_fallback(
    model: Seq<char>,
    kind: Option<Seq<char>>,
    base_url: Option<Seq<char>>,
)
    ensures
        backend_for(model, kind, base_url) is Ok <==> (model == "mock"@ || kind is None || kind
            == Some("mock"@) || kind == Some("anthropic"@)),
        backend_for(model, kind, base_url) matches Ok(b) ==> (b is Mock <==> (model == "mock"@
            || kind == Some("mock"@))),
        backend_for(model, kind, base_url) matches Ok(BackendView::Anthropic { base_url: at })
            ==> at == base_url,
        is_mock(model, kind) <==> (model == "mock"@ || kind == Some("mock"@)),
{
    reveal_strlit("mock");
    reveal_strlit("anthropic");
    reveal_strlit("driven_cli");
    reveal_strlit("openai_compat");
    assert("mock"@.len() == 4 && "anthropic"@.len() == 9);
    assert("driven_cli"@.len() == 10 && "openai_compat"@.len() == 13);
}

/// An implementer is judged by its own model exactly where the names are equal;
/// otherwise the judge is of the same provider exactly where both names start
/// alike up to the first dash. The order of the two does not matter.
pub proof fn law_independence_is_by_name(a: Seq<char>, b: Seq<char>)
    ensures
        independence(a, b) == independence(b, a),
        independence(a, b) is FreshContextOnly <==> a == b,
        independence(a, b) is CrossProvider ==> text::head(a, '-') != text::head(b, '-'),
        independence(a, b) is CrossModel ==> a != b && text::head(a, '-') == text::head(b, '-'),
{
}

/// What is said of a role is what it holds, field by field.
pub proof fn law_roles_are_said_whole(
    resolved_role: ResolvedRole,
)
    ensures
        resolved_role.deep_view().model == resolved_role.model.deep_view(),
        resolved_role.deep_view().kind == resolved_role.kind.deep_view(),
        resolved_role.deep_view().base_url == resolved_role.base_url.deep_view(),
        resolved_role.deep_view().command == resolved_role.command.deep_view(),
        resolved_role.deep_view().args == resolved_role.args.deep_view(),
        resolved_role.deep_view().adapter == resolved_role.adapter.deep_view(),
        resolved_role.deep_view().max_budget_usd_bits == resolved_role.max_budget_usd_bits,
{
}

} // verus!
