//! Taking a task in: what is refused before work starts, and what is journaled.

use crate::attempt::{self, Effect};
use crate::containment::{self, containment_floor, ContainmentRecipe};
use crate::domain::{EventKind, Tier};
use crate::json::{self, compact, object, object1, put_text, Json};
use crate::payload::{self, failure_payload};
use crate::pipeline::WorkerFailure;
use crate::resolve::{ResolvedProfile, ResolvedProfileView};
use crate::roles::{self, role_for_tier, select_backend, ResolvedRole, ResolvedRoleView};
use crate::table::Table;
use crate::task::{AcceptanceCriterionView, TaskSpec};
use crate::text::{self, cat2, cat3, contains, i64_text, is_blank, opt_is};
use vstd::prelude::*;

verus! {

/// Why a delegation was refused before any work started.
#[derive(Debug)]
pub enum DelegateError {
    /// The task itself is not acceptable.
    SpecRejected(String),
    /// No model can run it.
    ModelUnavailable(String),
    /// Something else went wrong.
    Internal(String),
}

impl DelegateError {
    /// The message.
    pub open spec fn message(self) -> Seq<char> {
        match self {
            DelegateError::SpecRejected(m) => m@,
            DelegateError::ModelUnavailable(m) => m@,
            DelegateError::Internal(m) => m@,
        }
    }

    /// The word for this kind of refusal.
    pub open spec fn kind(self) -> Seq<char> {
        match self {
            DelegateError::SpecRejected(_) => "spec_rejected"@,
            DelegateError::ModelUnavailable(_) => "model_unavailable"@,
            DelegateError::Internal(_) => "internal_error"@,
        }
    }

    /// The word for this kind of refusal.
    pub fn kind_str(&self) -> (r: &'static str)
        ensures
            r@ == self.kind(),
    {
        match self {
            DelegateError::SpecRejected(_) => "spec_rejected",
            DelegateError::ModelUnavailable(_) => "model_unavailable",
            DelegateError::Internal(_) => "internal_error",
        }
    }

    /// The message, fit to be shown to the caller.
    pub fn message_public(&self) -> (r: &str)
        ensures
            r@ == self.message(),
    {
        match self {
            DelegateError::SpecRejected(m) => m,
            DelegateError::ModelUnavailable(m) => m,
            DelegateError::Internal(m) => m,
        }
    }
}

// ---------------------------------------------------------------------------
// Machine-wide state
// ---------------------------------------------------------------------------

/// What the workers of one machine share: the slots they run in and the driven
/// sessions that are live, each under its task.
#[derive(Debug)]
pub struct DelegationState<H> {
    in_use: u32,
    cap: u32,
    sessions: Table<H>,
}

impl<H> DelegationState<H> {
    /// How many slots are taken.
    pub closed spec fn taken(self) -> int {
        self.in_use as int
    }

    /// How many slots there are.
    pub closed spec fn slots(self) -> int {
        self.cap as int
    }

    /// The live driven sessions.
    pub closed spec fn live(self) -> Map<Seq<char>, H> {
        self.sessions@
    }

    /// There is at least one slot, and no more are taken than there are.
    pub closed spec fn wf(self) -> bool {
        1 <= self.cap && self.in_use <= self.cap && self.sessions.wf()
    }

    /// A machine with at least one slot and nothing running.
    pub fn new(machine_cap: u32) -> (r: Self)
        ensures
            r.wf(),
            r.taken() == 0,
            r.slots() == containment::larger(machine_cap as int, 1),
            r.live() == Map::<Seq<char>, H>::empty(),
    {
        DelegationState {
            in_use: 0,
            cap: if machine_cap >= 1 {
                machine_cap
            } else {
                1
            },
            sessions: Table::new(),
        }
    }

    /// Takes a slot if one is free.
    pub fn try_take_slot(&mut self) -> (r: bool)
        requires
            old(self).wf(),
        ensures
            final(self).wf(),
            final(self).slots() == old(self).slots(),
            final(self).live() == old(self).live(),
            r == (old(self).taken() < old(self).slots()),
            final(self).taken() == old(self).taken() + (if r {
                1int
            } else {
                0int
            }),
    {
        if self.in_use < self.cap {
            self.in_use = self.in_use + 1;
            true
        } else {
            false
        }
    }

    /// Gives a slot back.
    pub fn release_slot(&mut self)
        requires
            old(self).wf(),
        ensures
            final(self).wf(),
            final(self).slots() == old(self).slots(),
            final(self).live() == old(self).live(),
            final(self).taken() == containment::larger(old(self).taken() - 1, 0),
    {
        if self.in_use > 0 {
            self.in_use = self.in_use - 1;
        }
    }

    /// Registers the live driven session of a task, so that it can be killed.
    pub fn register_session(&mut self, task_id: &str, handle: H)
        requires
            old(self).wf(),
        ensures
            final(self).wf(),
            final(self).slots() == old(self).slots(),
            final(self).taken() == old(self).taken(),
            final(self).live() == old(self).live().insert(task_id@, handle),
    {
        self.sessions.insert(task_id, handle);
    }

    /// Forgets the driven session of a task.
    pub fn unregister_session(&mut self, task_id: &str)
        requires
            old(self).wf(),
        ensures
            final(self).wf(),
            final(self).slots() == old(self).slots(),
            final(self).taken() == old(self).taken(),
            final(self).live() == old(self).live().remove(task_id@),
    {
        let _ = self.sessions.remove(task_id);
    }

    /// The live driven session of a task, if it has one.
    pub fn session_handle(&self, task_id: &str) -> (r: Option<&H>)
        requires
            self.wf(),
        ensures
            match r {
                Some(h) => self.live().contains_key(task_id@) && self.live()[task_id@] == *h,
                None => !self.live().contains_key(task_id@),
            },
    {
        self.sessions.get(task_id)
    }
}

// ---------------------------------------------------------------------------
// Validation
// ---------------------------------------------------------------------------

/// The place of the first criterion whose check is blank, counting from `from`.
pub open spec fn first_blank(criteria: Seq<AcceptanceCriterionView>, from: int) -> Option<int>
    decreases criteria.len() - from,
{
    if from < 0 || from >= criteria.len() {
        None
    } else if text::blank(criteria[from].check) {
        Some(from)
    } else {
        first_blank(criteria, from + 1)
    }
}

/// Why a task's criteria are not acceptable: there are none, or one says
/// nothing that can be checked.
pub open spec fn criteria_trouble(criteria: Seq<AcceptanceCriterionView>) -> Option<Seq<char>> {
    if criteria.len() == 0 {
        Some("spec has no acceptance criteria"@)
    } else {
        match first_blank(criteria, 0) {
            Some(i) => Some(
                "acceptance criterion "@ + criteria[i].id
                    + " has an empty check (adjective-free, falsifiable checks required)"@,
            ),
            None => None,
        }
    }
}

/// Whether a task's criteria are acceptable; why not, where they are not.
pub fn validate_spec(spec: &TaskSpec) -> (r: Result<(), String>)
    ensures
        match criteria_trouble(spec.acceptance_criteria.deep_view()) {
            Some(reason) => r matches Err(words) && words@ == reason,
            None => r is Ok,
        },
{
    let ghost all = spec.acceptance_criteria.deep_view();
    if spec.acceptance_criteria.len() == 0 {
        return Err("spec has no acceptance criteria".to_owned());
    }
    let mut i: usize = 0;
    while i < spec.acceptance_criteria.len()
        invariant
            i <= spec.acceptance_criteria@.len(),
            all == spec.acceptance_criteria.deep_view(),
            all.len() > 0,
            first_blank(all, 0) == first_blank(all, i as int),
        decreases spec.acceptance_criteria@.len() - i,
    {
        let c = &spec.acceptance_criteria[i];
        assert(all[i as int] == c.deep_view());
        if is_blank(&c.check) {
            return Err(
                cat3(
                    "acceptance criterion ",
                    &c.id,
                    " has an empty check (adjective-free, falsifiable checks required)",
                ),
            );
        }
        i = i + 1;
    }
    Ok(())
}

/// The words by which a command is taken to run tests.
pub open spec fn test_tokens() -> Seq<Seq<char>> {
    seq![
        "test"@,
        "nextest"@,
        "pytest"@,
        "unittest"@,
        "jest"@,
        "vitest"@,
        "mocha"@,
        "rspec"@,
        "phpunit"@,
        "check"@,
        "spec"@,
        "junit"@,
        "gradle"@,
    ]
}

/// Whether a command in lower case looks as if it ran tests.
pub open spec fn looks_like_test(lowered: Seq<char>) -> bool {
    exists|t: int|
        0 <= t < test_tokens().len() && text::contains_text(lowered, #[trigger] test_tokens()[t])
}

/// Whether there are commands and none of them looks as if it ran tests.
pub open spec fn build_only(lowered: Seq<Seq<char>>) -> bool {
    lowered.len() > 0 && forall|i: int|
        0 <= i < lowered.len() ==> !looks_like_test(#[trigger] lowered[i])
}

fn tokens() -> (r: Vec<&'static str>)
    ensures
        r.deep_view() == test_tokens(),
{
    let r = vec![
        "test",
        "nextest",
        "pytest",
        "unittest",
        "jest",
        "vitest",
        "mocha",
        "rspec",
        "phpunit",
        "check",
        "spec",
        "junit",
        "gradle",
    ];
    assert(r.deep_view() =~= test_tokens());
    r
}

fn mentions_test(lowered: &str) -> (r: bool)
    ensures
        r == looks_like_test(lowered@),
{
    let tokens = tokens();
    let mut t: usize = 0;
    while t < tokens.len()
        invariant
            t <= tokens@.len(),
            tokens.deep_view() == test_tokens(),
            forall|k: int|
                0 <= k < t ==> !text::contains_text(lowered@, #[trigger] test_tokens()[k]),
        decreases tokens@.len() - t,
    {
        assert(test_tokens()[t as int] == tokens@[t as int]@);
        if contains(lowered, tokens[t]) {
            return true;
        }
        t = t + 1;
    }
    false
}

/// Whether commands, given in lower case, build but run no tests.
pub fn lowered_look_build_only(lowered: &Vec<String>) -> (r: bool)
    ensures
        r == build_only(lowered.deep_view()),
{
    let ghost all = lowered.deep_view();
    if lowered.len() == 0 {
        return false;
    }
    let mut i: usize = 0;
    while i < lowered.len()
        invariant
            i <= lowered@.len(),
            all == lowered.deep_view(),
            forall|k: int| 0 <= k < i ==> !looks_like_test(#[trigger] all[k]),
        decreases lowered@.len() - i,
    {
        assert(all[i as int] == lowered@[i as int]@);
        if mentions_test(&lowered[i]) {
            return false;
        }
        i = i + 1;
    }
    true
}

/// Each text in lower case.
pub open spec fn lowered(commands: Seq<Seq<char>>) -> Seq<Seq<char>> {
    commands.map_values(|c: Seq<char>| text::lowercase(c))
}

/// Whether check commands build but run no tests. It is only a hint: where a
/// command might run tests, it is taken to.
pub fn check_commands_look_build_only(check_commands: &[String]) -> (r: bool)
    ensures
        r == build_only(lowered(check_commands.deep_view())),
{
    let mut low: Vec<String> = Vec::new();
    let mut i: usize = 0;
    while i < check_commands.len()
        invariant
            i <= check_commands@.len(),
            low@.len() == i,
            forall|j: int|
                0 <= j < i ==> (#[trigger] low@[j])@ == text::lowercase(check_commands@[j]@),
        decreases check_commands@.len() - i,
    {
        low.push(check_commands[i].to_lowercase());
        i = i + 1;
    }
    assert(low.deep_view() =~= lowered(check_commands.deep_view()));
    lowered_look_build_only(&low)
}

// ---------------------------------------------------------------------------
// Taking a task in
// ---------------------------------------------------------------------------

/// A task that was taken in: what runs it, and how strictly it is contained at
/// least.
#[derive(Debug)]
pub struct Admission {
    pub profile: ResolvedProfile,
    pub role: ResolvedRole,
    /// The containment floor to ask the host for.
    pub floor: u8,
}

/// What an [`Admission`] says.
#[verifier::ext_equal]
pub struct AdmissionView {
    pub profile: ResolvedProfileView,
    pub role: ResolvedRoleView,
    pub floor: int,
}

impl DeepView for Admission {
    type V = AdmissionView;

    open spec fn deep_view(&self) -> AdmissionView {
        AdmissionView {
            profile: self.profile.deep_view(),
            role: self.role.deep_view(),
            floor: self.floor as int,
        }
    }
}

/// Why a task was refused: the word for it and the message.
#[verifier::ext_equal]
pub struct Refusal {
    pub kind: Seq<char>,
    pub message: Seq<char>,
}

/// The words for a tier without a model.
pub open spec fn no_model(tier: Tier) -> Seq<char> {
    "no model configured for tier "@ + text::decimal_int(tier.rank())
        + " in the active profile"@
}

/// What becomes of a task: its criteria are judged first, then whether the
/// profile resolved, whether the tier has a model, and whether a backend can run
/// it (a driven CLI is looked at only when it starts).
pub open spec fn admission(
    criteria: Seq<AcceptanceCriterionView>,
    tier: Tier,
    containment_min: u8,
    profile: Result<ResolvedProfileView, Seq<char>>,
) -> Result<AdmissionView, Refusal> {
    match criteria_trouble(criteria) {
        Some(reason) => Err(Refusal { kind: "spec_rejected"@, message: reason }),
        None => match profile {
            Err(e) => Err(Refusal { kind: "model_unavailable"@, message: e }),
            Ok(rp) => match roles::tier_role(rp.roles, tier) {
                None => Err(Refusal { kind: "model_unavailable"@, message: no_model(tier) }),
                Some(role) => {
                    let backend = roles::backend_for(role.model, role.kind, role.base_url);
                    if role.kind != Some("driven_cli"@) && backend is Err {
                        Err(Refusal { kind: "model_unavailable"@, message: backend->Err_0 })
                    } else {
                        Ok(
                            AdmissionView {
                                profile: rp,
                                role,
                                floor: containment::larger(
                                    containment::profile_floor(rp.containment_min, tier),
                                    containment_min as int,
                                ),
                            },
                        )
                    }
                },
            },
        },
    }
}

/// What a profile, or the failure to resolve one, says.
pub open spec fn profile_view(r: Result<ResolvedProfile, String>) -> Result<
    ResolvedProfileView,
    Seq<char>,
> {
    match r {
        Ok(rp) => Ok(rp.deep_view()),
        Err(e) => Err(e@),
    }
}

/// Decides whether a task is taken in, before anything is journaled.
pub fn delegate(spec: &TaskSpec, profile: Result<ResolvedProfile, String>) -> (r: Result<
    Admission,
    DelegateError,
>)
    ensures
        match admission(
            spec.acceptance_criteria.deep_view(),
            spec.tier,
            spec.containment_min,
            profile_view(profile),
        ) {
            Ok(a) => r matches Ok(admitted) && admitted.deep_view() == a,
            Err(refusal) => r matches Err(e) && e.kind() == refusal.kind && e.message()
                == refusal.message,
        },
{
    match validate_spec(spec) {
        Err(reason) => {
            return Err(DelegateError::SpecRejected(reason));
        },
        Ok(_) => {},
    }
    let profile = match profile {
        Ok(rp) => rp,
        Err(e) => {
            return Err(DelegateError::ModelUnavailable(e));
        },
    };
    let role = match role_for_tier(&profile, spec.tier) {
        Some(role) => role,
        None => {
            return Err(
                DelegateError::ModelUnavailable(
                    cat3(
                        "no model configured for tier ",
                        &i64_text(spec.tier.as_int()),
                        " in the active profile",
                    ),
                ),
            );
        },
    };
    if !opt_is(&role.kind, "driven_cli") {
        let kind = match &role.kind {
            Some(k) => Some(k.as_str()),
            None => None,
        };
        match select_backend(&role.model, kind, role.base_url.clone()) {
            Ok(_) => {},
            Err(e) => {
                return Err(e);
            },
        }
    }
    let floor: u8 = containment_floor(&profile, spec.tier, spec.containment_min);
    Ok(Admission { profile, role, floor })
}

/// A refusal because the task could not be written down.
pub fn unserializable(error: &str) -> (r: DelegateError)
    ensures
        r.kind() == "internal_error"@,
        r.message() == "serializing spec: "@ + error@,
{
    DelegateError::Internal(cat2("serializing spec: ", error))
}

/// A refusal because the task's row could not be written.
pub fn unrecorded(error: &str) -> (r: DelegateError)
    ensures
        r.kind() == "internal_error"@,
        r.message() == "create_task: "@ + error@,
{
    DelegateError::Internal(cat2("create_task: ", error))
}

/// The fields that warn of check commands that run no tests.
pub open spec fn build_only_warning() -> Map<Seq<char>, Json> {
    map![
        "warning"@ => Json::Text("check_commands_build_only"@),
        "message"@ => Json::Text(
            "check_commands compile but run no tests; a gate can report 'verified' while test-file defects slip through. Add a test-running command (e.g. `cargo test`/`cargo nextest run`) to the acceptance gate."@,
        ),
    ]
}

/// The event of a task that was taken in. It carries a warning where the check
/// commands look as if they ran no tests.
pub fn created_event(spec: &TaskSpec) -> (r: Effect)
    ensures
        r.deep_view() == (if build_only(lowered(spec.check_commands.deep_view())) {
            attempt::event(EventKind::Created, build_only_warning())
        } else {
            attempt::plain_event(EventKind::Created)
        }),
{
    if check_commands_look_build_only(spec.check_commands.as_slice()) {
        let mut m = object();
        put_text(&mut m, "warning", "check_commands_build_only");
        put_text(
            &mut m,
            "message",
            "check_commands compile but run no tests; a gate can report 'verified' while test-file defects slip through. Add a test-running command (e.g. `cargo test`/`cargo nextest run`) to the acceptance gate.",
        );
        assert(json::fields(m) =~= build_only_warning());
        Effect::Emit { kind: EventKind::Created, payload: Some(compact(m)) }
    } else {
        Effect::Emit { kind: EventKind::Created, payload: None }
    }
}

/// The row and the events that record a refused task.
#[derive(Debug)]
pub struct RejectedTask {
    pub tier: Tier,
    pub model: String,
    pub spec_json: String,
    pub base_ref: String,
    pub events: Vec<Effect>,
}

/// Records a refused task: a placeholder row, then `created` and the terminal
/// failure, so that the refusal can be seen like any other end.
pub fn record_rejected_task(err: &DelegateError) -> (r: RejectedTask)
    ensures
        r.tier is T0,
        r.model@ == "unknown"@,
        r.spec_json@ == json::compact_text(map!["title"@ => Json::Text("(rejected)"@)]),
        r.base_ref@ == "HEAD"@,
        r.events.deep_view() == seq![
            attempt::plain_event(EventKind::Created),
            attempt::event(EventKind::Failed, payload::failure(err.kind(), err.message())),
        ],
{
    let mut events: Vec<Effect> = Vec::new();
    events.push(Effect::Emit { kind: EventKind::Created, payload: None });
    events.push(
        Effect::Emit {
            kind: EventKind::Failed,
            payload: Some(failure_payload(err.kind_str(), err.message_public())),
        },
    );
    assert(events.deep_view() =~= seq![
        attempt::plain_event(EventKind::Created),
        attempt::event(EventKind::Failed, payload::failure(err.kind(), err.message())),
    ]);
    RejectedTask {
        tier: Tier::T0,
        model: "unknown".to_owned(),
        spec_json: object1("title", "(rejected)"),
        base_ref: "HEAD".to_owned(),
        events,
    }
}

/// The answer to an advisor whose refused task could not even be recorded.
pub fn rejection_words(err: &DelegateError) -> (r: String)
    ensures
        r@ == "delegate rejected ("@ + err.kind() + "): "@ + err.message(),
{
    text::cat4("delegate rejected (", err.kind_str(), "): ", err.message_public())
}

// ---------------------------------------------------------------------------
// The worker
// ---------------------------------------------------------------------------

/// What a worker journals before it asks for a slot: a downgrade of its
/// containment, if there was one.
pub fn worker_opening(recipe: &ContainmentRecipe) -> (r: Option<Effect>)
    ensures
        r.deep_view() == (if recipe.downgraded {
            Some(
                attempt::event(
                    EventKind::ContainmentDowngraded,
                    recipe.deep_view().downgrade(),
                ),
            )
        } else {
            None
        }),
{
    if recipe.downgraded {
        Some(
            Effect::Emit {
                kind: EventKind::ContainmentDowngraded,
                payload: Some(recipe.downgrade_payload()),
            },
        )
    } else {
        None
    }
}

/// What a worker journals where no slot was free: that its task waits.
pub fn worker_queueing(got_slot: bool) -> (r: Option<Effect>)
    ensures
        r.deep_view() == (if got_slot {
            None
        } else {
            Some(attempt::plain_event(EventKind::Queued))
        }),
{
    if got_slot {
        None
    } else {
        Some(Effect::Emit { kind: EventKind::Queued, payload: None })
    }
}

/// What a worker journals where the pipeline failed: the terminal failure.
pub fn worker_failure(failure: &WorkerFailure) -> (r: Effect)
    ensures
        r.deep_view() == attempt::event(
            EventKind::Failed,
            payload::failure(failure.deep_view().kind, failure.deep_view().message),
        ),
{
    Effect::Emit {
        kind: EventKind::Failed,
        payload: Some(failure_payload(failure.kind(), failure.message())),
    }
}

/// The commit every attempt is cut from and judged against: the pinned one, or
/// the base reference where none could be pinned.
pub fn scope_base<'a>(pinned: Option<&'a str>, base_ref: &'a str) -> (r: &'a str)
    ensures
        r@ == (match pinned {
            Some(p) => p@,
            None => base_ref@,
        }),
{
    match pinned {
        Some(p) => p,
        None => base_ref,
    }
}

// ---------------------------------------------------------------------------
// Laws
// ---------------------------------------------------------------------------

/// Slots are never over-committed: taking one succeeds exactly while one is
/// free, and whatever was taken can be given back and taken again.
pub proof fn law_slots_never_exceed_the_cap<H>(state: DelegationState<H>)
    requires
        state.wf(),
    ensures
        0 <= state.taken() <= state.slots(),
        state.slots() >= 1,
{
}

/// A task without criteria, or with a blank one, is never taken in, whatever
/// the profile says.
pub proof fn law_unfalsifiable_tasks_are_refused(
    criteria: Seq<AcceptanceCriterionView>,
    tier: Tier,
    containment_min: u8,
    profile: Result<ResolvedProfileView, Seq<char>>,
)
    requires
        criteria.len() == 0 || exists|i: int|
            0 <= i < criteria.len() && text::blank((#[trigger] criteria[i]).check),
    ensures
        admission(criteria, tier, containment_min, profile) matches Err(refusal) && refusal.kind
            == "spec_rejected"@,
{
    if criteria.len() > 0 {
        let i = choose|i: int|
            0 <= i < criteria.len() && text::blank((#[trigger] criteria[i]).check);
        lemma_first_blank(criteria, 0, i);
    }
}

proof fn lemma_first_blank(criteria: Seq<AcceptanceCriterionView>, from: int, i: int)
    requires
        0 <= from <= i < criteria.len(),
        text::blank(criteria[i].check),
    ensures
        first_blank(criteria, from) is Some,
    decreases i - from,
{
    if !text::blank(criteria[from].check) {
        lemma_first_blank(criteria, from + 1, i);
    }
}

/// A task that was taken in is contained at least as strictly as it and its
/// profile ask, and its tier has a model.
pub proof fn law_admitted_tasks_are_runnable(
    criteria: Seq<AcceptanceCriterionView>,
    tier: Tier,
    containment_min: u8,
    rp: ResolvedProfileView,
)
    ensures
        admission(criteria, tier, containment_min, Ok(rp)) matches Ok(a) ==> {
            &&& roles::configured(rp.roles, tier)
            &&& a.role == roles::tier_role(rp.roles, tier)->0
            &&& a.floor >= containment_min
            &&& a.floor >= containment::profile_floor(rp.containment_min, tier)
        },
{
}

/// Whether every criterion can be checked, and there is at least one.
pub open spec fn falsifiable(criteria: Seq<AcceptanceCriterionView>) -> bool {
    criteria.len() > 0 && forall|i: int|
        0 <= i < criteria.len() ==> !text::blank((#[trigger] criteria[i]).check)
}

/// Whether something can run a role: it is a driven CLI, or one of the backends
/// that there are.
pub open spec fn has_a_runner(role: ResolvedRoleView) -> bool {
    ||| role.kind == Some("driven_cli"@)
    ||| role.model == "mock"@
    ||| role.kind is None
    ||| role.kind == Some("mock"@)
    ||| role.kind == Some("anthropic"@)
}

proof fn lemma_none_blank(criteria: Seq<AcceptanceCriterionView>, from: int)
    requires
        0 <= from,
        forall|i: int|
            from <= i < criteria.len() ==> !text::blank((#[trigger] criteria[i]).check),
    ensures
        first_blank(criteria, from) is None,
    decreases criteria.len() - from,
{
    if from < criteria.len() {
        lemma_none_blank(criteria, from + 1);
    }
}

/// Every runnable task is taken in: where its criteria can be checked, the
/// profile resolved and its tier has a role that a driven CLI or a backend runs,
/// it runs with that profile and that role, contained as strictly as the
/// stricter of the two asks.
pub proof fn law_runnable_tasks_are_taken_in(
    criteria: Seq<AcceptanceCriterionView>,
    tier: Tier,
    containment_min: u8,
    rp: ResolvedProfileView,
)
    requires
        falsifiable(criteria),
        roles::configured(rp.roles, tier),
        has_a_runner(roles::tier_role(rp.roles, tier)->0),
    ensures
        admission(criteria, tier, containment_min, Ok(rp)) matches Ok(a) && {
            &&& a.profile == rp
            &&& Some(a.role) == roles::tier_role(rp.roles, tier)
            &&& a.floor == containment_min || a.floor == containment::profile_floor(
                rp.containment_min,
                tier,
            )
            &&& a.floor >= containment_min
            &&& a.floor >= containment::profile_floor(rp.containment_min, tier)
        },
{
    let role = roles::tier_role(rp.roles, tier)->0;
    lemma_none_blank(criteria, 0);
    roles::law_backends_have_no_fallback(role.model, role.kind, role.base_url);
}

/// A task is refused for one of four reasons and no other, told apart by what is
/// answered: its criteria cannot be checked, the profile did not resolve, its
/// tier has no role, or nothing runs that role.
pub proof fn law_refusals_have_a_reason(
    criteria: Seq<AcceptanceCriterionView>,
    tier: Tier,
    containment_min: u8,
    profile: Result<ResolvedProfileView, Seq<char>>,
)
    ensures
        admission(criteria, tier, containment_min, profile) is Ok <==> {
            &&& falsifiable(criteria)
            &&& profile matches Ok(rp)
            &&& roles::configured(rp.roles, tier)
            &&& has_a_runner(roles::tier_role(rp.roles, tier)->0)
        },
        admission(criteria, tier, containment_min, profile) matches Err(refusal) ==> {
            &&& refusal.kind == "spec_rejected"@ <==> !falsifiable(criteria)
            &&& refusal.kind == "model_unavailable"@ <==> falsifiable(criteria)
            &&& falsifiable(criteria) && profile is Err ==> refusal.message == profile->Err_0
        },
        profile matches Ok(rp) && falsifiable(criteria) && !roles::configured(rp.roles, tier)
            ==> admission(criteria, tier, containment_min, profile)->Err_0.message
            == "no model configured for tier "@ + text::decimal_int(tier.rank())
            + " in the active profile"@,
{
    reveal_strlit("spec_rejected");
    reveal_strlit("model_unavailable");
    assert("spec_rejected"@.len() == 13 && "model_unavailable"@.len() == 17);
    if falsifiable(criteria) {
        lemma_none_blank(criteria, 0);
    } else {
        law_unfalsifiable_tasks_are_refused(criteria, tier, containment_min, profile);
    }
    if profile is Ok && roles::configured(profile->Ok_0.roles, tier) {
        let role = roles::tier_role(profile->Ok_0.roles, tier)->0;
        roles::law_backends_have_no_fallback(role.model, role.kind, role.base_url);
    }
}

proof fn lemma_first_blank_is_first(
    criteria: Seq<AcceptanceCriterionView>,
    from: int,
    first: int,
)
    requires
        0 <= from <= first < criteria.len(),
        text::blank(criteria[first].check),
        forall|i: int| from <= i < first ==> !text::blank((#[trigger] criteria[i]).check),
    ensures
        first_blank(criteria, from) == Some(first),
    decreases first - from,
{
    if from < first {
        lemma_first_blank_is_first(criteria, from + 1, first);
    }
}

/// A refusal for a criterion names the first one that says nothing to check.
pub proof fn law_first_blank_criterion_is_named(
    criteria: Seq<AcceptanceCriterionView>,
    first: int,
)
    requires
        0 <= first < criteria.len(),
        text::blank(criteria[first].check),
        forall|i: int| 0 <= i < first ==> !text::blank((#[trigger] criteria[i]).check),
    ensures
        criteria_trouble(criteria) == Some(
            "acceptance criterion "@ + criteria[first].id
                + " has an empty check (adjective-free, falsifiable checks required)"@,
        ),
{
    lemma_first_blank_is_first(criteria, 0, first);
}

/// Commands are warned of as running no tests only where there are some and none
/// holds a word that tests are run by; one command that holds one is enough.
pub proof fn law_one_test_command_is_enough(commands: Seq<Seq<char>>, i: int, word: Seq<char>)
    requires
        0 <= i < commands.len(),
        text::contains_text(commands[i], word),
        word == "test"@ || word == "nextest"@ || word == "pytest"@ || word == "unittest"@ || word
            == "jest"@ || word == "vitest"@ || word == "mocha"@ || word == "rspec"@ || word
            == "phpunit"@ || word == "check"@ || word == "spec"@ || word == "junit"@ || word
            == "gradle"@,
    ensures
        !build_only(commands),
        !build_only(Seq::<Seq<char>>::empty()),
{
    let t = test_tokens();
    assert(t[0] == "test"@ && t[1] == "nextest"@ && t[2] == "pytest"@ && t[3] == "unittest"@ && t[4]
        == "jest"@ && t[5] == "vitest"@ && t[6] == "mocha"@ && t[7] == "rspec"@ && t[8]
        == "phpunit"@ && t[9] == "check"@ && t[10] == "spec"@ && t[11] == "junit"@ && t[12]
        == "gradle"@);
    assert(looks_like_test(commands[i]));
}

/// Commands none of which holds a word that tests are run by are warned of.
pub proof fn law_builds_alone_are_warned_of(commands: Seq<Seq<char>>)
    requires
        commands.len() > 0,
        forall|i: int|
            0 <= i < commands.len() ==> {
                let c = #[trigger] commands[i];
                !text::contains_text(c, "test"@) && !text::contains_text(c, "nextest"@)
                    && !text::contains_text(c, "pytest"@) && !text::contains_text(c, "unittest"@)
                    && !text::contains_text(c, "jest"@) && !text::contains_text(c, "vitest"@)
                    && !text::contains_text(c, "mocha"@) && !text::contains_text(c, "rspec"@)
                    && !text::contains_text(c, "phpunit"@) && !text::contains_text(c, "check"@)
                    && !text::contains_text(c, "spec"@) && !text::contains_text(c, "junit"@)
                    && !text::contains_text(c, "gradle"@)
            },
    ensures
        build_only(commands),
{
    assert forall|i: int| 0 <= i < commands.len() implies !looks_like_test(#[trigger] commands[i]) by {
        let c = commands[i];
        assert forall|t: int| 0 <= t < test_tokens().len() implies !text::contains_text(
            c,
            #[trigger] test_tokens()[t],
        ) by {
        }
    }
}

/// Commands are looked at in lower case, one by one; a profile, or the failure to
/// resolve one, is taken as it was given.
pub proof fn law_commands_are_lowered_one_by_one(
    commands: Seq<Seq<char>>,
    i: int,
    profile: ResolvedProfile,
    error: String,
)
    requires
        0 <= i < commands.len(),
    ensures
        lowered(commands).len() == commands.len(),
        lowered(commands)[i] == text::lowercase(commands[i]),
        profile_view(Ok(profile)) == Ok::<ResolvedProfileView, Seq<char>>(profile.deep_view()),
        profile_view(Err(error)) == Err::<ResolvedProfileView, Seq<char>>(error@),
{
}

/// A refusal is told apart by its kind and keeps its words.
pub proof fn law_refusals_keep_their_words(words: String)
    ensures
        DelegateError::SpecRejected(words).kind() == "spec_rejected"@,
        DelegateError::ModelUnavailable(words).kind() == "model_unavailable"@,
        DelegateError::Internal(words).kind() == "internal_error"@,
        DelegateError::SpecRejected(words).message() == words@,
        DelegateError::ModelUnavailable(words).message() == words@,
        DelegateError::Internal(words).message() == words@,
{
}

} // verus!
