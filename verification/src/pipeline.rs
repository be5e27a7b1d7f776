//! The escalation ladder: attempts, retries, escalations and the two ways a task
//! comes to rest without passing.
//!
//! A [`Pipeline`] is driven from outside. It asks for a budget check or for an
//! attempt, is told what came of it, and asks for the next thing, until the task
//! is finished or has failed.

use crate::domain::{EventKind, Tier};
use crate::json::{self, compact, object, put_int, put_text, Json};
use crate::prompt::{self, cap_diff};
use crate::config::RolesView;
use crate::resolve::ResolvedProfile;
use crate::roles::{
    self, next_configured_tier, role_for_tier, top_tier, ResolvedRole, ResolvedRoleView,
};
use crate::task::{CheckFailure, CheckFailureView, Report, ReportView};
use vstd::prelude::*;

verus! {

/// A failure of the machinery around an attempt; it ends the task.
#[derive(Debug)]
pub struct WorkerFailure {
    /// What kind of failure it is.
    pub kind: &'static str,
    pub message: String,
}

/// What a [`WorkerFailure`] says.
#[verifier::ext_equal]
pub struct WorkerFailureView {
    pub kind: Seq<char>,
    pub message: Seq<char>,
}

impl DeepView for WorkerFailure {
    type V = WorkerFailureView;

    open spec fn deep_view(&self) -> WorkerFailureView {
        WorkerFailureView { kind: self.kind@, message: self.message@ }
    }
}

impl WorkerFailure {
    /// What kind of failure it is.
    pub fn kind(&self) -> (r: &'static str)
        ensures
            r@ == self.deep_view().kind,
    {
        self.kind
    }

    /// The message.
    pub fn message(&self) -> (r: &str)
        ensures
            r@ == self.deep_view().message,
    {
        &self.message
    }
}

/// A failure of a kind with a message.
pub fn fail(kind: &'static str, message: String) -> (r: WorkerFailure)
    ensures
        r.deep_view() == (WorkerFailureView { kind: kind@, message: message@ }),
{
    WorkerFailure { kind, message }
}

/// An attempt that did not pass verification.
#[derive(Debug)]
pub struct FailedAttempt {
    /// The work that was rejected.
    pub diff: String,
    /// The verifier's report, where a verifier ran.
    pub report: Option<Report>,
    /// The check command that rejected the work, where one did.
    pub check_failure: Option<CheckFailure>,
}

/// What a [`FailedAttempt`] says.
#[verifier::ext_equal]
pub struct FailedAttemptView {
    pub diff: Seq<char>,
    pub report: Option<ReportView>,
    pub check_failure: Option<CheckFailureView>,
}

impl DeepView for FailedAttempt {
    type V = FailedAttemptView;

    open spec fn deep_view(&self) -> FailedAttemptView {
        FailedAttemptView {
            diff: self.diff@,
            report: self.report.deep_view(),
            check_failure: self.check_failure.deep_view(),
        }
    }
}

/// What came of one attempt.
#[derive(Debug)]
pub enum AttemptOutcome {
    /// The verifier passed it: the task is done.
    Passed,
    /// Verification rejected it: reason to try again or to escalate.
    VerificationFailed(FailedAttempt),
    /// It ended the task in a way that is journaled already.
    ScopeViolation,
}

/// What an [`AttemptOutcome`] says.
#[verifier::ext_equal]
pub enum AttemptOutcomeView {
    Passed,
    VerificationFailed(FailedAttemptView),
    ScopeViolation,
}

impl DeepView for AttemptOutcome {
    type V = AttemptOutcomeView;

    open spec fn deep_view(&self) -> AttemptOutcomeView {
        match self {
            AttemptOutcome::Passed => AttemptOutcomeView::Passed,
            AttemptOutcome::VerificationFailed(f) => AttemptOutcomeView::VerificationFailed(
                f.deep_view(),
            ),
            AttemptOutcome::ScopeViolation => AttemptOutcomeView::ScopeViolation,
        }
    }
}

/// What a pipeline waits for.
#[derive(Debug, Clone, Copy, PartialEq, Eq, Structural)]
pub enum Phase {
    /// A budget check before the next attempt.
    Opening,
    /// The outcome of an attempt.
    Attempting,
    /// A budget check after a failed attempt.
    Weighing,
    /// Nothing: the task is at rest.
    Closed,
}

/// A task on its way up the ladder.
#[derive(Debug)]
pub struct Pipeline {
    pub phase: Phase,
    /// The tier the task started on.
    pub start: Tier,
    /// The tier that runs now.
    pub tier: Tier,
    /// The top of the ladder.
    pub top: Tier,
    /// The role that runs now.
    pub role: ResolvedRole,
    /// Failed attempts at this tier.
    pub tier_failures: u32,
    /// The number of the latest attempt.
    pub attempt: i64,
    /// Every verifier report so far.
    pub prior_reports: Vec<Report>,
    pub last_failed_diff: Option<String>,
    /// The failing check that the next attempt is to fix in place.
    pub check_fix: Option<CheckFailure>,
    /// The failed attempt that is being weighed.
    pub failed: Option<FailedAttempt>,
}

/// What a [`Pipeline`] says.
#[verifier::ext_equal]
pub struct PipelineView {
    pub phase: Phase,
    pub start: Tier,
    pub tier: Tier,
    pub top: Tier,
    pub role: ResolvedRoleView,
    pub tier_failures: int,
    pub attempt: int,
    pub prior_reports: Seq<ReportView>,
    pub last_failed_diff: Option<Seq<char>>,
    pub check_fix: Option<CheckFailureView>,
    pub failed: Option<FailedAttemptView>,
}

impl DeepView for Pipeline {
    type V = PipelineView;

    open spec fn deep_view(&self) -> PipelineView {
        PipelineView {
            phase: self.phase,
            start: self.start,
            tier: self.tier,
            top: self.top,
            role: self.role.deep_view(),
            tier_failures: self.tier_failures as int,
            attempt: self.attempt as int,
            prior_reports: self.prior_reports.deep_view(),
            last_failed_diff: self.last_failed_diff.deep_view(),
            check_fix: self.check_fix.deep_view(),
            failed: self.failed.deep_view(),
        }
    }
}

/// What a pipeline asks for next.
#[derive(Debug)]
pub enum PipelineAction {
    /// Journal the event, if any, then check the task's budget.
    CheckBudget(Option<(EventKind, String)>),
    /// Run an attempt with the pipeline's role, attempt number, reports, diff
    /// and failing check.
    Attempt,
    /// Journal the event, if any: the task is at rest.
    Finish(Option<(EventKind, String)>),
    /// The task has failed.
    Fail(WorkerFailure),
}

/// What a [`PipelineAction`] says.
#[verifier::ext_equal]
pub enum PipelineActionView {
    CheckBudget(Option<(EventKind, Seq<char>)>),
    Attempt,
    Finish(Option<(EventKind, Seq<char>)>),
    Fail(WorkerFailureView),
}

/// What an optional event says.
pub open spec fn event_view(e: Option<(EventKind, String)>) -> Option<(EventKind, Seq<char>)> {
    match e {
        Some((kind, payload)) => Some((kind, payload@)),
        None => None,
    }
}

impl DeepView for PipelineAction {
    type V = PipelineActionView;

    open spec fn deep_view(&self) -> PipelineActionView {
        match self {
            PipelineAction::CheckBudget(e) => PipelineActionView::CheckBudget(event_view(*e)),
            PipelineAction::Attempt => PipelineActionView::Attempt,
            PipelineAction::Finish(e) => PipelineActionView::Finish(event_view(*e)),
            PipelineAction::Fail(f) => PipelineActionView::Fail(f.deep_view()),
        }
    }
}

/// The fields that record an escalation.
pub open spec fn escalation(from: Tier, to: Tier) -> Map<Seq<char>, Json> {
    map![
        "from_tier"@ => Json::Int(from.rank()),
        "to_tier"@ => Json::Int(to.rank()),
        "reason"@ => Json::Text("verification_failed"@),
    ]
}

/// The fields that record a task at rest with its last failed work.
pub open spec fn blocked(diff: Seq<char>) -> Map<Seq<char>, Json> {
    map!["partial_diff"@ => Json::Text(prompt::capped(diff))]
}

impl PipelineView {
    /// A task at the foot of its ladder.
    pub open spec fn fresh(roles: RolesView, tier: Tier, role: ResolvedRoleView) -> PipelineView {
        PipelineView {
            phase: Phase::Opening,
            start: tier,
            tier,
            top: roles::ladder_top(roles, tier),
            role,
            tier_failures: 0,
            attempt: 0,
            prior_reports: Seq::empty(),
            last_failed_diff: None,
            check_fix: None,
            failed: None,
        }
    }

    /// How many more attempts the ladder allows from here: two at every tier
    /// below the top, one at the top.
    pub open spec fn allowance(self, roles: RolesView) -> int {
        2 * roles::rungs_above(roles, self.tier) + 1 - self.tier_failures
    }

    /// How many attempts the whole ladder allows.
    pub open spec fn total(self, roles: RolesView) -> int {
        2 * roles::rungs_above(roles, self.start) + 1
    }

    /// What holds of every pipeline at all times.
    pub open spec fn wf(self, roles: RolesView) -> bool {
        &&& self.start.rank() <= self.tier.rank() <= self.top.rank()
        &&& self.top == roles::ladder_top(roles, self.start)
        &&& self.top == roles::ladder_top(roles, self.tier)
        &&& 0 <= self.tier_failures <= 1
        &&& 0 <= self.attempt <= self.total(roles)
        &&& !(self.phase is Closed) ==> {
            &&& self.tier == self.top ==> self.tier_failures == 0
            &&& self.attempt + self.allowance(roles) == self.total(roles) + (
            if self.phase is Opening {
                0int
            } else {
                1int
            })
        }
        &&& self.phase is Weighing <==> self.failed is Some
    }

    /// The pipeline once the failed attempt counts: one more failure at this
    /// tier, its report and diff on record, its failing check pending.
    pub open spec fn charged(self) -> PipelineView {
        let f = self.failed->0;
        PipelineView {
            tier_failures: self.tier_failures + 1,
            prior_reports: match f.report {
                Some(r) => self.prior_reports.push(r),
                None => self.prior_reports,
            },
            last_failed_diff: Some(f.diff),
            check_fix: f.check_failure,
            failed: None,
            ..self
        }
    }

    /// A budget check's answer. A spent budget ends the task at once. Otherwise
    /// the next attempt begins, or the failed one is weighed: at the top the
    /// task blocks, after two failures it escalates without the failing check,
    /// and else it tries again at the same tier.
    pub open spec fn after_budget(self, roles: RolesView, spent: bool) -> (
        PipelineView,
        PipelineActionView,
    ) {
        let closed = PipelineView { phase: Phase::Closed, failed: None, ..self };
        if spent {
            (closed, PipelineActionView::Finish(None))
        } else if self.phase is Opening {
            (
                PipelineView { phase: Phase::Attempting, attempt: self.attempt + 1, ..self },
                PipelineActionView::Attempt,
            )
        } else {
            let c = self.charged();
            if self.tier == self.top {
                (
                    PipelineView { phase: Phase::Closed, ..c },
                    PipelineActionView::Finish(
                        Some(
                            (
                                EventKind::Blocked,
                                json::compact_text(blocked(self.failed->0.diff)),
                            ),
                        ),
                    ),
                )
            } else if c.tier_failures >= 2 {
                let next = roles::next_rung(roles, self.tier)->0;
                (
                    PipelineView {
                        phase: Phase::Opening,
                        tier: next,
                        role: roles::tier_role(roles, next)->0,
                        tier_failures: 0,
                        check_fix: None,
                        ..c
                    },
                    PipelineActionView::CheckBudget(
                        Some(
                            (
                                EventKind::Escalated,
                                json::compact_text(escalation(self.tier, next)),
                            ),
                        ),
                    ),
                )
            } else {
                (
                    PipelineView { phase: Phase::Opening, ..c },
                    PipelineActionView::CheckBudget(None),
                )
            }
        }
    }

    /// An attempt's outcome. The failing check it was to fix is used up.
    pub open spec fn after_outcome(
        self,
        outcome: Result<AttemptOutcomeView, WorkerFailureView>,
    ) -> (PipelineView, PipelineActionView) {
        let rest = PipelineView { phase: Phase::Closed, check_fix: None, ..self };
        match outcome {
            Ok(AttemptOutcomeView::VerificationFailed(f)) => (
                PipelineView { phase: Phase::Weighing, check_fix: None, failed: Some(f), ..self },
                PipelineActionView::CheckBudget(None),
            ),
            Ok(_) => (rest, PipelineActionView::Finish(None)),
            Err(e) => (rest, PipelineActionView::Fail(e)),
        }
    }
}

/// What the outcome of an attempt says.
pub open spec fn outcome_view(r: Result<AttemptOutcome, WorkerFailure>) -> Result<
    AttemptOutcomeView,
    WorkerFailureView,
> {
    match r {
        Ok(o) => Ok(o.deep_view()),
        Err(e) => Err(e.deep_view()),
    }
}

fn blocked_payload(diff: &str) -> (r: String)
    ensures
        r@ == json::compact_text(blocked(diff@)),
{
    let mut m = object();
    put_text(&mut m, "partial_diff", &cap_diff(diff));
    assert(json::fields(m) =~= blocked(diff@));
    compact(m)
}

fn escalation_payload(from: Tier, to: Tier) -> (r: String)
    ensures
        r@ == json::compact_text(escalation(from, to)),
{
    let mut m = object();
    put_int(&mut m, "from_tier", from.as_int());
    put_int(&mut m, "to_tier", to.as_int());
    put_text(&mut m, "reason", "verification_failed");
    assert(json::fields(m) =~= escalation(from, to));
    compact(m)
}

impl Pipeline {
    /// Puts a task at the foot of its ladder. It asks for a budget check first.
    pub fn start(rp: &ResolvedProfile, tier: Tier, initial_role: ResolvedRole) -> (r: Self)
        ensures
            r.deep_view() == PipelineView::fresh(
                rp.roles.deep_view(),
                tier,
                initial_role.deep_view(),
            ),
            r.deep_view().wf(rp.roles.deep_view()),
    {
        let prior_reports: Vec<Report> = Vec::new();
        assert(prior_reports.deep_view() =~= Seq::<ReportView>::empty());
        Pipeline {
            phase: Phase::Opening,
            start: tier,
            tier,
            top: top_tier(rp, tier),
            role: initial_role,
            tier_failures: 0,
            attempt: 0,
            prior_reports,
            last_failed_diff: None,
            check_fix: None,
            failed: None,
        }
    }

    /// Takes the answer to a budget check.
    pub fn on_budget(&mut self, rp: &ResolvedProfile, spent: bool) -> (r: PipelineAction)
        requires
            old(self).deep_view().wf(rp.roles.deep_view()),
            old(self).phase is Opening || old(self).phase is Weighing,
        ensures
            (final(self).deep_view(), r.deep_view()) == old(self).deep_view().after_budget(
                rp.roles.deep_view(),
                spent,
            ),
            final(self).deep_view().wf(rp.roles.deep_view()),
    {
        let ghost roles = rp.roles.deep_view();
        let failed = self.failed.take();
        if spent {
            self.phase = Phase::Closed;
            return PipelineAction::Finish(None);
        }
        match failed {
            None => {
                self.phase = Phase::Attempting;
                self.attempt = self.attempt + 1;
                PipelineAction::Attempt
            },
            Some(failed) => {
                self.tier_failures = self.tier_failures + 1;
                let ghost before = self.prior_reports.deep_view();
                match failed.report {
                    Some(report) => {
                        let ghost said = report.deep_view();
                        self.prior_reports.push(report);
                        assert(self.prior_reports.deep_view() =~= before.push(said));
                    },
                    None => {},
                }
                self.check_fix = failed.check_failure;
                if self.tier == self.top {
                    let payload = blocked_payload(&failed.diff);
                    self.last_failed_diff = Some(failed.diff);
                    self.phase = Phase::Closed;
                    return PipelineAction::Finish(Some((EventKind::Blocked, payload)));
                }
                self.last_failed_diff = Some(failed.diff);
                self.phase = Phase::Opening;
                if self.tier_failures >= 2 {
                    proof {
                        roles::law_climb(roles, self.tier);
                    }
                    let next = next_configured_tier(rp, self.tier).unwrap();
                    let role = role_for_tier(rp, next).unwrap();
                    let payload = escalation_payload(self.tier, next);
                    self.tier = next;
                    self.role = role;
                    self.tier_failures = 0;
                    self.check_fix = None;
                    return PipelineAction::CheckBudget(Some((EventKind::Escalated, payload)));
                }
                PipelineAction::CheckBudget(None)
            },
        }
    }

    /// Takes the outcome of an attempt.
    pub fn on_outcome(&mut self, outcome: Result<AttemptOutcome, WorkerFailure>) -> (r:
        PipelineAction)
        requires
            old(self).phase is Attempting,
            old(self).failed is None,
        ensures
            (final(self).deep_view(), r.deep_view()) == old(self).deep_view().after_outcome(
                outcome_view(outcome),
            ),
            forall|roles: RolesView| #[trigger]
                old(self).deep_view().wf(roles) ==> final(self).deep_view().wf(roles),
    {
        self.check_fix = None;
        match outcome {
            Ok(AttemptOutcome::VerificationFailed(f)) => {
                self.failed = Some(f);
                self.phase = Phase::Weighing;
                PipelineAction::CheckBudget(None)
            },
            Ok(_) => {
                self.phase = Phase::Closed;
                PipelineAction::Finish(None)
            },
            Err(e) => {
                self.phase = Phase::Closed;
                PipelineAction::Fail(e)
            },
        }
    }
}

// ---------------------------------------------------------------------------
// Laws
// ---------------------------------------------------------------------------

/// Whether a pipeline may take a budget check's answer.
pub open spec fn awaits_budget(p: PipelineView) -> bool {
    p.phase is Opening || p.phase is Weighing
}

/// The ladder is bounded: a task never gets more than two attempts at each tier
/// below the top and one at the top.
pub proof fn law_attempts_bounded(p: PipelineView, roles: RolesView)
    requires
        p.wf(roles),
    ensures
        p.attempt <= 2 * roles::rungs_above(roles, p.start) + 1,
        p.attempt <= 5,
{
}

/// Every failed attempt that does not end the task uses up one of the attempts
/// that the ladder still allows, so the task comes to rest.
pub proof fn law_every_failure_costs_an_attempt(p: PipelineView, roles: RolesView)
    requires
        p.wf(roles),
        p.phase is Weighing,
    ensures
        ({
            let (next, action) = p.after_budget(roles, false);
            action is CheckBudget ==> 0 <= next.allowance(roles) == p.allowance(roles) - 1
        }),
{
    if p.tier != p.top {
        roles::law_climb(roles, p.tier);
    }
}

/// Escalation only climbs: the tier never falls, never passes the top, and the
/// top never moves.
pub proof fn law_tier_only_rises(p: PipelineView, roles: RolesView, spent: bool)
    requires
        p.wf(roles),
        awaits_budget(p),
    ensures
        ({
            let (next, action) = p.after_budget(roles, spent);
            &&& p.tier.rank() <= next.tier.rank() <= p.top.rank()
            &&& next.top == p.top
            &&& next.tier != p.tier ==> roles::configured(roles, next.tier) && roles::tier_role(
                roles,
                next.tier,
            ) == Some(next.role)
        }),
{
    if p.tier != p.top {
        roles::law_climb(roles, p.tier);
    }
}

/// One failure at the top blocks the task, whatever came before.
pub proof fn law_failure_at_the_top_blocks(p: PipelineView, roles: RolesView)
    requires
        p.wf(roles),
        p.phase is Weighing,
        p.tier == p.top,
    ensures
        ({
            let (next, action) = p.after_budget(roles, false);
            &&& next.phase is Closed
            &&& action == PipelineActionView::Finish(
                Some((EventKind::Blocked, json::compact_text(blocked(p.failed->0.diff)))),
            )
        }),
{
}

/// Below the top a task escalates exactly on its second failure at a tier, and
/// tries again at the same tier on its first.
pub proof fn law_second_failure_escalates(p: PipelineView, roles: RolesView)
    requires
        p.wf(roles),
        p.phase is Weighing,
        p.tier != p.top,
    ensures
        ({
            let (next, action) = p.after_budget(roles, false);
            &&& next.phase is Opening
            &&& p.tier_failures == 0 ==> next.tier == p.tier && next.role == p.role && action
                == PipelineActionView::CheckBudget(None)
            &&& p.tier_failures == 1 ==> next.tier.rank() > p.tier.rank() && next.tier_failures == 0
                && action == PipelineActionView::CheckBudget(
                Some((EventKind::Escalated, json::compact_text(escalation(p.tier, next.tier)))),
            )
        }),
{
    roles::law_climb(roles, p.tier);
}

/// A spent budget is terminal and no reason to escalate: the task rests where it
/// is, and nothing but the budget's own event is journaled.
pub proof fn law_spent_budget_ends_the_task(p: PipelineView, roles: RolesView)
    requires
        p.wf(roles),
        awaits_budget(p),
    ensures
        ({
            let (next, action) = p.after_budget(roles, true);
            &&& next.phase is Closed
            &&& next.tier == p.tier
            &&& next.attempt == p.attempt
            &&& next.prior_reports == p.prior_reports
            &&& action == PipelineActionView::Finish(None)
        }),
{
}

/// A failing check is carried into the next attempt only on a retry at the same
/// tier, and only where a check command rejected the last one.
pub proof fn law_fix_in_place_stays_on_its_tier(p: PipelineView, roles: RolesView)
    requires
        p.wf(roles),
        p.phase is Weighing,
    ensures
        ({
            let (next, action) = p.after_budget(roles, false);
            &&& action is CheckBudget && next.check_fix is Some ==> next.tier == p.tier
                && next.check_fix == p.failed->0.check_failure
            &&& next.tier != p.tier ==> next.check_fix is None
            &&& p.failed->0.check_failure is None ==> next.check_fix is None
        }),
{
    if p.tier != p.top {
        roles::law_climb(roles, p.tier);
    }
}

/// Reports are never lost: each weighed failure keeps the earlier ones in order
/// and adds at most its own.
pub proof fn law_reports_accumulate(p: PipelineView, roles: RolesView)
    requires
        p.wf(roles),
        p.phase is Weighing,
    ensures
        ({
            let next = p.after_budget(roles, false).0;
            &&& p.prior_reports.is_prefix_of(next.prior_reports)
            &&& next.prior_reports.len() <= p.prior_reports.len() + 1
            &&& next.last_failed_diff == Some(p.failed->0.diff)
        }),
{
}

/// A task that passes, or that ended in a scope violation, is never retried,
/// blocked or escalated.
pub proof fn law_settled_outcomes_end_the_task(p: PipelineView, outcome: AttemptOutcomeView)
    requires
        p.phase is Attempting,
        !(outcome is VerificationFailed),
    ensures
        p.after_outcome(Ok(outcome)).0.phase is Closed,
        p.after_outcome(Ok(outcome)).1 == PipelineActionView::Finish(None),
{
}

/// A task begins at the foot of its ladder: nothing tried, nothing on record, the
/// role it was given, and the highest tier that has a model as its top.
pub proof fn law_tasks_begin_at_the_foot(roles: RolesView, tier: Tier, role: ResolvedRoleView)
    ensures
        ({
            let p = PipelineView::fresh(roles, tier, role);
            &&& p.phase is Opening
            &&& p.start == tier && p.tier == tier
            &&& p.top.rank() >= tier.rank()
            &&& p.role == role
            &&& p.attempt == 0 && p.tier_failures == 0
            &&& p.prior_reports.len() == 0
            &&& p.last_failed_diff is None && p.check_fix is None && p.failed is None
            &&& forall|t: Tier|
                #![trigger roles::configured(roles, t)]
                t.rank() > tier.rank() && roles::configured(roles, t) ==> t.rank() <= p.top.rank()
        }),
{
    roles::law_ladder_top(roles, tier);
}

/// An attempt begins with nothing changed but its number, which goes up by one.
pub proof fn law_attempts_are_numbered(p: PipelineView, roles: RolesView)
    requires
        p.phase is Opening,
    ensures
        p.after_budget(roles, false).1 is Attempt,
        p.after_budget(roles, false).0 == (PipelineView {
            phase: Phase::Attempting,
            attempt: p.attempt + 1,
            ..p
        }),
{
}

/// A failure is weighed as it was reported; a failure of the machinery ends the
/// task with its own words.
pub proof fn law_outcomes_are_taken_as_they_are(
    p: PipelineView,
    failed: FailedAttemptView,
    broken: WorkerFailureView,
)
    ensures
        ({
            let (next, action) = p.after_outcome(Ok(AttemptOutcomeView::VerificationFailed(failed)));
            &&& next == (PipelineView {
                phase: Phase::Weighing,
                check_fix: None,
                failed: Some(failed),
                ..p
            })
            &&& action == PipelineActionView::CheckBudget(None)
        }),
        p.after_outcome(Err(broken)).0.phase is Closed,
        p.after_outcome(Err(broken)).1 == PipelineActionView::Fail(broken),
{
}

/// Every report goes on record, behind the earlier ones, and so does the diff that
/// failed; a failing check is pending on the next attempt at the same tier.
pub proof fn law_failures_go_on_record(p: PipelineView, roles: RolesView)
    requires
        p.wf(roles),
        p.phase is Weighing,
    ensures
        ({
            let next = p.after_budget(roles, false).0;
            let f = p.failed->0;
            &&& f.report matches Some(r) ==> next.prior_reports == p.prior_reports.push(r)
            &&& f.report is None ==> next.prior_reports == p.prior_reports
            &&& next.last_failed_diff == Some(f.diff)
            &&& next.failed is None
            &&& next.phase is Opening && next.tier == p.tier ==> {
                &&& next.check_fix == f.check_failure
                &&& next.tier_failures == p.tier_failures + 1
                &&& next.role == p.role
            }
            &&& next.attempt == p.attempt
            &&& next.start == p.start
            &&& next.top == p.top
        }),
{
    if p.tier != p.top {
        roles::law_climb(roles, p.tier);
    }
}

/// A task that escalates runs the role of the next tier that has one, skipping
/// none, and the step is journaled from tier to tier.
pub proof fn law_escalation_takes_the_next_role(p: PipelineView, roles: RolesView)
    requires
        p.wf(roles),
        p.phase is Weighing,
        p.tier != p.top,
        p.tier_failures == 1,
    ensures
        ({
            let (next, action) = p.after_budget(roles, false);
            &&& roles::configured(roles, next.tier)
            &&& Some(next.role) == roles::tier_role(roles, next.tier)
            &&& next.tier.rank() > p.tier.rank()
            &&& forall|t: Tier|
                #![trigger roles::configured(roles, t)]
                p.tier.rank() < t.rank() < next.tier.rank() ==> !roles::configured(roles, t)
            &&& action == PipelineActionView::CheckBudget(
                Some(
                    (
                        EventKind::Escalated,
                        json::compact_text(
                            map![
                                "from_tier"@ => Json::Int(p.tier.rank()),
                                "to_tier"@ => Json::Int(next.tier.rank()),
                                "reason"@ => Json::Text("verification_failed"@),
                            ],
                        ),
                    ),
                ),
            )
        }),
{
    roles::law_climb(roles, p.tier);
    roles::law_no_rung_is_skipped(roles, p.tier);
}

/// A task that blocks is journaled with what its last attempt left.
pub proof fn law_blocked_tasks_keep_their_work(p: PipelineView, roles: RolesView)
    requires
        p.wf(roles),
        p.phase is Weighing,
        p.tier == p.top,
    ensures
        p.after_budget(roles, false).1 == PipelineActionView::Finish(
            Some(
                (
                    EventKind::Blocked,
                    json::compact_text(
                        map!["partial_diff"@ => Json::Text(prompt::capped(p.failed->0.diff))],
                    ),
                ),
            ),
        ),
        p.after_budget(roles, false).0.tier == p.tier,
{
}

/// A ladder allows two attempts at every tier below its top and one at the top.
pub proof fn law_two_tries_below_the_top(roles: RolesView, tier: Tier, role: ResolvedRoleView)
    ensures
        PipelineView::fresh(roles, tier, role).total(roles) == 2 * roles::rungs_above(roles, tier)
            + 1,
        PipelineView::fresh(roles, tier, role).allowance(roles) == PipelineView::fresh(
            roles,
            tier,
            role,
        ).total(roles),
        PipelineView::fresh(roles, tier, role).wf(roles),
{
}

/// What came of an attempt is taken as it was given: its outcome or its failure;
/// and an event is journaled under its own kind with its own payload.
pub proof fn law_outcomes_are_taken_as_given(
    outcome: AttemptOutcome,
    failure: WorkerFailure,
    kind: EventKind,
    payload: String,
)
    ensures
        outcome_view(Ok(outcome)) == Ok::<AttemptOutcomeView, WorkerFailureView>(
            outcome.deep_view(),
        ),
        outcome_view(Err(failure)) == Err::<AttemptOutcomeView, WorkerFailureView>(
            failure.deep_view(),
        ),
        event_view(Some((kind, payload))) == Some((kind, payload@)),
        event_view(None) is None,
{
}

/// What is said of a task on its ladder, and of an attempt that failed, is what they
/// hold, field by field.
pub proof fn law_pipelines_are_said_whole(
    failed_attempt: FailedAttempt,
    pipeline: Pipeline,
)
    ensures
        failed_attempt.deep_view().diff == failed_attempt.diff@,
        failed_attempt.deep_view().report == failed_attempt.report.deep_view(),
        failed_attempt.deep_view().check_failure == failed_attempt.check_failure.deep_view(),
        pipeline.deep_view().phase == pipeline.phase,
        pipeline.deep_view().start == pipeline.start,
        pipeline.deep_view().tier == pipeline.tier,
        pipeline.deep_view().top == pipeline.top,
        pipeline.deep_view().role == pipeline.role.deep_view(),
        pipeline.deep_view().tier_failures == pipeline.tier_failures as int,
        pipeline.deep_view().attempt == pipeline.attempt as int,
        pipeline.deep_view().prior_reports == pipeline.prior_reports.deep_view(),
        pipeline.deep_view().last_failed_diff == pipeline.last_failed_diff.deep_view(),
        pipeline.deep_view().check_fix == pipeline.check_fix.deep_view(),
        pipeline.deep_view().failed == pipeline.failed.deep_view(),
{
}

} // verus!
