//! What the advisor asks for: a task and how it is judged.

use crate::domain::{Tier, Verdict};
use vstd::prelude::*;

verus! {

/// What kind of check a criterion is.
#[derive(Debug, Clone, Copy, PartialEq, Eq, Structural)]
pub enum CriterionKind {
    Command,
    Invariant,
}

/// Limits of one attempt.
#[derive(Debug, Clone, Copy, PartialEq, Eq, Structural)]
pub struct Budget {
    pub turns: Option<i64>,
    pub tokens: Option<i64>,
}

/// Limits of the whole task.
#[derive(Debug, Clone, Copy, PartialEq, Eq, Structural)]
pub struct LifetimeBudget {
    pub tokens: Option<i64>,
    pub wall_clock_minutes: Option<i64>,
}

/// One thing that must hold of the work.
#[derive(Debug)]
pub struct AcceptanceCriterion {
    pub id: String,
    /// What is checked, in words or as a command.
    pub check: String,
    pub kind: CriterionKind,
}

/// What a [`AcceptanceCriterion`] says.
#[verifier::ext_equal]
pub struct AcceptanceCriterionView {
    pub id: Seq<char>,
    pub check: Seq<char>,
    pub kind: CriterionKind,
}

impl DeepView for AcceptanceCriterion {
    type V = AcceptanceCriterionView;

    open spec fn deep_view(&self) -> AcceptanceCriterionView {
        AcceptanceCriterionView {
            id: self.id.deep_view(),
            check: self.check.deep_view(),
            kind: self.kind,
        }
    }
}

impl Clone for AcceptanceCriterion {
    fn clone(&self) -> (r: Self)
        ensures
            r.deep_view() == self.deep_view(),
    {
        AcceptanceCriterion {
            id: self.id.clone(),
            check: self.check.clone(),
            kind: self.kind,
        }
    }
}

/// A task as the advisor states it.
#[derive(Debug)]
pub struct TaskSpec {
    pub title: String,
    /// The rung the task starts on.
    pub tier: Tier,
    pub base_ref: String,
    /// Globs of the files that may change.
    pub file_allowlist: Vec<String>,
    pub instructions: String,
    pub acceptance_criteria: Vec<AcceptanceCriterion>,
    pub check_commands: Vec<String>,
    pub house_rules_ref: Option<String>,
    pub budget: Budget,
    pub lifetime_budget: LifetimeBudget,
    /// The least containment level the task asks for.
    pub containment_min: u8,
}

/// What a [`TaskSpec`] says.
#[verifier::ext_equal]
pub struct TaskSpecView {
    pub title: Seq<char>,
    pub tier: Tier,
    pub base_ref: Seq<char>,
    pub file_allowlist: Seq<Seq<char>>,
    pub instructions: Seq<char>,
    pub acceptance_criteria: Seq<AcceptanceCriterionView>,
    pub check_commands: Seq<Seq<char>>,
    pub house_rules_ref: Option<Seq<char>>,
    pub budget: Budget,
    pub lifetime_budget: LifetimeBudget,
    pub containment_min: u8,
}

impl DeepView for TaskSpec {
    type V = TaskSpecView;

    open spec fn deep_view(&self) -> TaskSpecView {
        TaskSpecView {
            title: self.title.deep_view(),
            tier: self.tier,
            base_ref: self.base_ref.deep_view(),
            file_allowlist: self.file_allowlist.deep_view(),
            instructions: self.instructions.deep_view(),
            acceptance_criteria: self.acceptance_criteria.deep_view(),
            check_commands: self.check_commands.deep_view(),
            house_rules_ref: self.house_rules_ref.deep_view(),
            budget: self.budget,
            lifetime_budget: self.lifetime_budget,
            containment_min: self.containment_min,
        }
    }
}

impl Clone for TaskSpec {
    fn clone(&self) -> (r: Self)
        ensures
            r.deep_view() == self.deep_view(),
    {
        TaskSpec {
            title: self.title.clone(),
            tier: self.tier,
            base_ref: self.base_ref.clone(),
            file_allowlist: self.file_allowlist.clone(),
            instructions: self.instructions.clone(),
            acceptance_criteria: self.acceptance_criteria.clone(),
            check_commands: self.check_commands.clone(),
            house_rules_ref: self.house_rules_ref.clone(),
            budget: self.budget,
            lifetime_budget: self.lifetime_budget,
            containment_min: self.containment_min,
        }
    }
}

/// One finding of a verifier.
#[derive(Debug)]
pub struct Finding {
    /// The name of the severity.
    pub severity: String,
    pub criterion_id: Option<String>,
    pub evidence: String,
}

/// What a [`Finding`] says.
#[verifier::ext_equal]
pub struct FindingView {
    pub severity: Seq<char>,
    pub criterion_id: Option<Seq<char>>,
    pub evidence: Seq<char>,
}

impl DeepView for Finding {
    type V = FindingView;

    open spec fn deep_view(&self) -> FindingView {
        FindingView {
            severity: self.severity.deep_view(),
            criterion_id: self.criterion_id.deep_view(),
            evidence: self.evidence.deep_view(),
        }
    }
}

impl Clone for Finding {
    fn clone(&self) -> (r: Self)
        ensures
            r.deep_view() == self.deep_view(),
    {
        Finding {
            severity: self.severity.clone(),
            criterion_id: self.criterion_id.clone(),
            evidence: self.evidence.clone(),
        }
    }
}

/// A verifier's report.
#[derive(Debug)]
pub struct Report {
    pub verdict: Verdict,
    pub findings: Vec<Finding>,
    /// The report as it is stored.
    pub body: String,
}

/// What a [`Report`] says.
#[verifier::ext_equal]
pub struct ReportView {
    pub verdict: Verdict,
    pub findings: Seq<FindingView>,
    pub body: Seq<char>,
}

impl DeepView for Report {
    type V = ReportView;

    open spec fn deep_view(&self) -> ReportView {
        ReportView {
            verdict: self.verdict,
            findings: self.findings.deep_view(),
            body: self.body.deep_view(),
        }
    }
}

impl Clone for Report {
    fn clone(&self) -> (r: Self)
        ensures
            r.deep_view() == self.deep_view(),
    {
        Report {
            verdict: self.verdict,
            findings: self.findings.clone(),
            body: self.body.clone(),
        }
    }
}

/// The check command that rejected an attempt, and what it printed.
#[derive(Debug)]
pub struct CheckFailure {
    pub command: String,
    pub output_digest: String,
}

/// What a [`CheckFailure`] says.
#[verifier::ext_equal]
pub struct CheckFailureView {
    pub command: Seq<char>,
    pub output_digest: Seq<char>,
}

impl DeepView for CheckFailure {
    type V = CheckFailureView;

    open spec fn deep_view(&self) -> CheckFailureView {
        CheckFailureView {
            command: self.command.deep_view(),
            output_digest: self.output_digest.deep_view(),
        }
    }
}

impl Clone for CheckFailure {
    fn clone(&self) -> (r: Self)
        ensures
            r.deep_view() == self.deep_view(),
    {
        CheckFailure {
            command: self.command.clone(),
            output_digest: self.output_digest.clone(),
        }
    }
}

/// What is said of a task, and of how it was judged, is what they hold, field by
/// field.
pub proof fn law_tasks_are_said_whole(
    task_spec: TaskSpec,
    acceptance_criterion: AcceptanceCriterion,
    finding: Finding,
    report: Report,
    check_failure: CheckFailure,
)
    ensures
        task_spec.deep_view().title == task_spec.title.deep_view(),
        task_spec.deep_view().tier == task_spec.tier,
        task_spec.deep_view().base_ref == task_spec.base_ref.deep_view(),
        task_spec.deep_view().file_allowlist == task_spec.file_allowlist.deep_view(),
        task_spec.deep_view().instructions == task_spec.instructions.deep_view(),
        task_spec.deep_view().acceptance_criteria == task_spec.acceptance_criteria.deep_view(),
        task_spec.deep_view().check_commands == task_spec.check_commands.deep_view(),
        task_spec.deep_view().house_rules_ref == task_spec.house_rules_ref.deep_view(),
        task_spec.deep_view().budget == task_spec.budget,
        task_spec.deep_view().lifetime_budget == task_spec.lifetime_budget,
        task_spec.deep_view().containment_min == task_spec.containment_min,
        acceptance_criterion.deep_view().id == acceptance_criterion.id.deep_view(),
        acceptance_criterion.deep_view().check == acceptance_criterion.check.deep_view(),
        acceptance_criterion.deep_view().kind == acceptance_criterion.kind,
        finding.deep_view().severity == finding.severity.deep_view(),
        finding.deep_view().criterion_id == finding.criterion_id.deep_view(),
        finding.deep_view().evidence == finding.evidence.deep_view(),
        report.deep_view().verdict == report.verdict,
        report.deep_view().findings == report.findings.deep_view(),
        report.deep_view().body == report.body.deep_view(),
        check_failure.deep_view().command == check_failure.command.deep_view(),
        check_failure.deep_view().output_digest == check_failure.output_digest.deep_view(),
{
}

} // verus!
