//! One attempt, from its worktree to its verdict.
//!
//! An [`Attempt`] is driven from outside: each call takes what came of the last
//! request and gives a [`Turn`], the effects to carry out in order and the next
//! thing that needs an answer. A role runs either as one request to a provider
//! API or as a CLI driven over a pseudo-terminal; both end in the same tail, the
//! mechanical gate and the model verifier.

use crate::containment::{
    self, tighten_file_cap, ContainmentRecipe, ContainmentRecipeView, SandboxSpec, SandboxSpecView,
};
use crate::domain::{EventKind, ExitStatus, Independence, KillKind, SessionKind, SessionRole, Verdict};
use crate::gate::{GateOutcome, GateOutcomeView};
use crate::json::{self, compact, object, put_count, put_int, put_text, put_texts, Json};
use crate::payload::{self, failure_object, failure_payload};
use crate::pipeline::{
    AttemptOutcome, AttemptOutcomeView, FailedAttempt, FailedAttemptView, WorkerFailure,
    WorkerFailureView,
};
use crate::prompt::{self, attempt_prompt, cap_diff, compose_house_rules, driven_env_remove};
use crate::resolve::ResolvedProfile;
use crate::roles::{
    self, select_backend, select_verifier, select_verifier_backend, verifier_role_is_mock, Backend,
    BackendView, ResolvedRole, ResolvedRoleView,
};
use crate::task::{
    CheckFailure, CheckFailureView, Report, ReportView, TaskSpec, TaskSpecView,
};
use crate::text::{self, cat2, cat3, is_blank, opt_is, same, u64_text};
use vstd::prelude::*;

verus! {

// ---------------------------------------------------------------------------
// Effects and requests
// ---------------------------------------------------------------------------

/// Something to carry out that needs no answer.
#[allow(inconsistent_fields)]
#[derive(Debug)]
pub enum Effect {
    /// Append an event to the task's journal.
    Emit {
        kind: EventKind,
        payload: Option<String>,
    },
    /// Open a session; later effects that finish a session mean this one.
    OpenSession {
        role: SessionRole,
        model: String,
        kind: SessionKind,
        /// The worktree it works in, if it works in one.
        workspace: Option<String>,
    },
    /// Record how the open session ended.
    FinishSession {
        exit: ExitStatus,
        turns: Option<i64>,
        tokens_in: Option<i64>,
        tokens_out: Option<i64>,
    },
    /// Store a verifier's report under the open session.
    SaveReport {
        independence: Independence,
        attempt: i64,
        body: String,
    },
    /// Remove the attempt's worktree.
    RemoveWorktree,
    /// Commit the changed files, so that a retry starts from them; a failure to
    /// do so is not fatal.
    Checkpoint(CommitRequest),
}

/// What an [`Effect`] says.
#[allow(inconsistent_fields)]
#[verifier::ext_equal]
pub enum EffectView {
    Emit { kind: EventKind, payload: Option<Seq<char>> },
    OpenSession {
        role: SessionRole,
        model: Seq<char>,
        kind: SessionKind,
        workspace: Option<Seq<char>>,
    },
    FinishSession {
        exit: ExitStatus,
        turns: Option<i64>,
        tokens_in: Option<i64>,
        tokens_out: Option<i64>,
    },
    SaveReport { independence: Independence, attempt: i64, body: Seq<char> },
    RemoveWorktree,
    Checkpoint(CommitRequestView),
}

impl DeepView for Effect {
    type V = EffectView;

    open spec fn deep_view(&self) -> EffectView {
        match self {
            Effect::Emit { kind, payload } => EffectView::Emit {
                kind: *kind,
                payload: payload.deep_view(),
            },
            Effect::OpenSession { role, model, kind, workspace } => EffectView::OpenSession {
                role: *role,
                model: model@,
                kind: *kind,
                workspace: workspace.deep_view(),
            },
            Effect::FinishSession { exit, turns, tokens_in, tokens_out } => {
                EffectView::FinishSession {
                    exit: *exit,
                    turns: *turns,
                    tokens_in: *tokens_in,
                    tokens_out: *tokens_out,
                }
            },
            Effect::SaveReport { independence, attempt, body } => EffectView::SaveReport {
                independence: *independence,
                attempt: *attempt,
                body: body@,
            },
            Effect::RemoveWorktree => EffectView::RemoveWorktree,
            Effect::Checkpoint(request) => EffectView::Checkpoint(request.deep_view()),
        }
    }
}

/// An event without a payload.
pub open spec fn plain_event(kind: EventKind) -> EffectView {
    EffectView::Emit { kind, payload: None }
}

/// An event with an object for its payload.
pub open spec fn event(kind: EventKind, fields: Map<Seq<char>, Json>) -> EffectView {
    EffectView::Emit { kind, payload: Some(json::compact_text(fields)) }
}

/// The end of a session that produced nothing to meter.
pub open spec fn unmetered(exit: ExitStatus) -> EffectView {
    EffectView::FinishSession { exit, turns: None, tokens_in: None, tokens_out: None }
}

fn emit(kind: EventKind) -> (r: Effect)
    ensures
        r.deep_view() == plain_event(kind),
{
    Effect::Emit { kind, payload: None }
}

fn emit_with(kind: EventKind, payload: String) -> (r: Effect)
    ensures
        r.deep_view() == (EffectView::Emit { kind, payload: Some(payload@) }),
{
    Effect::Emit { kind, payload: Some(payload) }
}

fn finish_unmetered(exit: ExitStatus) -> (r: Effect)
    ensures
        r.deep_view() == unmetered(exit),
{
    Effect::FinishSession { exit, turns: None, tokens_in: None, tokens_out: None }
}

fn effects0() -> (r: Vec<Effect>)
    ensures
        r.deep_view() == Seq::<EffectView>::empty(),
{
    let v: Vec<Effect> = Vec::new();
    assert(v.deep_view() =~= Seq::<EffectView>::empty());
    v
}

fn effects1(a: Effect) -> (r: Vec<Effect>)
    ensures
        r.deep_view() == seq![a.deep_view()],
{
    let mut v: Vec<Effect> = Vec::new();
    let ghost want = seq![a.deep_view()];
    v.push(a);
    assert(v.deep_view() =~= want);
    v
}

fn effects2(a: Effect, b: Effect) -> (r: Vec<Effect>)
    ensures
        r.deep_view() == seq![a.deep_view(), b.deep_view()],
{
    let mut v: Vec<Effect> = Vec::new();
    let ghost want = seq![a.deep_view(), b.deep_view()];
    v.push(a);
    v.push(b);
    assert(v.deep_view() =~= want);
    v
}

fn effects3(a: Effect, b: Effect, c: Effect) -> (r: Vec<Effect>)
    ensures
        r.deep_view() == seq![a.deep_view(), b.deep_view(), c.deep_view()],
{
    let mut v: Vec<Effect> = Vec::new();
    let ghost want = seq![a.deep_view(), b.deep_view(), c.deep_view()];
    v.push(a);
    v.push(b);
    v.push(c);
    assert(v.deep_view() =~= want);
    v
}

/// Everything a driven CLI is started with.
#[derive(Debug)]
pub struct DrivenConfig {
    pub program: String,
    pub args: Vec<String>,
    pub cwd: String,
    pub prompt: String,
    /// The word that starts a plan line.
    pub plan_marker: String,
    /// Silence after which the session counts as wedged.
    pub watchdog_seconds: u64,
    pub plan_timeout_seconds: u64,
    pub plan_ceiling_seconds: u64,
    pub turn_cap: u32,
    pub max_budget_usd_bits: Option<u64>,
    /// Environment variables the CLI does not inherit.
    pub env_remove: Vec<String>,
    /// Whether the two-phase permission-mode adapter drives it.
    pub structured: bool,
    /// Whether its plan is checked offline.
    pub mock_checker: bool,
}

/// What a [`DrivenConfig`] says.
#[verifier::ext_equal]
pub struct DrivenConfigView {
    pub program: Seq<char>,
    pub args: Seq<Seq<char>>,
    pub cwd: Seq<char>,
    pub prompt: Seq<char>,
    pub plan_marker: Seq<char>,
    pub watchdog_seconds: u64,
    pub plan_timeout_seconds: u64,
    pub plan_ceiling_seconds: u64,
    pub turn_cap: u32,
    pub max_budget_usd_bits: Option<u64>,
    pub env_remove: Seq<Seq<char>>,
    pub structured: bool,
    pub mock_checker: bool,
}

impl DeepView for DrivenConfig {
    type V = DrivenConfigView;

    open spec fn deep_view(&self) -> DrivenConfigView {
        DrivenConfigView {
            program: self.program.deep_view(),
            args: self.args.deep_view(),
            cwd: self.cwd.deep_view(),
            prompt: self.prompt.deep_view(),
            plan_marker: self.plan_marker.deep_view(),
            watchdog_seconds: self.watchdog_seconds,
            plan_timeout_seconds: self.plan_timeout_seconds,
            plan_ceiling_seconds: self.plan_ceiling_seconds,
            turn_cap: self.turn_cap,
            max_budget_usd_bits: self.max_budget_usd_bits,
            env_remove: self.env_remove.deep_view(),
            structured: self.structured,
            mock_checker: self.mock_checker,
        }
    }
}


/// What an implementer is asked.
#[derive(Debug)]
pub struct WorkRequest {
    pub spec: TaskSpec,
    pub worktree: String,
    pub house_rules: String,
    pub model: String,
    /// The task its usage is charged to, where it is routed through the proxy.
    pub task_header: Option<String>,
}

/// What a [`WorkRequest`] says.
#[verifier::ext_equal]
pub struct WorkRequestView {
    pub spec: TaskSpecView,
    pub worktree: Seq<char>,
    pub house_rules: Seq<char>,
    pub model: Seq<char>,
    pub task_header: Option<Seq<char>>,
}

impl DeepView for WorkRequest {
    type V = WorkRequestView;

    open spec fn deep_view(&self) -> WorkRequestView {
        WorkRequestView {
            spec: self.spec.deep_view(),
            worktree: self.worktree.deep_view(),
            house_rules: self.house_rules.deep_view(),
            model: self.model.deep_view(),
            task_header: self.task_header.deep_view(),
        }
    }
}

/// What the mechanical gate checks, and how.
#[derive(Debug)]
pub struct GateRequest {
    pub worktree: String,
    /// The commit that the work is held against.
    pub base: String,
    pub allowlist: Vec<String>,
    /// How many files may change, where the task runs tightened.
    pub max_changed_files: Option<usize>,
    pub commands: Vec<String>,
    /// How each command is contained.
    pub sandbox: SandboxSpec,
}

/// What a [`GateRequest`] says.
#[verifier::ext_equal]
pub struct GateRequestView {
    pub worktree: Seq<char>,
    pub base: Seq<char>,
    pub allowlist: Seq<Seq<char>>,
    pub max_changed_files: Option<usize>,
    pub commands: Seq<Seq<char>>,
    pub sandbox: SandboxSpecView,
}

impl DeepView for GateRequest {
    type V = GateRequestView;

    open spec fn deep_view(&self) -> GateRequestView {
        GateRequestView {
            worktree: self.worktree.deep_view(),
            base: self.base.deep_view(),
            allowlist: self.allowlist.deep_view(),
            max_changed_files: self.max_changed_files,
            commands: self.commands.deep_view(),
            sandbox: self.sandbox.deep_view(),
        }
    }
}

/// Which diff to take: that of these files, against a commit.
#[derive(Debug)]
pub struct DiffRequest {
    pub worktree: String,
    pub base: String,
    pub paths: Vec<String>,
}

/// What a [`DiffRequest`] says.
#[verifier::ext_equal]
pub struct DiffRequestView {
    pub worktree: Seq<char>,
    pub base: Seq<char>,
    pub paths: Seq<Seq<char>>,
}

impl DeepView for DiffRequest {
    type V = DiffRequestView;

    open spec fn deep_view(&self) -> DiffRequestView {
        DiffRequestView {
            worktree: self.worktree.deep_view(),
            base: self.base.deep_view(),
            paths: self.paths.deep_view(),
        }
    }
}

/// Which files to commit, and under which message.
#[derive(Debug)]
pub struct CommitRequest {
    pub worktree: String,
    pub paths: Vec<String>,
    pub message: String,
}

/// What a [`CommitRequest`] says.
#[verifier::ext_equal]
pub struct CommitRequestView {
    pub worktree: Seq<char>,
    pub paths: Seq<Seq<char>>,
    pub message: Seq<char>,
}

impl DeepView for CommitRequest {
    type V = CommitRequestView;

    open spec fn deep_view(&self) -> CommitRequestView {
        CommitRequestView {
            worktree: self.worktree.deep_view(),
            paths: self.paths.deep_view(),
            message: self.message.deep_view(),
        }
    }
}

/// What a verifier is asked.
#[derive(Debug)]
pub struct VerifyRequest {
    pub spec: TaskSpec,
    pub model: String,
    /// The role's own address, for the record.
    pub base_url: Option<String>,
    pub diff: String,
    pub gate_output: String,
    /// The reports of earlier attempts.
    pub prior_reports: Vec<Report>,
    /// The task its usage is metered to, where it is routed through the proxy.
    pub meter_header: Option<String>,
    /// The worktree whose copy its commands run in.
    pub worktree: String,
    /// How its commands are contained.
    pub recipe: ContainmentRecipe,
}

/// What a [`VerifyRequest`] says.
#[verifier::ext_equal]
pub struct VerifyRequestView {
    pub spec: TaskSpecView,
    pub model: Seq<char>,
    pub base_url: Option<Seq<char>>,
    pub diff: Seq<char>,
    pub gate_output: Seq<char>,
    pub prior_reports: Seq<ReportView>,
    pub meter_header: Option<Seq<char>>,
    pub worktree: Seq<char>,
    pub recipe: ContainmentRecipeView,
}

impl DeepView for VerifyRequest {
    type V = VerifyRequestView;

    open spec fn deep_view(&self) -> VerifyRequestView {
        VerifyRequestView {
            spec: self.spec.deep_view(),
            model: self.model.deep_view(),
            base_url: self.base_url.deep_view(),
            diff: self.diff.deep_view(),
            gate_output: self.gate_output.deep_view(),
            prior_reports: self.prior_reports.deep_view(),
            meter_header: self.meter_header.deep_view(),
            worktree: self.worktree.deep_view(),
            recipe: self.recipe.deep_view(),
        }
    }
}


/// A request that needs an answer, or the end of the attempt.
#[allow(inconsistent_fields)]
#[derive(Debug)]
pub enum Next {
    /// Is the task's earlier worktree still usable?
    ProbeReuse {
        repo: String,
        task_id: String,
    },
    /// Cut a fresh worktree at a commit.
    CreateWorktree {
        repo: String,
        base: String,
        task_id: String,
    },
    /// Contain a command as the sandbox specification says.
    Wrap {
        sandbox: SandboxSpec,
        program: String,
        args: Vec<String>,
    },
    /// Read the file of house rules.
    ReadHouseRules {
        path: String,
    },
    /// Run the implementer.
    RunBackend {
        backend: Backend,
        request: WorkRequest,
    },
    /// Start a driven CLI.
    SpawnDriven(DrivenConfig),
    /// Wait for the driven CLI to end.
    JoinDriven,
    /// Take the diff of the worktree as it is, against a commit.
    Snapshot {
        worktree: String,
        base: String,
    },
    /// Run the mechanical gate.
    RunGate(GateRequest),
    /// Take the diff of the attempt's changed files, as context for a retry.
    DiffForRetry(DiffRequest),
    /// Take the diff of the attempt's changed files, for the verifier.
    DiffForVerifier(DiffRequest),
    /// Run the verifier.
    Verify {
        backend: Backend,
        request: VerifyRequest,
    },
    /// Commit the attempt's changed files.
    Commit(CommitRequest),
    /// The attempt is over.
    Settled(AttemptOutcome),
    /// The attempt failed, and the task with it.
    Fail(WorkerFailure),
}

/// What a [`Next`] says.
#[allow(inconsistent_fields)]
#[verifier::ext_equal]
pub enum NextView {
    ProbeReuse { repo: Seq<char>, task_id: Seq<char> },
    CreateWorktree { repo: Seq<char>, base: Seq<char>, task_id: Seq<char> },
    Wrap { sandbox: SandboxSpecView, program: Seq<char>, args: Seq<Seq<char>> },
    ReadHouseRules { path: Seq<char> },
    RunBackend { backend: BackendView, request: WorkRequestView },
    SpawnDriven(DrivenConfigView),
    JoinDriven,
    Snapshot { worktree: Seq<char>, base: Seq<char> },
    RunGate(GateRequestView),
    DiffForRetry(DiffRequestView),
    DiffForVerifier(DiffRequestView),
    Verify { backend: BackendView, request: VerifyRequestView },
    Commit(CommitRequestView),
    Settled(AttemptOutcomeView),
    Fail(WorkerFailureView),
}

impl DeepView for Next {
    type V = NextView;

    open spec fn deep_view(&self) -> NextView {
        match self {
            Next::ProbeReuse { repo, task_id } => NextView::ProbeReuse {
                repo: repo@,
                task_id: task_id@,
            },
            Next::CreateWorktree { repo, base, task_id } => NextView::CreateWorktree {
                repo: repo@,
                base: base@,
                task_id: task_id@,
            },
            Next::Wrap { sandbox, program, args } => NextView::Wrap {
                sandbox: sandbox.deep_view(),
                program: program@,
                args: args.deep_view(),
            },
            Next::ReadHouseRules { path } => NextView::ReadHouseRules { path: path@ },
            Next::RunBackend { backend, request } => NextView::RunBackend {
                backend: backend.deep_view(),
                request: request.deep_view(),
            },
            Next::SpawnDriven(config) => NextView::SpawnDriven(config.deep_view()),
            Next::JoinDriven => NextView::JoinDriven,
            Next::Snapshot { worktree, base } => NextView::Snapshot {
                worktree: worktree@,
                base: base@,
            },
            Next::RunGate(request) => NextView::RunGate(request.deep_view()),
            Next::DiffForRetry(request) => NextView::DiffForRetry(request.deep_view()),
            Next::DiffForVerifier(request) => NextView::DiffForVerifier(request.deep_view()),
            Next::Verify { backend, request } => NextView::Verify {
                backend: backend.deep_view(),
                request: request.deep_view(),
            },
            Next::Commit(request) => NextView::Commit(request.deep_view()),
            Next::Settled(outcome) => NextView::Settled(outcome.deep_view()),
            Next::Fail(failure) => NextView::Fail(failure.deep_view()),
        }
    }
}

/// What to carry out, in order, and what to ask next.
#[derive(Debug)]
pub struct Turn {
    pub effects: Vec<Effect>,
    pub next: Next,
}

/// What a [`Turn`] says.
#[verifier::ext_equal]
pub struct TurnView {
    pub effects: Seq<EffectView>,
    pub next: NextView,
}

impl DeepView for Turn {
    type V = TurnView;

    open spec fn deep_view(&self) -> TurnView {
        TurnView { effects: self.effects.deep_view(), next: self.next.deep_view() }
    }
}

/// A turn that only asks.
pub open spec fn asking(next: NextView) -> TurnView {
    TurnView { effects: Seq::empty(), next }
}

/// A turn that carries out effects and then asks.
pub open spec fn acting(effects: Seq<EffectView>, next: NextView) -> TurnView {
    TurnView { effects, next }
}

/// The end of an attempt in a failure of the machinery.
pub open spec fn failing(kind: Seq<char>, message: Seq<char>) -> NextView {
    NextView::Fail(WorkerFailureView { kind, message })
}

fn ask(next: Next) -> (r: Turn)
    ensures
        r.deep_view() == asking(next.deep_view()),
{
    Turn { effects: effects0(), next }
}

fn failed(kind: &'static str, message: String) -> (r: Next)
    ensures
        r.deep_view() == failing(kind@, message@),
{
    Next::Fail(WorkerFailure { kind, message })
}

// ---------------------------------------------------------------------------
// The job and what the outside answers
// ---------------------------------------------------------------------------

/// What an attempt works on; it does not change while the attempt runs.
#[derive(Debug)]
pub struct Job {
    pub task_id: String,
    pub repo: String,
    /// The commit that the worktree is cut from and that its work is held
    /// against, even where its branch has moved on.
    pub scope_base: String,
    /// The number of the attempt.
    pub attempt: i64,
    pub spec: TaskSpec,
    pub role: ResolvedRole,
    pub profile: ResolvedProfile,
    pub recipe: ContainmentRecipe,
    pub prior_reports: Vec<Report>,
    pub last_failed_diff: Option<String>,
    /// The failing check to fix in place.
    pub check_fix: Option<CheckFailure>,
    /// Where the credential proxy listens, if it runs.
    pub proxy_addr: Option<String>,
    /// The name of the adapter that drives the advisor's own client.
    pub client: String,
    pub turn_cap: u32,
    /// The allowlist's length times the profile's tightening factor, rounded up.
    pub scaled_files: usize,
    pub watchdog_seconds: u64,
    pub plan_ceiling_seconds: u64,
}

/// How an implementer run ended.
#[derive(Debug)]
pub enum BackendReply {
    Done {
        turns: i64,
        tokens_in: i64,
        tokens_out: i64,
    },
    /// The model cannot be reached.
    Unavailable(String),
    /// A budget stopped it.
    Budget(String),
    /// Anything else.
    Other(String),
}

/// How a driven session ended.
#[derive(Debug)]
pub enum EndReason {
    Completed,
    /// Its plan was rejected before any edit.
    PlanRejected {
        reason: String,
    },
    /// It fell silent for too long.
    Wedged,
    /// It used more turns than it had.
    TurnBudgetExceeded,
    Killed(KillKind),
    Failed(String),
}

/// What a driven session left behind.
#[derive(Debug)]
pub struct DrivenResult {
    pub reason: EndReason,
    pub turns: i64,
    pub tokens_in: Option<i64>,
    pub tokens_out: Option<i64>,
}

/// How a verifier run ended.
#[derive(Debug)]
pub enum VerifyReply {
    Done {
        report: Report,
        turns: i64,
        tokens_in: i64,
        tokens_out: i64,
    },
    /// The model cannot be reached.
    Unavailable(String),
    /// It crashed or reported nothing usable.
    Other(String),
}

/// What an attempt waits for.
#[derive(Debug, Clone, Copy, PartialEq, Eq, Structural)]
pub enum AttemptPhase {
    Idle,
    Probing,
    Cutting,
    Wrapping,
    ReadingRules,
    Implementing,
    Spawning,
    Joining,
    Snapping,
    Gating,
    DiffingForRetry,
    DiffingForVerifier,
    Verifying,
    Committing,
    Over,
}

/// An attempt on its way to a verdict.
#[derive(Debug)]
pub struct Attempt {
    pub phase: AttemptPhase,
    /// Where the attempt works.
    pub worktree: String,
    /// The changed files that passed the mechanical gate.
    pub changed: Vec<String>,
    /// The check command that rejected the work.
    pub check_failure: Option<CheckFailure>,
    /// The diff under verification.
    pub diff: String,
    /// How the driven session ended, while its snapshot is taken.
    pub ended: Option<DrivenResult>,
    /// Verifier runs that came to nothing.
    pub verifier_failures: u8,
}

/// What an [`Attempt`] says.
#[verifier::ext_equal]
pub struct AttemptView {
    pub phase: AttemptPhase,
    pub worktree: Seq<char>,
    pub changed: Seq<Seq<char>>,
    pub check_failure: Option<CheckFailureView>,
    pub diff: Seq<char>,
    pub ended: Option<DrivenResult>,
    pub verifier_failures: int,
}

impl DeepView for Attempt {
    type V = AttemptView;

    open spec fn deep_view(&self) -> AttemptView {
        AttemptView {
            phase: self.phase,
            worktree: self.worktree@,
            changed: self.changed.deep_view(),
            check_failure: self.check_failure.deep_view(),
            diff: self.diff@,
            ended: self.ended,
            verifier_failures: self.verifier_failures as int,
        }
    }
}

// ---------------------------------------------------------------------------
// Rules
// ---------------------------------------------------------------------------

impl Job {
    /// Whether the role runs as a driven CLI.
    pub open spec fn driven(self) -> bool {
        self.role.kind.deep_view() == Some("driven_cli"@)
    }

    /// Whether the implementer runs on the mock backend.
    pub open spec fn mock(self) -> bool {
        roles::is_mock(self.role.model@, self.role.kind.deep_view())
    }

    /// Whether the implementer's requests go through the proxy.
    pub open spec fn proxied(self) -> bool {
        self.proxy_addr is Some && !self.mock()
    }

    /// The address the implementer's requests go to: the proxy where it runs
    /// and the backend is not the mock, else the role's own.
    pub open spec fn address(self) -> Option<Seq<char>> {
        if self.proxied() {
            Some("http://"@ + self.proxy_addr->0@)
        } else {
            self.role.base_url.deep_view()
        }
    }

    /// The program of a driven CLI, if one is configured.
    pub open spec fn program(self) -> Option<Seq<char>> {
        match self.role.command {
            Some(c) if !text::blank(c@) => Some(c@),
            _ => None,
        }
    }

    /// The arguments of a driven CLI.
    pub open spec fn program_args(self) -> Seq<Seq<char>> {
        match self.role.args {
            Some(a) => a.deep_view(),
            None => Seq::empty(),
        }
    }

    /// The request that gives the attempt its worktree: the earlier one is
    /// probed only where the attempt fixes a failing check in place.
    pub open spec fn first_request(self) -> (AttemptPhase, NextView) {
        if self.check_fix is Some {
            (
                AttemptPhase::Probing,
                NextView::ProbeReuse { repo: self.repo@, task_id: self.task_id@ },
            )
        } else {
            (AttemptPhase::Cutting, self.cutting())
        }
    }

    /// The request that cuts a fresh worktree at the pinned base.
    pub open spec fn cutting(self) -> NextView {
        NextView::CreateWorktree {
            repo: self.repo@,
            base: self.scope_base@,
            task_id: self.task_id@,
        }
    }

    /// What an attempt starts with.
    pub open spec fn opening(self) -> (AttemptPhase, NextView) {
        let over = AttemptPhase::Over;
        if self.driven() {
            match self.program() {
                None => (
                    over,
                    failing(
                        "internal_error"@,
                        "driven_cli role has no `command` configured"@,
                    ),
                ),
                Some(_) => self.first_request(),
            }
        } else {
            match roles::backend_for(
                self.role.model@,
                self.role.kind.deep_view(),
                self.address(),
            ) {
                Err(m) => (over, failing("model_unavailable"@, m)),
                Ok(_) => self.first_request(),
            }
        }
    }

    /// The file of house rules to read, if the task names one; it is looked for in
    /// the repository.
    pub open spec fn rules_path(self) -> Option<Seq<char>> {
        match self.spec.house_rules_ref {
            Some(p) if !text::blank(p@) => Some(text::path_joined(self.repo@, p@)),
            _ => None,
        }
    }

    /// The request that runs the implementer in a worktree, under the repository's
    /// own house rules.
    pub open spec fn implementation(self, worktree: Seq<char>, own_rules: Seq<char>) -> NextView {
        NextView::RunBackend {
            backend: roles::backend_for(
                self.role.model@,
                self.role.kind.deep_view(),
                self.address(),
            )->Ok_0,
            request: WorkRequestView {
                spec: self.spec.deep_view(),
                worktree,
                house_rules: prompt::house_rules(
                    own_rules,
                    self.check_fix.deep_view(),
                    self.prior_reports.deep_view(),
                    self.last_failed_diff.deep_view(),
                ),
                model: self.role.model@,
                task_header: if self.proxied() {
                    Some(self.task_id@)
                } else {
                    None
                },
            },
        }
    }

    /// The session of the implementer, in its worktree.
    pub open spec fn session(self, kind: SessionKind, worktree: Seq<char>) -> EffectView {
        EffectView::OpenSession {
            role: SessionRole::Implementer,
            model: self.role.model@,
            kind,
            workspace: Some(worktree),
        }
    }

    /// Everything a driven CLI is started with, once contained.
    pub open spec fn driven_config(
        self,
        worktree: Seq<char>,
        program: Seq<char>,
        args: Seq<Seq<char>>,
    ) -> DrivenConfigView {
        DrivenConfigView {
            program,
            args,
            cwd: worktree,
            prompt: prompt::attempt_words(
                self.check_fix.deep_view(),
                self.spec.title@,
                self.spec.instructions@,
                self.spec.file_allowlist.deep_view(),
            ),
            plan_marker: "PLAN:"@,
            watchdog_seconds: self.watchdog_seconds,
            plan_timeout_seconds: self.watchdog_seconds,
            plan_ceiling_seconds: self.plan_ceiling_seconds,
            turn_cap: self.turn_cap,
            max_budget_usd_bits: self.role.max_budget_usd_bits,
            env_remove: prompt::stripped_keys(self.role.max_budget_usd_bits is Some),
            structured: self.role.adapter.deep_view() == Some(self.client@),
            mock_checker: self.role.model@ == "mock"@,
        }
    }

    /// The request that opens the tail: the mechanical gate, under the task's
    /// containment.
    pub open spec fn gate_request(self, worktree: Seq<char>) -> NextView {
        NextView::RunGate(
            GateRequestView {
                worktree,
                base: self.scope_base@,
                allowlist: self.spec.file_allowlist.deep_view(),
                max_changed_files: containment::file_cap(
                    containment::tightened(
                        self.recipe.downgraded,
                        self.profile.codex_tighten,
                        self.role.kind.deep_view(),
                    ),
                    self.spec.file_allowlist@.len(),
                    self.scaled_files,
                ),
                commands: self.spec.check_commands.deep_view(),
                sandbox: self.recipe.deep_view().in_workspace(worktree),
            },
        )
    }

    /// The diff of files of the worktree, against the pinned base.
    pub open spec fn diff_of(self, worktree: Seq<char>, paths: Seq<Seq<char>>) -> DiffRequestView {
        DiffRequestView { worktree, base: self.scope_base@, paths }
    }

    /// The verifier of the attempt, if any model can be one.
    pub open spec fn judge(self) -> Option<ResolvedRoleView> {
        roles::verifier_for(self.profile.roles.deep_view(), self.role.model@)
    }

    /// The request that runs the verifier on a diff. Through the proxy its
    /// usage is metered to the task, but it is never stopped.
    pub open spec fn verification(
        self,
        v: ResolvedRoleView,
        worktree: Seq<char>,
        diff: Seq<char>,
    ) -> NextView {
        let mock = roles::is_mock(v.model, v.kind);
        let proxied = self.proxy_addr is Some && !mock;
        NextView::Verify {
            backend: if mock {
                BackendView::Mock
            } else {
                BackendView::Anthropic {
                    base_url: if proxied {
                        Some("http://"@ + self.proxy_addr->0@)
                    } else {
                        v.base_url
                    },
                }
            },
            request: VerifyRequestView {
                spec: self.spec.deep_view(),
                model: v.model,
                base_url: v.base_url,
                diff,
                gate_output: "mechanical gate: allowlist ok; check commands ok"@,
                prior_reports: self.prior_reports.deep_view(),
                meter_header: if proxied {
                    Some(self.task_id@)
                } else {
                    None
                },
                worktree,
                recipe: self.recipe.deep_view(),
            },
        }
    }

    /// The effects that begin a verifier run.
    pub open spec fn verify_opening(self, v: ResolvedRoleView) -> Seq<EffectView> {
        seq![
            plain_event(EventKind::VerifyStarted),
            EffectView::OpenSession {
                role: SessionRole::Verifier,
                model: v.model,
                kind: SessionKind::OneShotApi,
                workspace: None,
            },
        ]
    }
}

/// Whether the end of a driven session calls for a snapshot of its work.
pub open spec fn wants_snapshot(reason: EndReason) -> bool {
    reason is Wedged || reason is TurnBudgetExceeded || reason is Killed
}

/// How a driven session is recorded as ended.
pub open spec fn exit_of(reason: EndReason) -> ExitStatus {
    match reason {
        EndReason::Completed => ExitStatus::Finished,
        EndReason::Wedged => ExitStatus::Wedged,
        EndReason::Killed(_) => ExitStatus::Killed,
        _ => ExitStatus::Error,
    }
}

/// The kind of failure that a kill is recorded as.
pub open spec fn kill_failure(kind: KillKind) -> Seq<char> {
    match kind {
        KillKind::Human => "interrupted_human"@,
        KillKind::Advisor => "interrupted_advisor"@,
    }
}

/// The message of a session that used more turns than it had.
pub open spec fn turn_cap_words(cap: u32) -> Seq<char> {
    "driven CLI exceeded its per-attempt turn cap of "@ + text::decimal(cap as nat)
        + " and was hard-stopped"@
}

/// The fields of the terminal event of a driven session that did not complete,
/// with what it left in the worktree.
pub open spec fn driven_failure(reason: EndReason, cap: u32, diff: Seq<char>) -> Map<
    Seq<char>,
    Json,
> {
    let partial = Json::Text(prompt::capped(diff));
    match reason {
        EndReason::PlanRejected { reason } => payload::failure(
            "plan_rejected"@,
            "driven CLI plan-echo rejected the plan before any edits"@,
        ).insert("reason"@, Json::Text(reason@)),
        EndReason::Wedged => payload::failure(
            "session_wedged"@,
            "driven CLI produced no output past the watchdog timeout"@,
        ).insert("partial_diff"@, partial),
        EndReason::TurnBudgetExceeded => payload::failure(
            "turn_budget_exceeded"@,
            turn_cap_words(cap),
        ).insert("reason"@, Json::Text("turn_budget_exceeded"@)).insert(
            "cap"@,
            Json::Int(cap as int),
        ).insert("partial_diff"@, partial),
        EndReason::Killed(kind) => payload::failure(
            kill_failure(kind),
            "driven CLI session killed"@,
        ).insert("partial_diff"@, partial),
        EndReason::Failed(m) => payload::failure("internal_error"@, m@),
        EndReason::Completed => payload::failure("internal_error"@, Seq::empty()),
    }
}

/// The fields of the event that records a kill.
pub open spec fn interruption(kind: KillKind, diff: Seq<char>) -> Map<Seq<char>, Json> {
    map![
        "reason"@ => Json::Text("kill"@),
        "kill_kind"@ => Json::Text(kind.text()),
        "partial_diff"@ => Json::Text(prompt::capped(diff)),
    ]
}

/// The effects of the end of a driven session that did not complete: the
/// session is finished, a kill is recorded as such, the task fails once, and the
/// worktree goes.
pub open spec fn driven_end(ended: DrivenResult, cap: u32, diff: Seq<char>) -> Seq<EffectView> {
    let finish = EffectView::FinishSession {
        exit: exit_of(ended.reason),
        turns: Some(ended.turns),
        tokens_in: ended.tokens_in,
        tokens_out: ended.tokens_out,
    };
    let failed = event(EventKind::Failed, driven_failure(ended.reason, cap, diff));
    match ended.reason {
        EndReason::Killed(kind) => seq![
            finish,
            event(EventKind::Interrupted, interruption(kind, diff)),
            failed,
            EffectView::RemoveWorktree,
        ],
        _ => seq![finish, failed, EffectView::RemoveWorktree],
    }
}

/// The fields of the terminal event of work outside the allowlist.
pub open spec fn scope_failure(offending: Seq<Seq<char>>) -> Map<Seq<char>, Json> {
    payload::failure(
        "scope_violation"@,
        "changed paths fell outside the file allowlist"@,
    ).insert("offending_paths"@, json::text_list(offending))
}

/// The message of work that touched too many files of a tightened task.
pub open spec fn tightened_words(changed: nat, cap: nat) -> Seq<char> {
    "changed "@ + text::decimal(changed) + " files, exceeding the tightened allowlist cap of "@
        + text::decimal(cap) + " (containment downgrade / codex_tighten)"@
}

/// The fields of the terminal event of work that touched too many files of a
/// tightened task.
pub open spec fn tightened_failure(changed: nat, cap: nat, files: Seq<Seq<char>>) -> Map<
    Seq<char>,
    Json,
> {
    payload::failure("scope_violation"@, tightened_words(changed, cap)).insert(
        "reason"@,
        Json::Text("tightened_allowlist"@),
    ).insert("changed"@, Json::Int(changed as int)).insert("cap"@, Json::Int(cap as int)).insert(
        "offending_paths"@,
        json::text_list(files),
    )
}

/// The fields of the event that records a failing check command.
pub open spec fn check_fields(f: CheckFailureView) -> Map<Seq<char>, Json> {
    map!["command"@ => Json::Text(f.command), "output_digest"@ => Json::Text(f.output_digest)]
}

impl AttemptView {
    /// An attempt that has not begun.
    pub open spec fn idle() -> AttemptView {
        AttemptView {
            phase: AttemptPhase::Idle,
            worktree: Seq::empty(),
            changed: Seq::empty(),
            check_failure: None,
            diff: Seq::empty(),
            ended: None,
            verifier_failures: 0,
        }
    }

    /// What holds of every attempt at all times.
    pub open spec fn wf(self, job: Job) -> bool {
        &&& !(self.phase is Idle || self.phase is Over) ==> !(job.opening().1 is Fail)
        &&& self.phase is Probing ==> job.check_fix is Some
        &&& (self.phase is Wrapping || self.phase is Spawning || self.phase is Joining
            || self.phase is Snapping) ==> job.driven()
        &&& (self.phase is ReadingRules || self.phase is Implementing) ==> !job.driven()
        &&& self.phase is ReadingRules ==> job.rules_path() is Some
        &&& self.phase is Snapping ==> (self.ended matches Some(end) && wants_snapshot(end.reason))
        &&& self.phase is DiffingForRetry ==> self.check_failure is Some
        &&& self.phase is Verifying ==> job.judge() is Some
        &&& 0 <= self.verifier_failures <= 1
    }

    /// The same attempt in another phase.
    pub open spec fn to(self, phase: AttemptPhase) -> AttemptView {
        AttemptView { phase, ..self }
    }

    /// The attempt begins.
    pub open spec fn begun(self, job: Job) -> (AttemptView, TurnView) {
        let (phase, next) = job.opening();
        (self.to(phase), asking(next))
    }

    /// The earlier worktree can be used, or not.
    pub open spec fn after_probe(self, job: Job, path: Seq<char>, usable: bool) -> (
        AttemptView,
        TurnView,
    ) {
        if usable {
            self.after_worktree(job, Ok(path))
        } else {
            (self.to(AttemptPhase::Cutting), asking(job.cutting()))
        }
    }

    /// The attempt has its worktree, or none could be cut.
    pub open spec fn after_worktree(self, job: Job, made: Result<Seq<char>, Seq<char>>) -> (
        AttemptView,
        TurnView,
    ) {
        match made {
            Err(e) => (
                self.to(AttemptPhase::Over),
                asking(failing("internal_error"@, "worktree create: "@ + e)),
            ),
            Ok(path) => {
                let here = AttemptView { worktree: path, ..self };
                if job.driven() {
                    (
                        here.to(AttemptPhase::Wrapping),
                        asking(
                            NextView::Wrap {
                                sandbox: job.recipe.deep_view().in_workspace(path),
                                program: job.program()->0,
                                args: job.program_args(),
                            },
                        ),
                    )
                } else {
                    let opened = seq![
                        plain_event(EventKind::Spawned),
                        job.session(SessionKind::OneShotApi, path),
                    ];
                    match job.rules_path() {
                        Some(p) => (
                            here.to(AttemptPhase::ReadingRules),
                            acting(opened, NextView::ReadHouseRules { path: p }),
                        ),
                        None => (
                            here.to(AttemptPhase::Implementing),
                            acting(
                                opened.push(plain_event(EventKind::Iterating)),
                                job.implementation(path, Seq::empty()),
                            ),
                        ),
                    }
                }
            },
        }
    }

    /// The house rules have been read, or could not be.
    pub open spec fn after_rules(self, job: Job, read: Result<Seq<char>, Seq<char>>) -> (
        AttemptView,
        TurnView,
    ) {
        match read {
            Err(e) => (
                self.to(AttemptPhase::Over),
                asking(
                    failing(
                        "internal_error"@,
                        "reading house_rules_ref "@ + job.rules_path()->0 + ": "@ + e,
                    ),
                ),
            ),
            Ok(rules) => (
                self.to(AttemptPhase::Implementing),
                acting(
                    seq![plain_event(EventKind::Iterating)],
                    job.implementation(self.worktree, rules),
                ),
            ),
        }
    }

    /// The implementer has run. Its work is gated next; a failure ends the
    /// task and takes the worktree with it.
    pub open spec fn after_backend(self, job: Job, reply: BackendReply) -> (
        AttemptView,
        TurnView,
    ) {
        let cleanup = seq![unmetered(ExitStatus::Error), EffectView::RemoveWorktree];
        match reply {
            BackendReply::Done { turns, tokens_in, tokens_out } => (
                self.to(AttemptPhase::Gating),
                acting(
                    seq![
                        EffectView::FinishSession {
                            exit: ExitStatus::Finished,
                            turns: Some(turns),
                            tokens_in: Some(tokens_in),
                            tokens_out: Some(tokens_out),
                        },
                        plain_event(EventKind::ImplFinished),
                        plain_event(EventKind::ChecksStarted),
                    ],
                    job.gate_request(self.worktree),
                ),
            ),
            BackendReply::Unavailable(m) => (
                self.to(AttemptPhase::Over),
                acting(cleanup, failing("model_unavailable"@, m@)),
            ),
            BackendReply::Budget(m) => (
                self.to(AttemptPhase::Over),
                acting(cleanup, failing("budget_exhausted"@, m@)),
            ),
            BackendReply::Other(m) => (
                self.to(AttemptPhase::Over),
                acting(cleanup, failing("internal_error"@, m@)),
            ),
        }
    }

    /// The driven CLI has been contained, or could not be.
    pub open spec fn after_wrap(
        self,
        job: Job,
        wrapped: Result<(Seq<char>, Seq<Seq<char>>), Seq<char>>,
    ) -> (AttemptView, TurnView) {
        match wrapped {
            Err(e) => (
                self.to(AttemptPhase::Over),
                asking(failing("internal_error"@, "sandbox wrap (driven): "@ + e)),
            ),
            Ok((program, args)) => (
                self.to(AttemptPhase::Spawning),
                acting(
                    seq![
                        plain_event(EventKind::Spawned),
                        job.session(SessionKind::DrivenPty, self.worktree),
                        plain_event(EventKind::Iterating),
                    ],
                    NextView::SpawnDriven(job.driven_config(self.worktree, program, args)),
                ),
            ),
        }
    }

    /// The driven CLI has started, or did not.
    pub open spec fn after_spawn(self, error: Option<Seq<char>>) -> (AttemptView, TurnView) {
        match error {
            Some(e) => (
                self.to(AttemptPhase::Over),
                acting(
                    seq![unmetered(ExitStatus::Error), EffectView::RemoveWorktree],
                    failing("internal_error"@, "driven spawn: "@ + e),
                ),
            ),
            None => (self.to(AttemptPhase::Joining), asking(NextView::JoinDriven)),
        }
    }

    /// The driven CLI has ended; nothing is known of it where its thread
    /// panicked.
    pub open spec fn after_join(self, job: Job, ended: Option<DrivenResult>) -> (
        AttemptView,
        TurnView,
    ) {
        match ended {
            None => (
                self.to(AttemptPhase::Over),
                acting(
                    seq![unmetered(ExitStatus::Error), EffectView::RemoveWorktree],
                    failing("internal_error"@, "driven session thread panicked"@),
                ),
            ),
            Some(end) => if end.reason is Completed {
                (
                    self.to(AttemptPhase::Gating),
                    acting(
                        seq![
                            EffectView::FinishSession {
                                exit: ExitStatus::Finished,
                                turns: Some(end.turns),
                                tokens_in: end.tokens_in,
                                tokens_out: end.tokens_out,
                            },
                            plain_event(EventKind::ImplFinished),
                            plain_event(EventKind::ChecksStarted),
                        ],
                        job.gate_request(self.worktree),
                    ),
                )
            } else if wants_snapshot(end.reason) {
                (
                    AttemptView { phase: AttemptPhase::Snapping, ended: Some(end), ..self },
                    asking(
                        NextView::Snapshot { worktree: self.worktree, base: job.scope_base@ },
                    ),
                )
            } else {
                (
                    self.to(AttemptPhase::Over),
                    acting(
                        driven_end(end, job.turn_cap, Seq::empty()),
                        NextView::Settled(AttemptOutcomeView::ScopeViolation),
                    ),
                )
            },
        }
    }

    /// What a stopped driven session left in the worktree.
    pub open spec fn after_snapshot(self, job: Job, diff: Seq<char>) -> (AttemptView, TurnView) {
        (
            AttemptView { phase: AttemptPhase::Over, ended: None, ..self },
            acting(
                driven_end(self.ended->0, job.turn_cap, diff),
                NextView::Settled(AttemptOutcomeView::ScopeViolation),
            ),
        )
    }

    /// What the mechanical gate found.
    pub open spec fn after_gate(self, job: Job, ran: Result<GateOutcomeView, Seq<char>>) -> (
        AttemptView,
        TurnView,
    ) {
        let out = NextView::Settled(AttemptOutcomeView::ScopeViolation);
        match ran {
            Err(e) => (
                self.to(AttemptPhase::Over),
                asking(failing("internal_error"@, "gate: "@ + e)),
            ),
            Ok(GateOutcomeView::ScopeViolation { offending }) => (
                self.to(AttemptPhase::Over),
                acting(seq![event(EventKind::Failed, scope_failure(offending))], out),
            ),
            Ok(GateOutcomeView::TightenedScopeExceeded { changed, cap, files }) => (
                self.to(AttemptPhase::Over),
                acting(
                    seq![event(EventKind::Failed, tightened_failure(changed, cap, files))],
                    out,
                ),
            ),
            Ok(GateOutcomeView::ChecksFailed { command, output_digest, changed }) => {
                let f = CheckFailureView { command, output_digest };
                (
                    AttemptView {
                        phase: AttemptPhase::DiffingForRetry,
                        changed,
                        check_failure: Some(f),
                        ..self
                    },
                    acting(
                        seq![
                            event(EventKind::ChecksFailed, check_fields(f)),
                            EffectView::Checkpoint(
                                CommitRequestView {
                                    worktree: self.worktree,
                                    paths: changed,
                                    message: "maestro: fix-in-place checkpoint — "@
                                        + job.spec.title@,
                                },
                            ),
                        ],
                        NextView::DiffForRetry(job.diff_of(self.worktree, changed)),
                    ),
                )
            },
            Ok(GateOutcomeView::Passed { changed }) => (
                AttemptView { phase: AttemptPhase::DiffingForVerifier, changed, ..self },
                acting(
                    seq![plain_event(EventKind::ChecksPassed)],
                    NextView::DiffForVerifier(job.diff_of(self.worktree, changed)),
                ),
            ),
        }
    }

    /// The diff that a retry gets as context; empty where none could be taken.
    pub open spec fn after_retry_diff(self, diff: Option<Seq<char>>) -> (AttemptView, TurnView) {
        (
            AttemptView { phase: AttemptPhase::Over, check_failure: None, ..self },
            asking(
                NextView::Settled(
                    AttemptOutcomeView::VerificationFailed(
                        FailedAttemptView {
                            diff: match diff {
                                Some(d) => d,
                                None => Seq::empty(),
                            },
                            report: None,
                            check_failure: self.check_failure,
                        },
                    ),
                ),
            ),
        )
    }

    /// The diff that the verifier judges. Without a verifier the task fails:
    /// verification is never skipped.
    pub open spec fn after_verifier_diff(self, job: Job, diff: Result<Seq<char>, Seq<char>>) -> (
        AttemptView,
        TurnView,
    ) {
        match diff {
            Err(e) => (
                self.to(AttemptPhase::Over),
                asking(failing("internal_error"@, "diff for verifier: "@ + e)),
            ),
            Ok(d) => match job.judge() {
                None => (
                    self.to(AttemptPhase::Over),
                    asking(
                        failing(
                            "model_unavailable"@,
                            "no eligible verifier model configured (verification never skipped, ADR-002)"@,
                        ),
                    ),
                ),
                Some(v) => (
                    AttemptView { phase: AttemptPhase::Verifying, diff: d, ..self },
                    acting(job.verify_opening(v), job.verification(v, self.worktree, d)),
                ),
            },
        }
    }

    /// The verifier's answer. A verdict decides; a model that cannot be reached
    /// ends the task; a crash is tried once more.
    pub open spec fn after_verify(self, job: Job, reply: VerifyReply) -> (AttemptView, TurnView) {
        let v = job.judge()->0;
        match reply {
            VerifyReply::Done { report, turns, tokens_in, tokens_out } => {
                let recorded = seq![
                    EffectView::SaveReport {
                        independence: roles::independence(job.role.model@, v.model),
                        attempt: job.attempt,
                        body: report.body@,
                    },
                    EffectView::FinishSession {
                        exit: ExitStatus::Finished,
                        turns: Some(turns),
                        tokens_in: Some(tokens_in),
                        tokens_out: Some(tokens_out),
                    },
                ];
                match report.verdict {
                    Verdict::Pass => (
                        self.to(AttemptPhase::Committing),
                        acting(
                            recorded,
                            NextView::Commit(
                                CommitRequestView {
                                    worktree: self.worktree,
                                    paths: self.changed,
                                    message: "maestro: "@ + job.spec.title@,
                                },
                            ),
                        ),
                    ),
                    Verdict::Fail => (
                        AttemptView { phase: AttemptPhase::Over, diff: Seq::empty(), ..self },
                        acting(
                            recorded.push(plain_event(EventKind::VerifyFailed)),
                            NextView::Settled(
                                AttemptOutcomeView::VerificationFailed(
                                    FailedAttemptView {
                                        diff: self.diff,
                                        report: Some(report.deep_view()),
                                        check_failure: None,
                                    },
                                ),
                            ),
                        ),
                    ),
                }
            },
            VerifyReply::Unavailable(m) => (
                self.to(AttemptPhase::Over),
                acting(
                    seq![unmetered(ExitStatus::Error)],
                    failing("model_unavailable"@, m@),
                ),
            ),
            VerifyReply::Other(m) => if self.verifier_failures == 0 {
                (
                    AttemptView { verifier_failures: 1, ..self },
                    acting(
                        seq![unmetered(ExitStatus::Error)] + job.verify_opening(v),
                        job.verification(v, self.worktree, self.diff),
                    ),
                )
            } else {
                (
                    self.to(AttemptPhase::Over),
                    acting(
                        seq![unmetered(ExitStatus::Error)],
                        failing("internal_error"@, "verifier failed twice: "@ + m@),
                    ),
                )
            },
        }
    }

    /// The verified work has been committed, or could not be.
    pub open spec fn after_commit(self, error: Option<Seq<char>>) -> (AttemptView, TurnView) {
        match error {
            Some(e) => (
                self.to(AttemptPhase::Over),
                asking(failing("internal_error"@, "commit: "@ + e)),
            ),
            None => (
                self.to(AttemptPhase::Over),
                acting(
                    seq![plain_event(EventKind::VerifyPassed)],
                    NextView::Settled(AttemptOutcomeView::Passed),
                ),
            ),
        }
    }
}

// ---------------------------------------------------------------------------
// Steps
// ---------------------------------------------------------------------------

/// What the words or the error of an outside step say.
pub open spec fn words(r: Result<String, String>) -> Result<Seq<char>, Seq<char>> {
    match r {
        Ok(s) => Ok(s@),
        Err(e) => Err(e@),
    }
}

/// What a contained command, or the failure to contain it, says.
pub open spec fn wrapped_words(r: Result<(String, Vec<String>), String>) -> Result<
    (Seq<char>, Seq<Seq<char>>),
    Seq<char>,
> {
    match r {
        Ok((program, args)) => Ok((program@, args.deep_view())),
        Err(e) => Err(e@),
    }
}

/// What a finding of the mechanical gate says.
pub open spec fn gate_words(r: Result<GateOutcome, String>) -> Result<GateOutcomeView, Seq<char>> {
    match r {
        Ok(o) => Ok(o.deep_view()),
        Err(e) => Err(e@),
    }
}

impl Job {
    fn is_driven(&self) -> (r: bool)
        ensures
            r == self.driven(),
    {
        opt_is(&self.role.kind, "driven_cli")
    }

    fn is_proxied(&self) -> (r: bool)
        ensures
            r == self.proxied(),
    {
        self.proxy_addr.is_some() && !verifier_role_is_mock(&self.role)
    }

    fn base_url(&self) -> (r: Option<String>)
        ensures
            r.deep_view() == self.address(),
    {
        let proxied = self.is_proxied();
        match &self.proxy_addr {
            Some(addr) => if proxied {
                Some(cat2("http://", addr))
            } else {
                self.role.base_url.clone()
            },
            None => self.role.base_url.clone(),
        }
    }

    fn driven_program(&self) -> (r: Option<String>)
        ensures
            r.deep_view() == self.program(),
    {
        match &self.role.command {
            Some(c) => if is_blank(c) {
                None
            } else {
                Some(c.clone())
            },
            None => None,
        }
    }

    fn driven_args(&self) -> (r: Vec<String>)
        ensures
            r.deep_view() == self.program_args(),
    {
        match &self.role.args {
            Some(a) => a.clone(),
            None => {
                let none: Vec<String> = Vec::new();
                assert(none.deep_view() =~= Seq::<Seq<char>>::empty());
                none
            },
        }
    }

    fn kind(&self) -> (r: Option<&str>)
        ensures
            r.deep_view() == self.role.kind.deep_view(),
    {
        match &self.role.kind {
            Some(k) => Some(k.as_str()),
            None => None,
        }
    }

    fn rules_file(&self) -> (r: Option<String>)
        ensures
            r.deep_view() == self.rules_path(),
    {
        match &self.spec.house_rules_ref {
            Some(p) => if is_blank(p) {
                None
            } else {
                Some(text::path_join(&self.repo, p))
            },
            None => None,
        }
    }

    fn cut(&self) -> (r: Next)
        ensures
            r.deep_view() == self.cutting(),
    {
        Next::CreateWorktree {
            repo: self.repo.clone(),
            base: self.scope_base.clone(),
            task_id: self.task_id.clone(),
        }
    }

    fn diff_request(&self, worktree: &str, paths: &Vec<String>) -> (r: DiffRequest)
        ensures
            r.deep_view() == self.diff_of(worktree@, paths.deep_view()),
    {
        DiffRequest {
            worktree: worktree.to_owned(),
            base: self.scope_base.clone(),
            paths: paths.clone(),
        }
    }

    fn run_backend(&self, worktree: &str, own_rules: &str) -> (r: Next)
        requires
            roles::backend_for(
                self.role.model@,
                self.role.kind.deep_view(),
                self.address(),
            ) is Ok,
        ensures
            r.deep_view() == self.implementation(worktree@, own_rules@),
    {
        let backend = match select_backend(&self.role.model, self.kind(), self.base_url()) {
            Ok(b) => b,
            Err(_) => Backend::Mock,
        };
        let fix = self.check_fix.as_ref();
        let diff = match &self.last_failed_diff {
            Some(d) => Some(d.as_str()),
            None => None,
        };
        let house_rules = compose_house_rules(own_rules, fix, &self.prior_reports, diff);
        let task_header = if self.is_proxied() {
            Some(self.task_id.clone())
        } else {
            None
        };
        let request = WorkRequest {
            spec: self.spec.clone(),
            worktree: worktree.to_owned(),
            house_rules,
            model: self.role.model.clone(),
            task_header,
        };
        Next::RunBackend { backend, request }
    }

    fn open_session(&self, kind: SessionKind, worktree: &str) -> (r: Effect)
        ensures
            r.deep_view() == self.session(kind, worktree@),
    {
        Effect::OpenSession {
            role: SessionRole::Implementer,
            model: self.role.model.clone(),
            kind,
            workspace: Some(worktree.to_owned()),
        }
    }

    fn run_gate(&self, worktree: &str) -> (r: Next)
        ensures
            r.deep_view() == self.gate_request(worktree@),
    {
        let max_changed_files = tighten_file_cap(
            &self.profile,
            &self.recipe,
            &self.role,
            &self.spec,
            self.scaled_files,
        );
        Next::RunGate(
            GateRequest {
                worktree: worktree.to_owned(),
                base: self.scope_base.clone(),
                allowlist: self.spec.file_allowlist.clone(),
                max_changed_files,
                commands: self.spec.check_commands.clone(),
                sandbox: self.recipe.spec_for(worktree),
            },
        )
    }

    fn run_verifier(&self, role: &ResolvedRole, worktree: &str, diff: &str) -> (r: Next)
        ensures
            r.deep_view() == self.verification(role.deep_view(), worktree@, diff@),
    {
        let mock = verifier_role_is_mock(role);
        let (address, meter_header) = match &self.proxy_addr {
            Some(addr) => if !mock {
                (Some(cat2("http://", addr)), Some(self.task_id.clone()))
            } else {
                (role.base_url.clone(), None)
            },
            None => (role.base_url.clone(), None),
        };
        Next::Verify {
            backend: select_verifier_backend(role, address),
            request: VerifyRequest {
                spec: self.spec.clone(),
                model: role.model.clone(),
                base_url: role.base_url.clone(),
                diff: diff.to_owned(),
                gate_output: "mechanical gate: allowlist ok; check commands ok".to_owned(),
                prior_reports: self.prior_reports.clone(),
                meter_header,
                worktree: worktree.to_owned(),
                recipe: self.recipe.clone(),
            },
        }
    }

    fn open_verifier(&self, role: &ResolvedRole) -> (r: Effect)
        ensures
            r.deep_view() == self.verify_opening(role.deep_view())[1],
    {
        Effect::OpenSession {
            role: SessionRole::Verifier,
            model: role.model.clone(),
            kind: SessionKind::OneShotApi,
            workspace: None,
        }
    }

    fn driven_setup(&self, worktree: &str, program: String, args: Vec<String>) -> (r: DrivenConfig)
        ensures
            r.deep_view() == self.driven_config(worktree@, program@, args.deep_view()),
    {
        DrivenConfig {
            program,
            args,
            cwd: worktree.to_owned(),
            prompt: attempt_prompt(self.check_fix.as_ref(), &self.spec),
            plan_marker: "PLAN:".to_owned(),
            watchdog_seconds: self.watchdog_seconds,
            plan_timeout_seconds: self.watchdog_seconds,
            plan_ceiling_seconds: self.plan_ceiling_seconds,
            turn_cap: self.turn_cap,
            max_budget_usd_bits: self.role.max_budget_usd_bits,
            env_remove: driven_env_remove(self.role.max_budget_usd_bits),
            structured: opt_is(&self.role.adapter, &self.client),
            mock_checker: same(&self.role.model, "mock"),
        }
    }
}

/// The name of the file that a driven attempt's terminal output is logged to.
pub fn driven_log_name(task_id: &str, attempt: i64) -> (r: String)
    ensures
        r@ == task_id@ + "-"@ + text::decimal_int(attempt as int) + ".log"@,
{
    text::cat4(task_id, "-", &text::i64_text(attempt), ".log")
}

fn driven_payload(reason: &EndReason, cap: u32, diff: &str) -> (r: String)
    requires
        !(reason is Completed),
    ensures
        r@ == json::compact_text(driven_failure(*reason, cap, diff@)),
{
    match reason {
        EndReason::PlanRejected { reason } => {
            let mut m = failure_object(
                "plan_rejected",
                "driven CLI plan-echo rejected the plan before any edits",
            );
            put_text(&mut m, "reason", reason);
            compact(m)
        },
        EndReason::Wedged => {
            let mut m = failure_object(
                "session_wedged",
                "driven CLI produced no output past the watchdog timeout",
            );
            put_text(&mut m, "partial_diff", &cap_diff(diff));
            compact(m)
        },
        EndReason::TurnBudgetExceeded => {
            let message = cat3(
                "driven CLI exceeded its per-attempt turn cap of ",
                &u64_text(cap as u64),
                " and was hard-stopped",
            );
            let mut m = failure_object("turn_budget_exceeded", &message);
            put_text(&mut m, "reason", "turn_budget_exceeded");
            put_int(&mut m, "cap", cap as i64);
            put_text(&mut m, "partial_diff", &cap_diff(diff));
            compact(m)
        },
        EndReason::Killed(kind) => {
            let kind = match kind {
                KillKind::Human => "interrupted_human",
                KillKind::Advisor => "interrupted_advisor",
            };
            let mut m = failure_object(kind, "driven CLI session killed");
            put_text(&mut m, "partial_diff", &cap_diff(diff));
            compact(m)
        },
        EndReason::Failed(m) => failure_payload("internal_error", m),
        EndReason::Completed => failure_payload("internal_error", ""),
    }
}

fn interruption_payload(kind: KillKind, diff: &str) -> (r: String)
    ensures
        r@ == json::compact_text(interruption(kind, diff@)),
{
    let mut m = object();
    put_text(&mut m, "reason", "kill");
    put_text(&mut m, "kill_kind", kind.label());
    put_text(&mut m, "partial_diff", &cap_diff(diff));
    assert(json::fields(m) =~= interruption(kind, diff@));
    compact(m)
}

fn end_driven(ended: &DrivenResult, cap: u32, diff: &str) -> (r: Vec<Effect>)
    requires
        !(ended.reason is Completed),
    ensures
        r.deep_view() == driven_end(*ended, cap, diff@),
{
    let exit = match &ended.reason {
        EndReason::Completed => ExitStatus::Finished,
        EndReason::Wedged => ExitStatus::Wedged,
        EndReason::Killed(_) => ExitStatus::Killed,
        _ => ExitStatus::Error,
    };
    let finish = Effect::FinishSession {
        exit,
        turns: Some(ended.turns),
        tokens_in: ended.tokens_in,
        tokens_out: ended.tokens_out,
    };
    let failed = emit_with(EventKind::Failed, driven_payload(&ended.reason, cap, diff));
    match &ended.reason {
        EndReason::Killed(kind) => {
            let interrupted = emit_with(EventKind::Interrupted, interruption_payload(*kind, diff));
            let mut v = effects3(finish, interrupted, failed);
            let ghost before = v.deep_view();
            v.push(Effect::RemoveWorktree);
            assert(v.deep_view() =~= before.push(EffectView::RemoveWorktree));
            assert(v.deep_view() =~= driven_end(*ended, cap, diff@));
            v
        },
        _ => effects3(finish, failed, Effect::RemoveWorktree),
    }
}

impl Attempt {
    /// An attempt that has not begun.
    pub fn new() -> (r: Self)
        ensures
            r.deep_view() == AttemptView::idle(),
            forall|job: Job| #[trigger] r.deep_view().wf(job),
    {
        let changed: Vec<String> = Vec::new();
        assert(changed.deep_view() =~= Seq::<Seq<char>>::empty());
        Attempt {
            phase: AttemptPhase::Idle,
            worktree: String::new(),
            changed,
            check_failure: None,
            diff: String::new(),
            ended: None,
            verifier_failures: 0,
        }
    }

    fn end(&mut self, effects: Vec<Effect>, next: Next) -> (r: Turn)
        ensures
            final(self).deep_view() == old(self).deep_view().to(AttemptPhase::Over),
            r.deep_view() == acting(effects.deep_view(), next.deep_view()),
    {
        self.phase = AttemptPhase::Over;
        Turn { effects, next }
    }

    /// Begins the attempt.
    pub fn begin(&mut self, job: &Job) -> (r: Turn)
        requires
            old(self).deep_view().wf(*job),
            old(self).phase is Idle,
        ensures
            (final(self).deep_view(), r.deep_view()) == old(self).deep_view().begun(*job),
            final(self).deep_view().wf(*job),
    {
        if job.is_driven() {
            if job.driven_program().is_none() {
                return self.end(
                    effects0(),
                    failed(
                        "internal_error",
                        "driven_cli role has no `command` configured".to_owned(),
                    ),
                );
            }
        } else {
            match select_backend(&job.role.model, job.kind(), job.base_url()) {
                Err(e) => {
                    return self.end(
                        effects0(),
                        failed("model_unavailable", e.message_public().to_owned()),
                    );
                },
                Ok(_) => {},
            }
        }
        if job.check_fix.is_some() {
            self.phase = AttemptPhase::Probing;
            ask(Next::ProbeReuse { repo: job.repo.clone(), task_id: job.task_id.clone() })
        } else {
            self.phase = AttemptPhase::Cutting;
            ask(job.cut())
        }
    }

    /// Takes the answer whether the earlier worktree, at `path`, can be used.
    pub fn on_probe(&mut self, job: &Job, path: String, usable: bool) -> (r: Turn)
        requires
            old(self).deep_view().wf(*job),
            old(self).phase is Probing,
        ensures
            (final(self).deep_view(), r.deep_view()) == old(self).deep_view().after_probe(
                *job,
                path@,
                usable,
            ),
            final(self).deep_view().wf(*job),
    {
        if usable {
            self.enter(job, path)
        } else {
            self.phase = AttemptPhase::Cutting;
            ask(job.cut())
        }
    }

    /// Takes the fresh worktree, or the failure to cut one.
    pub fn on_worktree(&mut self, job: &Job, made: Result<String, String>) -> (r: Turn)
        requires
            old(self).deep_view().wf(*job),
            old(self).phase is Cutting,
        ensures
            (final(self).deep_view(), r.deep_view()) == old(self).deep_view().after_worktree(
                *job,
                words(made),
            ),
            final(self).deep_view().wf(*job),
    {
        match made {
            Err(e) => self.end(
                effects0(),
                failed("internal_error", cat2("worktree create: ", &e)),
            ),
            Ok(path) => self.enter(job, path),
        }
    }

    fn enter(&mut self, job: &Job, path: String) -> (r: Turn)
        requires
            !(job.opening().1 is Fail),
        ensures
            (final(self).deep_view(), r.deep_view()) == old(self).deep_view().after_worktree(
                *job,
                Ok(path@),
            ),
    {
        self.worktree = path;
        if job.is_driven() {
            self.phase = AttemptPhase::Wrapping;
            let program = job.driven_program().unwrap();
            return ask(
                Next::Wrap {
                    sandbox: job.recipe.spec_for(&self.worktree),
                    program,
                    args: job.driven_args(),
                },
            );
        }
        let spawned = emit(EventKind::Spawned);
        let session = job.open_session(SessionKind::OneShotApi, &self.worktree);
        match job.rules_file() {
            Some(path) => {
                self.phase = AttemptPhase::ReadingRules;
                return Turn {
                    effects: effects2(spawned, session),
                    next: Next::ReadHouseRules { path },
                };
            },
            None => {},
        }
        self.phase = AttemptPhase::Implementing;
        let effects = effects3(spawned, session, emit(EventKind::Iterating));
        let next = job.run_backend(&self.worktree, "");
        proof {
            reveal_strlit("");
            assert(""@ =~= Seq::<char>::empty());
            assert(seq![
                plain_event(EventKind::Spawned),
                job.session(SessionKind::OneShotApi, self.worktree@),
            ].push(plain_event(EventKind::Iterating)) =~= effects.deep_view());
        }
        Turn { effects, next }
    }

    /// Takes the house rules that were read, or the failure to read them.
    pub fn on_rules(&mut self, job: &Job, read: Result<String, String>) -> (r: Turn)
        requires
            old(self).deep_view().wf(*job),
            old(self).phase is ReadingRules,
        ensures
            (final(self).deep_view(), r.deep_view()) == old(self).deep_view().after_rules(
                *job,
                words(read),
            ),
            final(self).deep_view().wf(*job),
    {
        match read {
            Err(e) => {
                let path = job.rules_file().unwrap();
                self.end(
                    effects0(),
                    failed(
                        "internal_error",
                        text::cat4("reading house_rules_ref ", &path, ": ", &e),
                    ),
                )
            },
            Ok(rules) => {
                self.phase = AttemptPhase::Implementing;
                Turn {
                    effects: effects1(emit(EventKind::Iterating)),
                    next: job.run_backend(&self.worktree, &rules),
                }
            },
        }
    }

    /// Takes what came of the implementer's run.
    pub fn on_backend(&mut self, job: &Job, reply: BackendReply) -> (r: Turn)
        requires
            old(self).deep_view().wf(*job),
            old(self).phase is Implementing,
        ensures
            (final(self).deep_view(), r.deep_view()) == old(self).deep_view().after_backend(
                *job,
                reply,
            ),
            final(self).deep_view().wf(*job),
    {
        match reply {
            BackendReply::Done { turns, tokens_in, tokens_out } => {
                self.phase = AttemptPhase::Gating;
                let finish = Effect::FinishSession {
                    exit: ExitStatus::Finished,
                    turns: Some(turns),
                    tokens_in: Some(tokens_in),
                    tokens_out: Some(tokens_out),
                };
                Turn {
                    effects: effects3(
                        finish,
                        emit(EventKind::ImplFinished),
                        emit(EventKind::ChecksStarted),
                    ),
                    next: job.run_gate(&self.worktree),
                }
            },
            BackendReply::Unavailable(m) => self.end(
                effects2(finish_unmetered(ExitStatus::Error), Effect::RemoveWorktree),
                failed("model_unavailable", m),
            ),
            BackendReply::Budget(m) => self.end(
                effects2(finish_unmetered(ExitStatus::Error), Effect::RemoveWorktree),
                failed("budget_exhausted", m),
            ),
            BackendReply::Other(m) => self.end(
                effects2(finish_unmetered(ExitStatus::Error), Effect::RemoveWorktree),
                failed("internal_error", m),
            ),
        }
    }

    /// Takes the contained command of a driven CLI, or the failure to contain it.
    pub fn on_wrap(&mut self, job: &Job, wrapped: Result<(String, Vec<String>), String>) -> (r: Turn)
        requires
            old(self).deep_view().wf(*job),
            old(self).phase is Wrapping,
        ensures
            (final(self).deep_view(), r.deep_view()) == old(self).deep_view().after_wrap(
                *job,
                wrapped_words(wrapped),
            ),
            final(self).deep_view().wf(*job),
            wrapped matches Ok((program, args)) ==> (r.next matches Next::SpawnDriven(c)
                && c.program@ == program@ && c.args.deep_view() == args.deep_view() && c.cwd@
                == old(self).worktree@),
    {
        match wrapped {
            Err(e) => self.end(
                effects0(),
                failed("internal_error", cat2("sandbox wrap (driven): ", &e)),
            ),
            Ok((program, args)) => {
                self.phase = AttemptPhase::Spawning;
                Turn {
                    effects: effects3(
                        emit(EventKind::Spawned),
                        job.open_session(SessionKind::DrivenPty, &self.worktree),
                        emit(EventKind::Iterating),
                    ),
                    next: Next::SpawnDriven(job.driven_setup(&self.worktree, program, args)),
                }
            },
        }
    }

    /// Takes the failure to start the driven CLI, if it did not start.
    pub fn on_spawn(&mut self, error: Option<String>) -> (r: Turn)
        requires
            old(self).phase is Spawning,
        ensures
            (final(self).deep_view(), r.deep_view()) == old(self).deep_view().after_spawn(
                error.deep_view(),
            ),
            forall|job: Job| #[trigger]
                old(self).deep_view().wf(job) ==> final(self).deep_view().wf(job),
    {
        match error {
            Some(e) => self.end(
                effects2(finish_unmetered(ExitStatus::Error), Effect::RemoveWorktree),
                failed("internal_error", cat2("driven spawn: ", &e)),
            ),
            None => {
                self.phase = AttemptPhase::Joining;
                ask(Next::JoinDriven)
            },
        }
    }

    /// Takes how the driven CLI ended; nothing where its thread panicked.
    pub fn on_join(&mut self, job: &Job, ended: Option<DrivenResult>) -> (r: Turn)
        requires
            old(self).deep_view().wf(*job),
            old(self).phase is Joining,
        ensures
            (final(self).deep_view(), r.deep_view()) == old(self).deep_view().after_join(
                *job,
                ended,
            ),
            final(self).deep_view().wf(*job),
    {
        match ended {
            None => self.end(
                effects2(finish_unmetered(ExitStatus::Error), Effect::RemoveWorktree),
                failed("internal_error", "driven session thread panicked".to_owned()),
            ),
            Some(end) => {
                let completed = matches!(end.reason, EndReason::Completed);
                let snapshot = match &end.reason {
                    EndReason::Wedged => true,
                    EndReason::TurnBudgetExceeded => true,
                    EndReason::Killed(_) => true,
                    _ => false,
                };
                if completed {
                    self.phase = AttemptPhase::Gating;
                    let finish = Effect::FinishSession {
                        exit: ExitStatus::Finished,
                        turns: Some(end.turns),
                        tokens_in: end.tokens_in,
                        tokens_out: end.tokens_out,
                    };
                    Turn {
                        effects: effects3(
                            finish,
                            emit(EventKind::ImplFinished),
                            emit(EventKind::ChecksStarted),
                        ),
                        next: job.run_gate(&self.worktree),
                    }
                } else if snapshot {
                    self.phase = AttemptPhase::Snapping;
                    self.ended = Some(end);
                    ask(
                        Next::Snapshot {
                            worktree: self.worktree.clone(),
                            base: job.scope_base.clone(),
                        },
                    )
                } else {
                    proof {
                        reveal_strlit("");
                        assert(""@ =~= Seq::<char>::empty());
                    }
                    let effects = end_driven(&end, job.turn_cap, "");
                    self.end(effects, Next::Settled(AttemptOutcome::ScopeViolation))
                }
            },
        }
    }

    /// Takes what a stopped driven session left in the worktree.
    pub fn on_snapshot(&mut self, job: &Job, diff: &str) -> (r: Turn)
        requires
            old(self).deep_view().wf(*job),
            old(self).phase is Snapping,
        ensures
            (final(self).deep_view(), r.deep_view()) == old(self).deep_view().after_snapshot(
                *job,
                diff@,
            ),
            final(self).deep_view().wf(*job),
    {
        let ended = self.ended.take().unwrap();
        let effects = end_driven(&ended, job.turn_cap, diff);
        self.end(effects, Next::Settled(AttemptOutcome::ScopeViolation))
    }

    /// Takes what the mechanical gate found.
    pub fn on_gate(&mut self, job: &Job, ran: Result<GateOutcome, String>) -> (r: Turn)
        requires
            old(self).deep_view().wf(*job),
            old(self).phase is Gating,
        ensures
            (final(self).deep_view(), r.deep_view()) == old(self).deep_view().after_gate(
                *job,
                gate_words(ran),
            ),
            final(self).deep_view().wf(*job),
    {
        match ran {
            Err(e) => self.end(effects0(), failed("internal_error", cat2("gate: ", &e))),
            Ok(GateOutcome::ScopeViolation { offending }) => {
                let mut m = failure_object(
                    "scope_violation",
                    "changed paths fell outside the file allowlist",
                );
                put_texts(&mut m, "offending_paths", &offending);
                self.end(
                    effects1(emit_with(EventKind::Failed, compact(m))),
                    Next::Settled(AttemptOutcome::ScopeViolation),
                )
            },
            Ok(GateOutcome::TightenedScopeExceeded { changed, cap, files }) => {
                let message = text::cat5(
                    "changed ",
                    &u64_text(changed as u64),
                    " files, exceeding the tightened allowlist cap of ",
                    &u64_text(cap as u64),
                    " (containment downgrade / codex_tighten)",
                );
                let mut m = failure_object("scope_violation", &message);
                put_text(&mut m, "reason", "tightened_allowlist");
                put_count(&mut m, "changed", changed);
                put_count(&mut m, "cap", cap);
                put_texts(&mut m, "offending_paths", &files);
                self.end(
                    effects1(emit_with(EventKind::Failed, compact(m))),
                    Next::Settled(AttemptOutcome::ScopeViolation),
                )
            },
            Ok(GateOutcome::ChecksFailed { command, output_digest, changed }) => {
                let mut m = object();
                put_text(&mut m, "command", &command);
                put_text(&mut m, "output_digest", &output_digest);
                assert(json::fields(m) =~= check_fields(
                    CheckFailureView { command: command@, output_digest: output_digest@ },
                ));
                let checkpoint = Effect::Checkpoint(
                    CommitRequest {
                        worktree: self.worktree.clone(),
                        paths: changed.clone(),
                        message: cat2("maestro: fix-in-place checkpoint — ", &job.spec.title),
                    },
                );
                let next = Next::DiffForRetry(job.diff_request(&self.worktree, &changed));
                self.phase = AttemptPhase::DiffingForRetry;
                self.changed = changed;
                self.check_failure = Some(CheckFailure { command, output_digest });
                Turn {
                    effects: effects2(
                        emit_with(EventKind::ChecksFailed, compact(m)),
                        checkpoint,
                    ),
                    next,
                }
            },
            Ok(GateOutcome::Passed { changed }) => {
                let next = Next::DiffForVerifier(job.diff_request(&self.worktree, &changed));
                self.phase = AttemptPhase::DiffingForVerifier;
                self.changed = changed;
                Turn { effects: effects1(emit(EventKind::ChecksPassed)), next }
            },
        }
    }

    /// Takes the diff that a retry gets as context.
    pub fn on_retry_diff(&mut self, diff: Option<String>) -> (r: Turn)
        requires
            old(self).phase is DiffingForRetry,
        ensures
            (final(self).deep_view(), r.deep_view()) == old(self).deep_view().after_retry_diff(
                diff.deep_view(),
            ),
            forall|job: Job| #[trigger]
                old(self).deep_view().wf(job) ==> final(self).deep_view().wf(job),
    {
        let check_failure = self.check_failure.take();
        let diff = match diff {
            Some(d) => d,
            None => String::new(),
        };
        self.end(
            effects0(),
            Next::Settled(
                AttemptOutcome::VerificationFailed(
                    FailedAttempt { diff, report: None, check_failure },
                ),
            ),
        )
    }

    /// Takes the diff that the verifier is to judge, or the failure to take it.
    pub fn on_verifier_diff(&mut self, job: &Job, diff: Result<String, String>) -> (r: Turn)
        requires
            old(self).deep_view().wf(*job),
            old(self).phase is DiffingForVerifier,
        ensures
            (final(self).deep_view(), r.deep_view()) == old(self).deep_view().after_verifier_diff(
                *job,
                words(diff),
            ),
            final(self).deep_view().wf(*job),
    {
        match diff {
            Err(e) => self.end(
                effects0(),
                failed("internal_error", cat2("diff for verifier: ", &e)),
            ),
            Ok(diff) => match select_verifier(&job.profile, &job.role.model) {
                None => self.end(
                    effects0(),
                    failed(
                        "model_unavailable",
                        "no eligible verifier model configured (verification never skipped, ADR-002)".to_owned(),
                    ),
                ),
                Some((role, _)) => {
                    self.phase = AttemptPhase::Verifying;
                    let next = job.run_verifier(&role, &self.worktree, &diff);
                    self.diff = diff;
                    let effects = effects2(
                        emit(EventKind::VerifyStarted),
                        job.open_verifier(&role),
                    );
                    assert(effects.deep_view() =~= job.verify_opening(role.deep_view()));
                    Turn { effects, next }
                },
            },
        }
    }

    /// Takes what came of the verifier's run.
    pub fn on_verify(&mut self, job: &Job, reply: VerifyReply) -> (r: Turn)
        requires
            old(self).deep_view().wf(*job),
            old(self).phase is Verifying,
        ensures
            (final(self).deep_view(), r.deep_view()) == old(self).deep_view().after_verify(
                *job,
                reply,
            ),
            final(self).deep_view().wf(*job),
    {
        let (role, independence) = select_verifier(&job.profile, &job.role.model).unwrap();
        match reply {
            VerifyReply::Done { report, turns, tokens_in, tokens_out } => {
                let save = Effect::SaveReport {
                    independence,
                    attempt: job.attempt,
                    body: report.body.clone(),
                };
                let finish = Effect::FinishSession {
                    exit: ExitStatus::Finished,
                    turns: Some(turns),
                    tokens_in: Some(tokens_in),
                    tokens_out: Some(tokens_out),
                };
                match report.verdict {
                    Verdict::Pass => {
                        self.phase = AttemptPhase::Committing;
                        Turn {
                            effects: effects2(save, finish),
                            next: Next::Commit(
                                CommitRequest {
                                    worktree: self.worktree.clone(),
                                    paths: self.changed.clone(),
                                    message: cat2("maestro: ", &job.spec.title),
                                },
                            ),
                        }
                    },
                    Verdict::Fail => {
                        let ghost recorded = seq![save.deep_view(), finish.deep_view()];
                        let effects = effects3(save, finish, emit(EventKind::VerifyFailed));
                        assert(effects.deep_view() =~= recorded.push(
                            plain_event(EventKind::VerifyFailed),
                        ));
                        let mut diff = String::new();
                        std::mem::swap(&mut diff, &mut self.diff);
                        self.end(
                            effects,
                            Next::Settled(
                                AttemptOutcome::VerificationFailed(
                                    FailedAttempt {
                                        diff,
                                        report: Some(report),
                                        check_failure: None,
                                    },
                                ),
                            ),
                        )
                    },
                }
            },
            VerifyReply::Unavailable(m) => self.end(
                effects1(finish_unmetered(ExitStatus::Error)),
                failed("model_unavailable", m),
            ),
            VerifyReply::Other(m) => {
                if self.verifier_failures == 0 {
                    self.verifier_failures = 1;
                    let effects = effects3(
                        finish_unmetered(ExitStatus::Error),
                        emit(EventKind::VerifyStarted),
                        job.open_verifier(&role),
                    );
                    assert(effects.deep_view() =~= seq![unmetered(ExitStatus::Error)]
                        + job.verify_opening(role.deep_view()));
                    Turn { effects, next: job.run_verifier(&role, &self.worktree, &self.diff) }
                } else {
                    self.end(
                        effects1(finish_unmetered(ExitStatus::Error)),
                        failed("internal_error", cat2("verifier failed twice: ", &m)),
                    )
                }
            },
        }
    }

    /// Takes the failure to commit the verified work, if it was not committed.
    pub fn on_commit(&mut self, error: Option<String>) -> (r: Turn)
        requires
            old(self).phase is Committing,
        ensures
            (final(self).deep_view(), r.deep_view()) == old(self).deep_view().after_commit(
                error.deep_view(),
            ),
            forall|job: Job| #[trigger]
                old(self).deep_view().wf(job) ==> final(self).deep_view().wf(job),
    {
        match error {
            Some(e) => self.end(effects0(), failed("internal_error", cat2("commit: ", &e))),
            None => self.end(
                effects1(emit(EventKind::VerifyPassed)),
                Next::Settled(AttemptOutcome::Passed),
            ),
        }
    }
}

} // verus!
