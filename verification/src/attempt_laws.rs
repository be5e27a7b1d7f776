//! What holds of every attempt, whatever the outside answers.

use crate::attempt::{
    AttemptPhase, AttemptView, BackendReply, CommitRequestView, DrivenResult, EffectView, EndReason,
    Job, NextView, TurnView, VerifyReply,
};
use crate::containment::SandboxSpecView;
use crate::domain::{EventKind, ExitStatus, KillKind, SessionKind, SessionRole};
use crate::gate::GateOutcomeView;
use crate::json::{self, Json};
use crate::pipeline::{AttemptOutcomeView, WorkerFailureView};
use crate::prompt;
use crate::roles::{self, BackendView};
use crate::task::CheckFailureView;
use crate::text;
use vstd::prelude::*;

verus! {

/// An answer that an attempt is given.
pub enum Answer {
    Begin,
    Probe { path: Seq<char>, usable: bool },
    Worktree(Result<Seq<char>, Seq<char>>),
    Rules(Result<Seq<char>, Seq<char>>),
    Backend(BackendReply),
    Wrap(Result<(Seq<char>, Seq<Seq<char>>), Seq<char>>),
    Spawn(Option<Seq<char>>),
    Join(Option<DrivenResult>),
    Snapshot(Seq<char>),
    Gate(Result<GateOutcomeView, Seq<char>>),
    RetryDiff(Option<Seq<char>>),
    VerifierDiff(Result<Seq<char>, Seq<char>>),
    Verify(VerifyReply),
    Commit(Option<Seq<char>>),
}

/// Whether an attempt in a phase waits for an answer.
pub open spec fn awaits(phase: AttemptPhase, answer: Answer) -> bool {
    match answer {
        Answer::Begin => phase is Idle,
        Answer::Probe { .. } => phase is Probing,
        Answer::Worktree(_) => phase is Cutting,
        Answer::Rules(_) => phase is ReadingRules,
        Answer::Backend(_) => phase is Implementing,
        Answer::Wrap(_) => phase is Wrapping,
        Answer::Spawn(_) => phase is Spawning,
        Answer::Join(_) => phase is Joining,
        Answer::Snapshot(_) => phase is Snapping,
        Answer::Gate(_) => phase is Gating,
        Answer::RetryDiff(_) => phase is DiffingForRetry,
        Answer::VerifierDiff(_) => phase is DiffingForVerifier,
        Answer::Verify(_) => phase is Verifying,
        Answer::Commit(_) => phase is Committing,
    }
}

/// What an attempt makes of an answer.
pub open spec fn step(a: AttemptView, job: Job, answer: Answer) -> (AttemptView, TurnView) {
    match answer {
        Answer::Begin => a.begun(job),
        Answer::Probe { path, usable } => a.after_probe(job, path, usable),
        Answer::Worktree(made) => a.after_worktree(job, made),
        Answer::Rules(read) => a.after_rules(job, read),
        Answer::Backend(reply) => a.after_backend(job, reply),
        Answer::Wrap(wrapped) => a.after_wrap(job, wrapped),
        Answer::Spawn(error) => a.after_spawn(error),
        Answer::Join(ended) => a.after_join(job, ended),
        Answer::Snapshot(diff) => a.after_snapshot(job, diff),
        Answer::Gate(ran) => a.after_gate(job, ran),
        Answer::RetryDiff(diff) => a.after_retry_diff(diff),
        Answer::VerifierDiff(diff) => a.after_verifier_diff(job, diff),
        Answer::Verify(reply) => a.after_verify(job, reply),
        Answer::Commit(error) => a.after_commit(error),
    }
}

/// Where an attempt stands after a series of answers.
pub open spec fn after(job: Job, answers: Seq<Answer>) -> AttemptView
    decreases answers.len(),
{
    if answers.len() == 0 {
        AttemptView::idle()
    } else {
        step(after(job, answers.drop_last()), job, answers.last()).0
    }
}

/// What an attempt asks after a series of answers.
pub open spec fn asked(job: Job, answers: Seq<Answer>) -> NextView {
    step(after(job, answers.drop_last()), job, answers.last()).1.next
}

/// Every effect an attempt has had after a series of answers, in order.
pub open spec fn trace(job: Job, answers: Seq<Answer>) -> Seq<EffectView>
    decreases answers.len(),
{
    if answers.len() == 0 {
        Seq::empty()
    } else {
        trace(job, answers.drop_last()) + step(
            after(job, answers.drop_last()),
            job,
            answers.last(),
        ).1.effects
    }
}

/// Whether every answer of a series was one the attempt waited for.
pub open spec fn fitting(job: Job, answers: Seq<Answer>) -> bool
    decreases answers.len(),
{
    answers.len() == 0 || {
        &&& fitting(job, answers.drop_last())
        &&& awaits(after(job, answers.drop_last()).phase, answers.last())
    }
}

/// The work passed the mechanical gate.
pub open spec fn gate_passed(answer: Answer) -> bool {
    answer matches Answer::Gate(Ok(GateOutcomeView::Passed { .. }))
}

/// These files, and no others, passed the mechanical gate.
pub open spec fn gate_passed_files(answer: Answer, files: Seq<Seq<char>>) -> bool {
    answer matches Answer::Gate(Ok(GateOutcomeView::Passed { changed })) && changed == files
}

/// A verifier passed the work.
pub open spec fn verdict_passed(answer: Answer) -> bool {
    answer matches Answer::Verify(VerifyReply::Done { report, .. }) && report.verdict is Pass
}

/// How many terminal failures are among the effects.
pub open spec fn failures(effects: Seq<EffectView>) -> int
    decreases effects.len(),
{
    if effects.len() == 0 {
        0
    } else {
        failures(effects.drop_last()) + (if effects.last() matches EffectView::Emit { kind, .. }
            && kind is Failed {
            1int
        } else {
            0int
        })
    }
}

/// Whether an event of a kind is among the effects.
pub open spec fn emits(effects: Seq<EffectView>, kind: EventKind) -> bool {
    exists|i: int|
        0 <= i < effects.len() && (#[trigger] effects[i] matches EffectView::Emit { kind: k, .. }
            && k == kind)
}

proof fn lemma_failures_few(effects: Seq<EffectView>)
    requires
        effects.len() <= 4,
    ensures
        failures(effects) == (if effects.len() > 0 && is_failure(effects[0]) {
            1int
        } else {
            0int
        }) + (if effects.len() > 1 && is_failure(effects[1]) {
            1int
        } else {
            0int
        }) + (if effects.len() > 2 && is_failure(effects[2]) {
            1int
        } else {
            0int
        }) + (if effects.len() > 3 && is_failure(effects[3]) {
            1int
        } else {
            0int
        }),
{
    reveal_with_fuel(failures, 5);
    if effects.len() > 0 {
        let a = effects.drop_last();
        if a.len() > 0 {
            let b = a.drop_last();
            if b.len() > 0 {
                let c = b.drop_last();
                assert(c.len() <= 1);
            }
        }
    }
}

/// Whether an effect is a terminal failure.
pub open spec fn is_failure(effect: EffectView) -> bool {
    effect matches EffectView::Emit { kind, .. } && kind is Failed
}

proof fn lemma_failures_add(a: Seq<EffectView>, b: Seq<EffectView>)
    ensures
        failures(a + b) == failures(a) + failures(b),
    decreases b.len(),
{
    if b.len() == 0 {
        assert(a + b =~= a);
    } else {
        assert((a + b).drop_last() =~= a + b.drop_last());
        lemma_failures_add(a, b.drop_last());
    }
}

proof fn lemma_step_failures(a: AttemptView, job: Job, answer: Answer)
    requires
        awaits(a.phase, answer),
        a.wf(job),
    ensures
        ({
            let turn = step(a, job, answer).1;
            failures(turn.effects) == (if turn.next == NextView::Settled(
                AttemptOutcomeView::ScopeViolation,
            ) {
                1int
            } else {
                0int
            })
        }),
{
    let turn = step(a, job, answer).1;
    lemma_failures_few(turn.effects);
}

/// An attempt keeps its shape: whatever it is answered, what holds of every
/// attempt goes on holding.
pub proof fn law_attempts_stay_well_formed(a: AttemptView, job: Job, answer: Answer)
    requires
        a.wf(job),
        awaits(a.phase, answer),
    ensures
        step(a, job, answer).0.wf(job),
{
    match answer {
        Answer::Begin => {},
        Answer::Probe { .. } => {},
        Answer::Worktree(_) => {},
        Answer::Rules(_) => {},
        Answer::Backend(_) => {},
        Answer::Wrap(_) => {},
        Answer::Spawn(_) => {},
        Answer::Join(_) => {},
        Answer::Snapshot(_) => {},
        Answer::Gate(_) => {},
        Answer::RetryDiff(_) => {},
        Answer::VerifierDiff(_) => {},
        Answer::Verify(_) => {},
        Answer::Commit(_) => {},
    }
}

/// An attempt is over exactly where it has settled or failed, and then it waits
/// for nothing more.
pub proof fn law_over_is_over(a: AttemptView, job: Job, answer: Answer)
    requires
        a.wf(job),
        awaits(a.phase, answer),
    ensures
        ({
            let (next, turn) = step(a, job, answer);
            next.phase is Over <==> (turn.next is Settled || turn.next is Fail)
        }),
        forall|later: Answer| !#[trigger] awaits(AttemptPhase::Over, later),
{
}

proof fn lemma_reachable(job: Job, answers: Seq<Answer>)
    requires
        fitting(job, answers),
    ensures
        after(job, answers).wf(job),
    decreases answers.len(),
{
    if answers.len() > 0 {
        lemma_reachable(job, answers.drop_last());
        law_attempts_stay_well_formed(after(job, answers.drop_last()), job, answers.last());
    }
}

proof fn lemma_no_failure_before_the_end(job: Job, answers: Seq<Answer>)
    requires
        fitting(job, answers),
        !(after(job, answers).phase is Over),
    ensures
        failures(trace(job, answers)) == 0,
    decreases answers.len(),
{
    if answers.len() > 0 {
        let before = answers.drop_last();
        lemma_reachable(job, before);
        lemma_no_failure_before_the_end(job, before);
        let effects = step(after(job, before), job, answers.last()).1.effects;
        lemma_step_failures(after(job, before), job, answers.last());
        lemma_failures_add(trace(job, before), effects);
    }
}

/// An attempt journals a terminal failure at most once: exactly once where it
/// settles in a scope violation, and never where it passes, is left to be
/// retried, or fails in its machinery (which is journaled by whoever runs it).
pub proof fn law_one_terminal_failure(job: Job, answers: Seq<Answer>)
    requires
        answers.len() > 0,
        fitting(job, answers),
    ensures
        failures(trace(job, answers)) == (if asked(job, answers) == NextView::Settled(
            AttemptOutcomeView::ScopeViolation,
        ) {
            1int
        } else {
            0int
        }),
{
    let before = answers.drop_last();
    lemma_reachable(job, before);
    lemma_no_failure_before_the_end(job, before);
    let effects = step(after(job, before), job, answers.last()).1.effects;
    lemma_step_failures(after(job, before), job, answers.last());
    lemma_failures_add(trace(job, before), effects);
}

proof fn lemma_progress(job: Job, answers: Seq<Answer>)
    requires
        fitting(job, answers),
    ensures
        ({
            let now = after(job, answers);
            let phase = now.phase;
            &&& (phase is DiffingForVerifier || phase is Verifying || phase is Committing) ==> (
            exists|i: int|
                0 <= i < answers.len() && gate_passed_files(#[trigger] answers[i], now.changed))
            &&& phase is Committing ==> answers.len() > 0 && verdict_passed(answers.last())
        }),
    decreases answers.len(),
{
    if answers.len() > 0 {
        let before = answers.drop_last();
        lemma_progress(job, before);
        lemma_reachable(job, before);
        let phase = after(job, answers).phase;
        if phase is DiffingForVerifier || phase is Verifying || phase is Committing {
            let was = after(job, before).phase;
            if was is DiffingForVerifier || was is Verifying || was is Committing {
                let files = after(job, before).changed;
                let i = choose|i: int|
                    0 <= i < before.len() && gate_passed_files(#[trigger] before[i], files);
                assert(answers[i] == before[i]);
                assert(gate_passed_files(answers[i], after(job, answers).changed));
            } else {
                assert(gate_passed_files(
                    answers[answers.len() - 1],
                    after(job, answers).changed,
                ));
            }
        }
    }
}

/// Verification is never skipped: an attempt passes only after its work passed
/// the mechanical gate, a verifier then passed it, and it was committed. The
/// commit comes before the event that announces the pass.
pub proof fn law_passing_takes_gate_verdict_and_commit(job: Job, answers: Seq<Answer>)
    requires
        answers.len() > 0,
        fitting(job, answers),
        asked(job, answers) == NextView::Settled(AttemptOutcomeView::Passed),
    ensures
        answers.last() == Answer::Commit(None),
        answers.len() >= 2 && verdict_passed(answers[answers.len() - 2]),
        exists|i: int| 0 <= i < answers.len() && gate_passed(#[trigger] answers[i]),
        step(after(job, answers.drop_last()), job, answers.last()).1.effects == seq![
            EffectView::Emit { kind: EventKind::VerifyPassed, payload: None },
        ],
{
    let before = answers.drop_last();
    lemma_reachable(job, before);
    lemma_progress(job, before);
    let files = after(job, before).changed;
    let i = choose|i: int|
        0 <= i < before.len() && gate_passed_files(#[trigger] before[i], files);
    assert(answers[i] == before[i]);
    assert(before.last() == answers[answers.len() - 2]);
}

/// What is committed is exactly what passed the mechanical gate, in the attempt's
/// own worktree: nothing that a check command wrote.
pub proof fn law_only_gated_files_are_committed(job: Job, answers: Seq<Answer>)
    requires
        answers.len() > 0,
        fitting(job, answers),
    ensures
        asked(job, answers) matches NextView::Commit(request) ==> {
            &&& request.worktree == after(job, answers).worktree
            &&& exists|i: int|
                0 <= i < answers.len() && gate_passed_files(#[trigger] answers[i], request.paths)
        },
{
    lemma_reachable(job, answers.drop_last());
    lemma_progress(job, answers);
}

/// The base is pinned: the worktree is cut from one commit, and everything that
/// is said of the work is held against that same commit.
pub proof fn law_base_is_pinned(a: AttemptView, job: Job, answer: Answer)
    requires
        a.wf(job),
        awaits(a.phase, answer),
    ensures
        match step(a, job, answer).1.next {
            NextView::CreateWorktree { base, .. } => base == job.scope_base@,
            NextView::Snapshot { base, .. } => base == job.scope_base@,
            NextView::RunGate(request) => request.base == job.scope_base@,
            NextView::DiffForRetry(request) => request.base == job.scope_base@,
            NextView::DiffForVerifier(request) => request.base == job.scope_base@,
            _ => true,
        },
{
}

/// Only a passing attempt announces a pass.
pub proof fn law_no_pass_without_passing(a: AttemptView, job: Job, answer: Answer)
    requires
        a.wf(job),
        awaits(a.phase, answer),
        emits(step(a, job, answer).1.effects, EventKind::VerifyPassed),
    ensures
        step(a, job, answer).1.next == NextView::Settled(AttemptOutcomeView::Passed),
{
}

/// An attempt never announces that work is merged: merging is never automatic.
pub proof fn law_attempts_never_merge(a: AttemptView, job: Job, answer: Answer)
    requires
        a.wf(job),
        awaits(a.phase, answer),
    ensures
        !emits(step(a, job, answer).1.effects, EventKind::Merged),
{
}

/// A failing check is handed on exactly where a check command rejected the
/// work; a verifier's rejection hands on its report instead.
pub proof fn law_what_a_failure_hands_on(a: AttemptView, job: Job, answer: Answer)
    requires
        a.wf(job),
        awaits(a.phase, answer),
    ensures
        step(a, job, answer).1.next matches NextView::Settled(
            AttemptOutcomeView::VerificationFailed(f),
        ) ==> (f.check_failure is Some <==> a.phase is DiffingForRetry) && (f.report is Some <==> a.phase
            is Verifying),
{
}

/// A crashed verifier is tried again exactly once, on the same diff.
pub proof fn law_verifier_is_tried_twice(a: AttemptView, job: Job, first: String, second: String)
    requires
        a.wf(job),
        a.phase is Verifying,
        a.verifier_failures == 0,
    ensures
        ({
            let (b, turn) = a.after_verify(job, VerifyReply::Other(first));
            &&& b.phase is Verifying
            &&& turn.next == job.verification(job.judge()->0, a.worktree, a.diff)
            &&& b.after_verify(job, VerifyReply::Other(second)).1.next is Fail
        }),
{
}

/// A stopped or failed driven session always ends its own task: it is never
/// handed on as a reason to retry or escalate.
pub proof fn law_driven_stops_are_terminal(a: AttemptView, job: Job, ended: DrivenResult, diff: Seq<char>)
    requires
        a.wf(job),
        a.phase is Joining,
        !(ended.reason is Completed),
    ensures
        ({
            let (b, turn) = a.after_join(job, Some(ended));
            if b.phase is Snapping {
                b.after_snapshot(job, diff).1.next == NextView::Settled(
                    AttemptOutcomeView::ScopeViolation,
                )
            } else {
                turn.next == NextView::Settled(AttemptOutcomeView::ScopeViolation)
            }
        }),
{
}

// ---------------------------------------------------------------------------
// What each step hands on
// ---------------------------------------------------------------------------

/// Whether a sandbox contains a command in a workspace as the job's task is
/// contained.
pub open spec fn contained(job: Job, workspace: Seq<char>, sandbox: SandboxSpecView) -> bool {
    &&& sandbox.workspace == workspace
    &&& sandbox.level == job.recipe.level
    &&& sandbox.backend == job.recipe.backend@
    &&& sandbox.network == job.recipe.network
    &&& sandbox.flake_dir == Some(job.recipe.flake_dir@)
    &&& sandbox.devshell_variant == job.recipe.devshell_variant.deep_view()
    &&& sandbox.podman_image == job.recipe.podman_image.deep_view()
}

/// Whether a job's role names a program to drive.
pub open spec fn names_a_program(job: Job) -> bool {
    job.role.command matches Some(c) && !text::blank(c@)
}

/// What containment made of a driven CLI is what runs, in the attempt's worktree:
/// the contained program with the contained arguments, under the job's limits.
/// Before it runs, its session is on record.
pub proof fn law_what_was_contained_is_what_runs(
    a: AttemptView,
    job: Job,
    program: Seq<char>,
    args: Seq<Seq<char>>,
)
    requires
        a.wf(job),
        a.phase is Wrapping,
    ensures
        ({
            let (b, turn) = a.after_wrap(job, Ok((program, args)));
            &&& turn.next matches NextView::SpawnDriven(c) && {
                &&& c.program == program
                &&& c.args == args
                &&& c.cwd == a.worktree
                &&& c.turn_cap == job.turn_cap
                &&& c.watchdog_seconds == job.watchdog_seconds
                &&& c.plan_timeout_seconds == job.watchdog_seconds
                &&& c.plan_ceiling_seconds == job.plan_ceiling_seconds
                &&& c.max_budget_usd_bits == job.role.max_budget_usd_bits
                &&& c.plan_marker == "PLAN:"@
                &&& c.structured <==> job.role.adapter.deep_view() == Some(job.client@)
                &&& c.mock_checker <==> job.role.model@ == "mock"@
                &&& c.env_remove.len() == 0 <==> job.role.max_budget_usd_bits is Some
            }
            &&& turn.effects.len() == 3
            &&& turn.effects[0] == (EffectView::Emit { kind: EventKind::Spawned, payload: None })
            &&& turn.effects[1] == (EffectView::OpenSession {
                role: SessionRole::Implementer,
                model: job.role.model@,
                kind: SessionKind::DrivenPty,
                workspace: Some(a.worktree),
            })
            &&& turn.effects[2] == (EffectView::Emit { kind: EventKind::Iterating, payload: None })
            &&& b.phase is Spawning
            &&& b.worktree == a.worktree
        }),
{
}

/// A driven CLI that cannot be contained does not run at all: the attempt fails
/// with the reason, and nothing is journaled.
pub proof fn law_nothing_runs_uncontained(a: AttemptView, job: Job, error: Seq<char>)
    ensures
        a.after_wrap(job, Err(error)).0.phase is Over,
        a.after_wrap(job, Err(error)).1.effects.len() == 0,
        a.after_wrap(job, Err(error)).1.next == NextView::Fail(
            WorkerFailureView {
                kind: "internal_error"@,
                message: "sandbox wrap (driven): "@ + error,
            },
        ),
{
}

/// An attempt that can run begins by asking for a worktree of its own task, cut
/// from the pinned base; only one that fixes a failing check asks for the earlier
/// worktree first. One that cannot run says why: a driven CLI without a program,
/// or a role without a backend.
pub proof fn law_attempts_begin_with_a_worktree(a: AttemptView, job: Job)
    ensures
        ({
            let (b, turn) = a.begun(job);
            let runs = if job.role.kind.deep_view() == Some("driven_cli"@) {
                names_a_program(job)
            } else {
                ||| job.role.model@ == "mock"@
                ||| job.role.kind is None
                ||| job.role.kind.deep_view() == Some("mock"@)
                ||| job.role.kind.deep_view() == Some("anthropic"@)
            };
            &&& turn.effects.len() == 0
            &&& turn.next is Fail <==> !runs
            &&& runs && job.check_fix is None ==> b.phase is Cutting && turn.next
                == (NextView::CreateWorktree {
                repo: job.repo@,
                base: job.scope_base@,
                task_id: job.task_id@,
            })
            &&& runs && job.check_fix is Some ==> b.phase is Probing && turn.next
                == (NextView::ProbeReuse { repo: job.repo@, task_id: job.task_id@ })
            &&& turn.next matches NextView::Fail(f) ==> (f.kind == "internal_error"@ <==> job.role.kind.deep_view()
                == Some("driven_cli"@)) && (f.kind == "model_unavailable"@
                <==> job.role.kind.deep_view() != Some("driven_cli"@))
        }),
{
    reveal_strlit("internal_error");
    reveal_strlit("model_unavailable");
    assert("internal_error"@.len() == 14 && "model_unavailable"@.len() == 17);
    roles::law_backends_have_no_fallback(job.role.model@, job.role.kind.deep_view(), job.address());
}

/// An earlier worktree is used where it is still usable, as if it had just been
/// cut; else a fresh one is cut.
pub proof fn law_usable_worktrees_are_used(a: AttemptView, job: Job, path: Seq<char>)
    ensures
        a.after_probe(job, path, true) == a.after_worktree(job, Ok(path)),
        a.after_probe(job, path, false).0.phase is Cutting,
        a.after_probe(job, path, false).1.effects.len() == 0,
        a.after_probe(job, path, false).1.next == (NextView::CreateWorktree {
            repo: job.repo@,
            base: job.scope_base@,
            task_id: job.task_id@,
        }),
{
}

/// With a worktree in hand a driven role is contained there, with the program and
/// the arguments that its role names; any other role runs there, once the house
/// rules that the task names have been read from the repository.
pub proof fn law_work_is_done_in_the_worktree(a: AttemptView, job: Job, path: Seq<char>)
    requires
        job.driven() ==> names_a_program(job),
    ensures
        ({
            let (b, turn) = a.after_worktree(job, Ok(path));
            let rules = job.spec.house_rules_ref;
            let named = rules is Some && !text::blank(rules->0@);
            &&& b.worktree == path
            &&& job.driven() ==> (turn.next matches NextView::Wrap { sandbox, program, args } && {
                &&& program == job.role.command->0@
                &&& job.role.args is Some ==> args == job.role.args->0.deep_view()
                &&& job.role.args is None ==> args.len() == 0
                &&& contained(job, path, sandbox)
                &&& b.phase is Wrapping
            })
            &&& !job.driven() && named ==> b.phase is ReadingRules && turn.next
                == (NextView::ReadHouseRules {
                path: text::path_joined(job.repo@, rules->0@),
            })
            &&& !job.driven() && !named ==> b.phase is Implementing && turn.next is RunBackend
            &&& !job.driven() ==> turn.effects.len() >= 2 && turn.effects[0] == (EffectView::Emit {
                kind: EventKind::Spawned,
                payload: None,
            }) && turn.effects[1] == (EffectView::OpenSession {
                role: SessionRole::Implementer,
                model: job.role.model@,
                kind: SessionKind::OneShotApi,
                workspace: Some(path),
            })
        }),
        a.after_worktree(job, Err(path)).1.next == NextView::Fail(
            WorkerFailureView { kind: "internal_error"@, message: "worktree create: "@ + path },
        ),
{
}

/// An implementer is asked to do the task itself, in the attempt's worktree, with
/// the model of its role; its house rules are the repository's own wherever the
/// attempt is the first, and always end in them. Its requests go through the proxy
/// where one runs, under the task's own name, and the mock never does.
pub proof fn law_implementers_get_the_task(a: AttemptView, job: Job, rules: Seq<char>)
    requires
        !job.driven(),
        !(job.opening().1 is Fail),
    ensures
        ({
            let turn = a.after_rules(job, Ok(rules)).1;
            let mock = job.role.model@ == "mock"@ || job.role.kind.deep_view() == Some("mock"@);
            &&& turn.effects == seq![
                EffectView::Emit { kind: EventKind::Iterating, payload: None },
            ]
            &&& turn.next matches NextView::RunBackend { backend, request } && {
                &&& request.spec == job.spec.deep_view()
                &&& request.worktree == a.worktree
                &&& request.model == job.role.model@
                &&& request.task_header == (if job.proxy_addr is Some && !mock {
                    Some(job.task_id@)
                } else {
                    None
                })
                &&& backend is Mock <==> mock
                &&& backend matches BackendView::Anthropic { base_url } ==> base_url == (
                if job.proxy_addr is Some {
                    Some("http://"@ + job.proxy_addr->0@)
                } else {
                    job.role.base_url.deep_view()
                })
                &&& job.check_fix is None && job.prior_reports@.len() == 0 ==> request.house_rules
                    == rules
                &&& request.house_rules.len() >= rules.len()
                &&& request.house_rules.skip(request.house_rules.len() - rules.len()) == rules
            }
        }),
{
    roles::law_backends_have_no_fallback(job.role.model@, job.role.kind.deep_view(), job.address());
    prompt::law_own_rules_come_last(
        rules,
        job.check_fix.deep_view(),
        job.prior_reports.deep_view(),
        job.last_failed_diff.deep_view(),
    );
}

/// House rules that cannot be read fail the attempt: it never runs without them.
pub proof fn law_unread_rules_fail_the_attempt(a: AttemptView, job: Job, error: Seq<char>)
    ensures
        a.after_rules(job, Err(error)).0.phase is Over,
        a.after_rules(job, Err(error)).1.next matches NextView::Fail(f) && f.kind
            == "internal_error"@,
{
}

/// Finished work is gated where it was done: against the pinned base, by the
/// task's own allowlist and its own commands, contained as the task is. The number
/// of changed files is capped only where the task runs tightened.
pub proof fn law_finished_work_is_gated(
    a: AttemptView,
    job: Job,
    turns: i64,
    tokens_in: i64,
    tokens_out: i64,
    ended: DrivenResult,
)
    requires
        ended.reason is Completed,
    ensures
        ({
            let done = a.after_backend(
                job,
                BackendReply::Done { turns, tokens_in, tokens_out },
            );
            let driven = a.after_join(job, Some(ended));
            let tightened = job.recipe.downgraded || (job.profile.codex_tighten && job.driven());
            &&& done.0.phase is Gating
            &&& driven.0.phase is Gating
            &&& done.1.next == driven.1.next
            &&& done.1.next matches NextView::RunGate(r) && {
                &&& r.worktree == a.worktree
                &&& r.base == job.scope_base@
                &&& r.allowlist == job.spec.file_allowlist.deep_view()
                &&& r.commands == job.spec.check_commands.deep_view()
                &&& contained(job, a.worktree, r.sandbox)
                &&& r.max_changed_files is Some <==> tightened && job.spec.file_allowlist@.len() > 0
                &&& r.max_changed_files matches Some(cap) ==> cap >= 1 && (job.scaled_files >= 1
                    ==> cap == job.scaled_files)
            }
            &&& done.1.effects == seq![
                EffectView::FinishSession {
                    exit: ExitStatus::Finished,
                    turns: Some(turns),
                    tokens_in: Some(tokens_in),
                    tokens_out: Some(tokens_out),
                },
                EffectView::Emit { kind: EventKind::ImplFinished, payload: None },
                EffectView::Emit { kind: EventKind::ChecksStarted, payload: None },
            ]
            &&& driven.1.effects == seq![
                EffectView::FinishSession {
                    exit: ExitStatus::Finished,
                    turns: Some(ended.turns),
                    tokens_in: ended.tokens_in,
                    tokens_out: ended.tokens_out,
                },
                EffectView::Emit { kind: EventKind::ImplFinished, payload: None },
                EffectView::Emit { kind: EventKind::ChecksStarted, payload: None },
            ]
        }),
{
}

/// An implementer that did not finish ends the task with its own words: as a model
/// that is unavailable, as a budget that ran out, or as an error. Its session is
/// closed and its worktree goes.
pub proof fn law_failed_implementers_end_the_task(a: AttemptView, job: Job, words: String)
    ensures
        ({
            let closed = seq![
                EffectView::FinishSession {
                    exit: ExitStatus::Error,
                    turns: None,
                    tokens_in: None,
                    tokens_out: None,
                },
                EffectView::RemoveWorktree,
            ];
            let gone = a.after_backend(job, BackendReply::Unavailable(words));
            let spent = a.after_backend(job, BackendReply::Budget(words));
            let broken = a.after_backend(job, BackendReply::Other(words));
            &&& gone.0.phase is Over && spent.0.phase is Over && broken.0.phase is Over
            &&& gone.1.effects == closed && spent.1.effects == closed && broken.1.effects == closed
            &&& gone.1.next == NextView::Fail(
                WorkerFailureView { kind: "model_unavailable"@, message: words@ },
            )
            &&& spent.1.next == NextView::Fail(
                WorkerFailureView { kind: "budget_exhausted"@, message: words@ },
            )
            &&& broken.1.next == NextView::Fail(
                WorkerFailureView { kind: "internal_error"@, message: words@ },
            )
        }),
{
}

/// A driven CLI that started is waited for; one that did not, or whose end is not
/// known, fails the task, its session closed and its worktree gone.
pub proof fn law_driven_sessions_are_waited_for(a: AttemptView, job: Job, error: Seq<char>)
    ensures
        a.after_spawn(None).0.phase is Joining,
        a.after_spawn(None).1.next is JoinDriven,
        a.after_spawn(None).1.effects.len() == 0,
        a.after_spawn(Some(error)).0.phase is Over,
        a.after_spawn(Some(error)).1.next == NextView::Fail(
            WorkerFailureView { kind: "internal_error"@, message: "driven spawn: "@ + error },
        ),
        a.after_join(job, None).0.phase is Over,
        a.after_join(job, None).1.next matches NextView::Fail(f) && f.kind == "internal_error"@,
        a.after_spawn(Some(error)).1.effects == a.after_join(job, None).1.effects,
        a.after_spawn(Some(error)).1.effects == seq![
            EffectView::FinishSession {
                exit: ExitStatus::Error,
                turns: None,
                tokens_in: None,
                tokens_out: None,
            },
            EffectView::RemoveWorktree,
        ],
{
}

/// A driven session that was stopped leaves a snapshot of its worktree, against
/// the pinned base, before anything is journaled; one that was rejected or broke
/// leaves none.
pub proof fn law_stopped_sessions_are_snapped(a: AttemptView, job: Job, ended: DrivenResult)
    requires
        !(ended.reason is Completed),
    ensures
        ({
            let (b, turn) = a.after_join(job, Some(ended));
            &&& (ended.reason is Wedged || ended.reason is TurnBudgetExceeded || ended.reason
                is Killed) <==> b.phase is Snapping
            &&& b.phase is Snapping ==> b.ended == Some(ended) && turn.effects.len() == 0
                && turn.next == (NextView::Snapshot {
                worktree: a.worktree,
                base: job.scope_base@,
            })
        }),
{
}

/// The fields of an event's payload.
pub open spec fn tells(effect: EffectView, kind: EventKind, fields: Map<Seq<char>, Json>) -> bool {
    effect == (EffectView::Emit { kind, payload: Some(json::compact_text(fields)) })
}

/// What is journaled of a driven session that did not complete: how it ended and
/// what it used, the reason under its own word, and, where it was stopped, what it
/// left behind. A kill is journaled as an interruption first, with who asked for
/// it. The worktree goes last.
pub proof fn law_stopped_sessions_are_journaled(
    a: AttemptView,
    job: Job,
    ended: DrivenResult,
    diff: Seq<char>,
) -> (failed: Map<Seq<char>, Json>)
    requires
        a.wf(job),
        a.phase is Joining,
        !(ended.reason is Completed),
    ensures
        ({
            let joined = a.after_join(job, Some(ended));
            let snapped = joined.0.after_snapshot(job, diff);
            let stopped = joined.0.phase is Snapping;
            let effects = if stopped {
                snapped.1.effects
            } else {
                joined.1.effects
            };
            let n = effects.len() as int;
            &&& effects[0] == (EffectView::FinishSession {
                exit: if ended.reason is Wedged {
                    ExitStatus::Wedged
                } else if ended.reason is Killed {
                    ExitStatus::Killed
                } else {
                    ExitStatus::Error
                },
                turns: Some(ended.turns),
                tokens_in: ended.tokens_in,
                tokens_out: ended.tokens_out,
            })
            &&& n == (if ended.reason is Killed {
                4int
            } else {
                3int
            })
            &&& effects[n - 1] is RemoveWorktree
            &&& tells(effects[n - 2], EventKind::Failed, failed)
            &&& stopped <==> failed.contains_key("partial_diff"@)
            &&& stopped ==> failed["partial_diff"@] == Json::Text(prompt::capped(diff))
            &&& failed.contains_key("kind"@)
            &&& failed["kind"@] == Json::Text(
                match ended.reason {
                    EndReason::PlanRejected { .. } => "plan_rejected"@,
                    EndReason::Wedged => "session_wedged"@,
                    EndReason::TurnBudgetExceeded => "turn_budget_exceeded"@,
                    EndReason::Killed(KillKind::Human) => "interrupted_human"@,
                    EndReason::Killed(KillKind::Advisor) => "interrupted_advisor"@,
                    _ => "internal_error"@,
                },
            )
            &&& ended.reason matches EndReason::PlanRejected { reason } ==> failed["reason"@]
                == Json::Text(reason@)
            &&& ended.reason matches EndReason::Failed(m) ==> failed["message"@] == Json::Text(m@)
            &&& ended.reason is TurnBudgetExceeded ==> failed["cap"@] == Json::Int(
                job.turn_cap as int,
            )
            &&& ended.reason matches EndReason::Killed(by) ==> tells(
                effects[1],
                EventKind::Interrupted,
                map![
                    "reason"@ => Json::Text("kill"@),
                    "kill_kind"@ => Json::Text(
                        match by {
                            KillKind::Human => "human"@,
                            KillKind::Advisor => "advisor"@,
                        },
                    ),
                    "partial_diff"@ => Json::Text(prompt::capped(diff)),
                ],
            )
        }),
{
    reveal_strlit("kind");
    reveal_strlit("message");
    reveal_strlit("reason");
    reveal_strlit("cap");
    reveal_strlit("partial_diff");
    assert("kind"@.len() == 4 && "message"@.len() == 7 && "reason"@.len() == 6);
    assert("cap"@.len() == 3 && "partial_diff"@.len() == 12);
    let left = if crate::attempt::wants_snapshot(ended.reason) {
        diff
    } else {
        Seq::empty()
    };
    crate::attempt::driven_failure(ended.reason, job.turn_cap, left)
}

/// What the mechanical gate found decides: files outside the allowlist, or too
/// many of them, end the task; a failing check leaves the work to be fixed in
/// place, committed as it is; and work that passed goes on to a verifier. What is
/// diffed is what was found changed, in the attempt's worktree.
pub proof fn law_gate_findings_decide(
    a: AttemptView,
    job: Job,
    command: Seq<char>,
    digest: Seq<char>,
    changed: Seq<Seq<char>>,
    count: nat,
    cap: nat,
)
    ensures
        ({
            let (b, turn) = a.after_gate(job, Ok(GateOutcomeView::Passed { changed }));
            &&& b.phase is DiffingForVerifier
            &&& b.changed == changed
            &&& b.worktree == a.worktree
            &&& turn.effects == seq![
                EffectView::Emit { kind: EventKind::ChecksPassed, payload: None },
            ]
            &&& turn.next matches NextView::DiffForVerifier(d) && d.worktree == a.worktree && d.base
                == job.scope_base@ && d.paths == changed
        }),
        ({
            let (b, turn) = a.after_gate(
                job,
                Ok(GateOutcomeView::ChecksFailed { command, output_digest: digest, changed }),
            );
            &&& b.phase is DiffingForRetry
            &&& b.check_failure == Some(CheckFailureView { command, output_digest: digest })
            &&& turn.effects.len() == 2
            &&& tells(
                turn.effects[0],
                EventKind::ChecksFailed,
                map!["command"@ => Json::Text(command), "output_digest"@ => Json::Text(digest)],
            )
            &&& turn.effects[1] == EffectView::Checkpoint(
                CommitRequestView {
                    worktree: a.worktree,
                    paths: changed,
                    message: "maestro: fix-in-place checkpoint — "@ + job.spec.title@,
                },
            )
            &&& turn.next matches NextView::DiffForRetry(d) && d.worktree == a.worktree && d.base
                == job.scope_base@ && d.paths == changed
        }),
        ({
            let (b, turn) = a.after_gate(
                job,
                Ok(GateOutcomeView::ScopeViolation { offending: changed }),
            );
            &&& b.phase is Over
            &&& turn.next == NextView::Settled(AttemptOutcomeView::ScopeViolation)
            &&& turn.effects.len() == 1
            &&& tells(
                turn.effects[0],
                EventKind::Failed,
                map![
                    "kind"@ => Json::Text("scope_violation"@),
                    "message"@ => Json::Text("changed paths fell outside the file allowlist"@),
                    "offending_paths"@ => json::text_list(changed),
                ],
            )
        }),
        ({
            let (b, turn) = a.after_gate(
                job,
                Ok(GateOutcomeView::TightenedScopeExceeded { changed: count, cap, files: changed }),
            );
            &&& b.phase is Over
            &&& turn.next == NextView::Settled(AttemptOutcomeView::ScopeViolation)
            &&& turn.effects.len() == 1
            &&& tells(
                turn.effects[0],
                EventKind::Failed,
                crate::attempt::tightened_failure(count, cap, changed),
            )
            &&& crate::attempt::tightened_failure(count, cap, changed)["kind"@] == Json::Text(
                "scope_violation"@,
            )
            &&& crate::attempt::tightened_failure(count, cap, changed)["changed"@] == Json::Int(
                count as int,
            )
            &&& crate::attempt::tightened_failure(count, cap, changed)["cap"@] == Json::Int(
                cap as int,
            )
            &&& crate::attempt::tightened_failure(count, cap, changed)["offending_paths"@]
                == json::text_list(changed)
        }),
        a.after_gate(job, Err(command)).0.phase is Over,
        a.after_gate(job, Err(command)).1.effects.len() == 0,
        a.after_gate(job, Err(command)).1.next == NextView::Fail(
            WorkerFailureView { kind: "internal_error"@, message: "gate: "@ + command },
        ),
{
    reveal_strlit("kind");
    reveal_strlit("message");
    reveal_strlit("reason");
    reveal_strlit("changed");
    reveal_strlit("cap");
    reveal_strlit("offending_paths");
    assert("kind"@.len() == 4 && "message"@.len() == 7 && "reason"@.len() == 6);
    assert("changed"@.len() == 7 && "cap"@.len() == 3 && "offending_paths"@.len() == 15);
    assert("changed"@[0] == 'c' && "message"@[0] == 'm');
    assert(crate::attempt::scope_failure(changed) =~= map![
        "kind"@ => Json::Text("scope_violation"@),
        "message"@ => Json::Text("changed paths fell outside the file allowlist"@),
        "offending_paths"@ => json::text_list(changed),
    ]);
}

/// A retry is handed the diff that was taken, or none, and the check that failed.
pub proof fn law_retries_get_the_failing_check(a: AttemptView, diff: Seq<char>)
    ensures
        a.after_retry_diff(Some(diff)).1.next matches NextView::Settled(
            AttemptOutcomeView::VerificationFailed(f),
        ) && f.diff == diff && f.check_failure == a.check_failure && f.report is None,
        a.after_retry_diff(None).1.next matches NextView::Settled(
            AttemptOutcomeView::VerificationFailed(f),
        ) && f.diff.len() == 0 && f.check_failure == a.check_failure && f.report is None,
        a.after_retry_diff(Some(diff)).1.effects.len() == 0,
        a.after_retry_diff(None).1.effects.len() == 0,
{
}

/// A verifier judges the diff that was taken, of the task itself, with every
/// earlier report before it, in the attempt's own worktree and under the task's
/// containment. It is the profile's verifier for the implementer's model; a
/// profile without one fails the task.
pub proof fn law_verifiers_judge_the_diff(a: AttemptView, job: Job, diff: Seq<char>)
    ensures
        ({
            let (b, turn) = a.after_verifier_diff(job, Ok(diff));
            let judge = roles::verifier_for(job.profile.roles.deep_view(), job.role.model@);
            &&& judge is None ==> b.phase is Over && (turn.next matches NextView::Fail(f) && f.kind
                == "model_unavailable"@)
            &&& judge matches Some(v) ==> {
                let mock = v.model == "mock"@ || v.kind == Some("mock"@);
                &&& b.phase is Verifying
                &&& b.diff == diff
                &&& b.changed == a.changed
                &&& b.worktree == a.worktree
                &&& turn.effects == seq![
                    EffectView::Emit { kind: EventKind::VerifyStarted, payload: None },
                    EffectView::OpenSession {
                        role: SessionRole::Verifier,
                        model: v.model,
                        kind: SessionKind::OneShotApi,
                        workspace: None,
                    },
                ]
                &&& turn.next matches NextView::Verify { backend, request } && {
                    &&& request.diff == diff
                    &&& request.spec == job.spec.deep_view()
                    &&& request.model == v.model
                    &&& request.base_url == v.base_url
                    &&& request.prior_reports == job.prior_reports.deep_view()
                    &&& request.worktree == a.worktree
                    &&& request.recipe == job.recipe.deep_view()
                    &&& request.gate_output
                        == "mechanical gate: allowlist ok; check commands ok"@
                    &&& request.meter_header == (if job.proxy_addr is Some && !mock {
                        Some(job.task_id@)
                    } else {
                        None
                    })
                    &&& backend is Mock <==> mock
                    &&& backend matches BackendView::Anthropic { base_url } ==> base_url == (
                    if job.proxy_addr is Some {
                        Some("http://"@ + job.proxy_addr->0@)
                    } else {
                        v.base_url
                    })
                }
            }
        }),
        a.after_verifier_diff(job, Err(diff)).0.phase is Over,
        a.after_verifier_diff(job, Err(diff)).1.next == NextView::Fail(
            WorkerFailureView { kind: "internal_error"@, message: "diff for verifier: "@ + diff },
        ),
{
}

/// A verifier's word decides: a pass is committed as it was gated, under the
/// task's title, and a failure is handed on with the report and the diff it judged.
/// Either way the report is stored, with the attempt it judged and how independent
/// its judge was.
pub proof fn law_verdicts_decide(a: AttemptView, job: Job, reply: VerifyReply)
    requires
        reply is Done,
    ensures
        ({
            let (b, turn) = a.after_verify(job, reply);
            let report = reply->report;
            &&& turn.effects[0] == (EffectView::SaveReport {
                independence: roles::independence(job.role.model@, job.judge()->0.model),
                attempt: job.attempt,
                body: report.body@,
            })
            &&& turn.effects[1] == (EffectView::FinishSession {
                exit: ExitStatus::Finished,
                turns: Some(reply->turns),
                tokens_in: Some(reply->tokens_in),
                tokens_out: Some(reply->tokens_out),
            })
            &&& report.verdict is Pass ==> b.phase is Committing && turn.effects.len() == 2
                && turn.next == NextView::Commit(
                CommitRequestView {
                    worktree: a.worktree,
                    paths: a.changed,
                    message: "maestro: "@ + job.spec.title@,
                },
            )
            &&& report.verdict is Fail ==> {
                &&& b.phase is Over
                &&& turn.effects.len() == 3
                &&& turn.effects[2] == (EffectView::Emit {
                    kind: EventKind::VerifyFailed,
                    payload: None,
                })
                &&& turn.next matches NextView::Settled(AttemptOutcomeView::VerificationFailed(f))
                    && f.diff == a.diff && f.report == Some(report.deep_view())
                    && f.check_failure is None
            }
        }),
{
}

/// A verifier that cannot be reached ends the task, and so does one that came to
/// nothing twice; work that could not be committed does not pass.
pub proof fn law_verification_is_never_waived(a: AttemptView, job: Job, words: String)
    ensures
        a.after_verify(job, VerifyReply::Unavailable(words)).0.phase is Over,
        a.after_verify(job, VerifyReply::Unavailable(words)).1.next == NextView::Fail(
            WorkerFailureView { kind: "model_unavailable"@, message: words@ },
        ),
        a.verifier_failures != 0 ==> a.after_verify(job, VerifyReply::Other(words)).1.next
            == NextView::Fail(
            WorkerFailureView {
                kind: "internal_error"@,
                message: "verifier failed twice: "@ + words@,
            },
        ),
        a.verifier_failures == 0 ==> a.after_verify(job, VerifyReply::Other(words)).0
            == (AttemptView { verifier_failures: 1, ..a }),
        a.after_commit(Some(words@)).0.phase is Over,
        a.after_commit(Some(words@)).1.effects.len() == 0,
        a.after_commit(Some(words@)).1.next == NextView::Fail(
            WorkerFailureView { kind: "internal_error"@, message: "commit: "@ + words@ },
        ),
        a.after_commit(None).1.next == NextView::Settled(AttemptOutcomeView::Passed),
{
}

/// An attempt never leaves its worktree once it has one.
pub proof fn law_attempts_keep_their_worktree(a: AttemptView, job: Job, answer: Answer)
    requires
        a.wf(job),
        awaits(a.phase, answer),
        !(a.phase is Idle || a.phase is Probing || a.phase is Cutting),
    ensures
        step(a, job, answer).0.worktree == a.worktree,
{
}

/// An attempt that has not begun has no worktree and has found nothing.
pub proof fn law_attempts_begin_with_nothing(job: Job)
    ensures
        ({
            let a = AttemptView::idle();
            &&& a.phase is Idle
            &&& a.wf(job)
            &&& a.worktree.len() == 0 && a.changed.len() == 0 && a.diff.len() == 0
            &&& a.check_failure is None && a.ended is None && a.verifier_failures == 0
        }),
{
}

/// An answer from outside is taken as it was given: its words, its error, the
/// contained command, and what the mechanical gate found.
pub proof fn law_answers_are_taken_as_given(
    said: String,
    program: String,
    args: Vec<String>,
    found: crate::gate::GateOutcome,
)
    ensures
        crate::attempt::words(Ok(said)) == Ok::<Seq<char>, Seq<char>>(said@),
        crate::attempt::words(Err(said)) == Err::<Seq<char>, Seq<char>>(said@),
        crate::attempt::wrapped_words(Ok((program, args))) == Ok::<
            (Seq<char>, Seq<Seq<char>>),
            Seq<char>,
        >((program@, args.deep_view())),
        crate::attempt::wrapped_words(Err(said)) == Err::<(Seq<char>, Seq<Seq<char>>), Seq<char>>(
            said@,
        ),
        crate::attempt::gate_words(Ok(found)) == Ok::<GateOutcomeView, Seq<char>>(
            found.deep_view(),
        ),
        crate::attempt::gate_words(Err(said)) == Err::<GateOutcomeView, Seq<char>>(said@),
{
}

/// The message of a stopped session says what stopped it: the cap it went over, the
/// silence, or the kill; the message of too many changed files says how many there
/// were and how many there may be.
pub proof fn law_stops_say_the_numbers(cap: u32, changed: nat, most: nat)
    ensures
        text::contains_text(crate::attempt::turn_cap_words(cap), text::decimal(cap as nat)),
        text::contains_text(crate::attempt::tightened_words(changed, most), text::decimal(changed)),
        text::contains_text(crate::attempt::tightened_words(changed, most), text::decimal(most)),
{
    text::lemma_stands_inside(
        "driven CLI exceeded its per-attempt turn cap of "@,
        text::decimal(cap as nat),
        " and was hard-stopped"@,
    );
    let a = "changed "@;
    let b = " files, exceeding the tightened allowlist cap of "@;
    let c = " (containment downgrade / codex_tighten)"@;
    let x = text::decimal(changed);
    let y = text::decimal(most);
    text::lemma_stands_inside(a, x, b + y + c);
    assert(a + x + (b + y + c) =~= crate::attempt::tightened_words(changed, most));
    text::lemma_stands_inside(a + x + b, y, c);
}

/// What is said of an attempt and of its requests is what they hold, field by field:
/// nothing of them is left out.
pub proof fn law_requests_are_said_whole(
    driven_config: crate::attempt::DrivenConfig,
    work_request: crate::attempt::WorkRequest,
    gate_request: crate::attempt::GateRequest,
    diff_request: crate::attempt::DiffRequest,
    commit_request: crate::attempt::CommitRequest,
    verify_request: crate::attempt::VerifyRequest,
    attempt: crate::attempt::Attempt,
)
    ensures
        driven_config.deep_view().program == driven_config.program.deep_view(),
        driven_config.deep_view().args == driven_config.args.deep_view(),
        driven_config.deep_view().cwd == driven_config.cwd.deep_view(),
        driven_config.deep_view().prompt == driven_config.prompt.deep_view(),
        driven_config.deep_view().plan_marker == driven_config.plan_marker.deep_view(),
        driven_config.deep_view().watchdog_seconds == driven_config.watchdog_seconds,
        driven_config.deep_view().plan_timeout_seconds == driven_config.plan_timeout_seconds,
        driven_config.deep_view().plan_ceiling_seconds == driven_config.plan_ceiling_seconds,
        driven_config.deep_view().turn_cap == driven_config.turn_cap,
        driven_config.deep_view().max_budget_usd_bits == driven_config.max_budget_usd_bits,
        driven_config.deep_view().env_remove == driven_config.env_remove.deep_view(),
        driven_config.deep_view().structured == driven_config.structured,
        driven_config.deep_view().mock_checker == driven_config.mock_checker,
        work_request.deep_view().spec == work_request.spec.deep_view(),
        work_request.deep_view().worktree == work_request.worktree.deep_view(),
        work_request.deep_view().house_rules == work_request.house_rules.deep_view(),
        work_request.deep_view().model == work_request.model.deep_view(),
        work_request.deep_view().task_header == work_request.task_header.deep_view(),
        gate_request.deep_view().worktree == gate_request.worktree.deep_view(),
        gate_request.deep_view().base == gate_request.base.deep_view(),
        gate_request.deep_view().allowlist == gate_request.allowlist.deep_view(),
        gate_request.deep_view().max_changed_files == gate_request.max_changed_files,
        gate_request.deep_view().commands == gate_request.commands.deep_view(),
        gate_request.deep_view().sandbox == gate_request.sandbox.deep_view(),
        diff_request.deep_view().worktree == diff_request.worktree.deep_view(),
        diff_request.deep_view().base == diff_request.base.deep_view(),
        diff_request.deep_view().paths == diff_request.paths.deep_view(),
        commit_request.deep_view().worktree == commit_request.worktree.deep_view(),
        commit_request.deep_view().paths == commit_request.paths.deep_view(),
        commit_request.deep_view().message == commit_request.message.deep_view(),
        verify_request.deep_view().spec == verify_request.spec.deep_view(),
        verify_request.deep_view().model == verify_request.model.deep_view(),
        verify_request.deep_view().base_url == verify_request.base_url.deep_view(),
        verify_request.deep_view().diff == verify_request.diff.deep_view(),
        verify_request.deep_view().gate_output == verify_request.gate_output.deep_view(),
        verify_request.deep_view().prior_reports == verify_request.prior_reports.deep_view(),
        verify_request.deep_view().meter_header == verify_request.meter_header.deep_view(),
        verify_request.deep_view().worktree == verify_request.worktree.deep_view(),
        verify_request.deep_view().recipe == verify_request.recipe.deep_view(),
        attempt.deep_view().phase == attempt.phase,
        attempt.deep_view().worktree == attempt.worktree@,
        attempt.deep_view().changed == attempt.changed.deep_view(),
        attempt.deep_view().check_failure == attempt.check_failure.deep_view(),
        attempt.deep_view().diff == attempt.diff@,
        attempt.deep_view().ended == attempt.ended,
        attempt.deep_view().verifier_failures == attempt.verifier_failures as int,
{
}

} // verus!
