//! Reconciling what an earlier daemon left behind.

use crate::attempt::{self, Effect, EffectView};
use crate::domain::EventKind;
use crate::json::{self, compact, object, put_text, Json};
use crate::payload::{self, failure_object};
use crate::prompt::{self, cap_diff};
use crate::text::same;
use vstd::prelude::*;

verus! {

/// How a task's state is treated when a daemon starts.
#[derive(Debug, Clone, Copy, PartialEq, Eq, Structural)]
pub enum TeardownClass {
    /// It is at rest: left alone.
    Skip,
    /// A session was running: it was interrupted and has failed.
    Active,
    /// Nothing had run yet: it has failed.
    PreSession,
}

/// The states in which a task is at rest.
pub open spec fn resting(state: Seq<char>) -> bool {
    state == "verify_passed"@ || state == "blocked"@ || state == "merged"@ || state == "failed"@
}

/// The states in which a session was running.
pub open spec fn running(state: Seq<char>) -> bool {
    ||| state == "spawned"@
    ||| state == "iterating"@
    ||| state == "impl_finished"@
    ||| state == "checks_started"@
    ||| state == "checks_passed"@
    ||| state == "checks_failed"@
    ||| state == "verify_started"@
    ||| state == "verify_failed"@
    ||| state == "escalated"@
    ||| state == "containment_downgraded"@
    ||| state == "interrupted"@
}

/// The states of a task that had not run yet.
pub open spec fn waiting(state: Seq<char>) -> bool {
    state == "created"@ || state == "queued"@
}

/// How a state is treated. A state nobody knows is left alone.
pub open spec fn class_of(state: Seq<char>) -> TeardownClass {
    if resting(state) {
        TeardownClass::Skip
    } else if running(state) {
        TeardownClass::Active
    } else if waiting(state) {
        TeardownClass::PreSession
    } else {
        TeardownClass::Skip
    }
}

/// How a task's state is treated when a daemon starts.
pub fn teardown_class(state: &str) -> (r: TeardownClass)
    ensures
        r == class_of(state@),
{
    if same(state, "verify_passed") || same(state, "blocked") || same(state, "merged") || same(
        state,
        "failed",
    ) {
        TeardownClass::Skip
    } else if same(state, "spawned") || same(state, "iterating") || same(state, "impl_finished")
        || same(state, "checks_started") || same(state, "checks_passed") || same(
        state,
        "checks_failed",
    ) || same(state, "verify_started") || same(state, "verify_failed") || same(state, "escalated")
        || same(state, "containment_downgraded") || same(state, "interrupted") {
        TeardownClass::Active
    } else if same(state, "created") || same(state, "queued") {
        TeardownClass::PreSession
    } else {
        TeardownClass::Skip
    }
}

/// The fields of the event that records an interrupted session.
pub open spec fn restart_interruption(diff: Seq<char>) -> Map<Seq<char>, Json> {
    map![
        "reason"@ => Json::Text("daemon_restart"@),
        "partial_diff"@ => Json::Text(prompt::capped(diff)),
    ]
}

/// The fields of the terminal event of a task that a restart ended.
pub open spec fn restart_failure(message: Seq<char>) -> Map<Seq<char>, Json> {
    payload::failure("internal_error"@, message).insert("reason"@, Json::Text("daemon_restart"@))
}

/// The effects of reconciling one task: what is in its worktree is `diff`, and
/// `removable` says whether there is a worktree to remove.
pub open spec fn teardown(state: Seq<char>, diff: Seq<char>, removable: bool) -> Seq<EffectView> {
    match class_of(state) {
        TeardownClass::Skip => Seq::empty(),
        TeardownClass::PreSession => seq![
            attempt::event(
                EventKind::Failed,
                restart_failure("task orphaned before spawn by daemon restart"@),
            ),
        ],
        TeardownClass::Active => (if state == "interrupted"@ {
            Seq::empty()
        } else {
            seq![attempt::event(EventKind::Interrupted, restart_interruption(diff))]
        }) + seq![
            attempt::event(
                EventKind::Failed,
                restart_failure("in-flight session torn down by daemon restart"@),
            ),
        ] + (if removable {
            seq![EffectView::RemoveWorktree]
        } else {
            Seq::empty()
        }),
    }
}

fn failure(message: &str) -> (r: Effect)
    ensures
        r.deep_view() == attempt::event(EventKind::Failed, restart_failure(message@)),
{
    let mut m = failure_object("internal_error", message);
    put_text(&mut m, "reason", "daemon_restart");
    Effect::Emit { kind: EventKind::Failed, payload: Some(compact(m)) }
}

fn interruption(diff: &str) -> (r: Effect)
    ensures
        r.deep_view() == attempt::event(EventKind::Interrupted, restart_interruption(diff@)),
{
    let mut m = object();
    put_text(&mut m, "reason", "daemon_restart");
    put_text(&mut m, "partial_diff", &cap_diff(diff));
    assert(json::fields(m) =~= restart_interruption(diff@));
    Effect::Emit { kind: EventKind::Interrupted, payload: Some(compact(m)) }
}

/// Reconciles one task that an earlier daemon left behind.
pub fn reconcile_orphaned_task(state: &str, diff: &str, removable: bool) -> (r: Vec<Effect>)
    ensures
        r.deep_view() == teardown(state@, diff@, removable),
{
    let mut effects: Vec<Effect> = Vec::new();
    match teardown_class(state) {
        TeardownClass::Skip => {},
        TeardownClass::PreSession => {
            effects.push(failure("task orphaned before spawn by daemon restart"));
        },
        TeardownClass::Active => {
            if !same(state, "interrupted") {
                effects.push(interruption(diff));
            }
            effects.push(failure("in-flight session torn down by daemon restart"));
            if removable {
                effects.push(Effect::RemoveWorktree);
            }
        },
    }
    assert(effects.deep_view() =~= teardown(state@, diff@, removable));
    effects
}

/// What is known of one task when a daemon starts.
#[derive(Debug)]
pub struct Orphan {
    pub state: String,
    /// The diff of its worktree; empty where there is none.
    pub diff: String,
    /// Whether its repository is known and its worktree exists.
    pub removable: bool,
}

/// How many tasks were torn down.
#[derive(Debug, Clone, Copy, PartialEq, Eq, Structural)]
pub struct Reconciled {
    pub active: usize,
    pub pre_session: usize,
}

/// How many of the tasks are of a class.
pub open spec fn count_class(tasks: Seq<Orphan>, class: TeardownClass) -> int
    decreases tasks.len(),
{
    if tasks.len() == 0 {
        0
    } else {
        count_class(tasks.drop_last(), class) + (if class_of(tasks.last().state@) == class {
            1int
        } else {
            0int
        })
    }
}

/// Reconciles every task that an earlier daemon left behind: the effects for
/// each, in order, and how many were torn down.
pub fn reconcile_orphaned_tasks(tasks: &Vec<Orphan>) -> (r: (Vec<Vec<Effect>>, Reconciled))
    ensures
        r.0@.len() == tasks@.len(),
        forall|i: int|
            0 <= i < tasks@.len() ==> (#[trigger] r.0@[i]).deep_view() == teardown(
                tasks@[i].state@,
                tasks@[i].diff@,
                tasks@[i].removable,
            ),
        r.1.active == count_class(tasks@, TeardownClass::Active),
        r.1.pre_session == count_class(tasks@, TeardownClass::PreSession),
{
    let mut effects: Vec<Vec<Effect>> = Vec::new();
    let mut active: usize = 0;
    let mut pre_session: usize = 0;
    let mut i: usize = 0;
    let count: usize = tasks.len();
    assert(tasks@.take(0) =~= Seq::<Orphan>::empty());
    while i < count
        invariant
            count == tasks@.len(),
            i <= count,
            effects@.len() == i,
            active <= i,
            pre_session <= i,
            active == count_class(tasks@.take(i as int), TeardownClass::Active),
            pre_session == count_class(tasks@.take(i as int), TeardownClass::PreSession),
            forall|j: int|
                0 <= j < i ==> (#[trigger] effects@[j]).deep_view() == teardown(
                    tasks@[j].state@,
                    tasks@[j].diff@,
                    tasks@[j].removable,
                ),
        decreases count - i,
    {
        let task = &tasks[i];
        proof {
            assert(tasks@.take(i + 1).drop_last() =~= tasks@.take(i as int));
        }
        match teardown_class(&task.state) {
            TeardownClass::Active => {
                active = active + 1;
            },
            TeardownClass::PreSession => {
                pre_session = pre_session + 1;
            },
            TeardownClass::Skip => {},
        }
        effects.push(reconcile_orphaned_task(&task.state, &task.diff, task.removable));
        i = i + 1;
    }
    assert(tasks@.take(count as int) =~= tasks@);
    (effects, Reconciled { active, pre_session })
}

// ---------------------------------------------------------------------------
// Laws
// ---------------------------------------------------------------------------

/// Every event the journal knows is classified by what it means: the resting
/// ones are left alone, the two before a session are pre-session, and all others
/// are active.
pub proof fn law_every_event_is_classified(kind: EventKind)
    ensures
        class_of(kind.text()) == (match kind {
            EventKind::VerifyPassed => TeardownClass::Skip,
            EventKind::Blocked => TeardownClass::Skip,
            EventKind::Merged => TeardownClass::Skip,
            EventKind::Failed => TeardownClass::Skip,
            EventKind::Created => TeardownClass::PreSession,
            EventKind::Queued => TeardownClass::PreSession,
            _ => TeardownClass::Active,
        }),
{
    reveal_strlit("verify_passed");
    reveal_strlit("blocked");
    reveal_strlit("merged");
    reveal_strlit("failed");
    reveal_strlit("spawned");
    reveal_strlit("iterating");
    reveal_strlit("impl_finished");
    reveal_strlit("checks_started");
    reveal_strlit("checks_passed");
    reveal_strlit("checks_failed");
    reveal_strlit("verify_started");
    reveal_strlit("verify_failed");
    reveal_strlit("escalated");
    reveal_strlit("containment_downgraded");
    reveal_strlit("interrupted");
    reveal_strlit("created");
    reveal_strlit("queued");
    let state = kind.text();
    if kind is Created || kind is Queued {
        assert(!resting(state) && !running(state)) by {
            assert(state[0] == 'c' || state[0] == 'q');
            assert(state.len() <= 7);
        }
    }
    if kind is Interrupted || kind is Escalated || kind is ContainmentDowngraded || kind is Spawned
        || kind is Iterating || kind is ImplFinished {
        assert(!resting(state)) by {
            assert(state[0] == 'i' || state[0] == 'e' || state[0] == 'c' || state[0] == 's');
            assert("verify_passed"@[0] == 'v' && "blocked"@[0] == 'b' && "merged"@[0] == 'm'
                && "failed"@[0] == 'f');
        }
    }
    if kind is VerifyStarted || kind is VerifyFailed {
        assert(!resting(state)) by {
            assert(state[7] != "verify_passed"@[7]);
            assert(state[0] == 'v');
        }
    }
    if kind is ChecksStarted || kind is ChecksPassed || kind is ChecksFailed {
        assert(!resting(state)) by {
            assert(state[0] == 'c');
        }
    }
}

/// A task at rest is never touched: verified, blocked, merged and failed tasks
/// stay as they are.
pub proof fn law_resting_tasks_are_untouched(state: Seq<char>, diff: Seq<char>, removable: bool)
    requires
        resting(state),
    ensures
        teardown(state, diff, removable).len() == 0,
{
}

/// A task that is torn down fails exactly once, and its failure is the last
/// event it gets; it is recorded as interrupted at most once, and only where a
/// session was running and that was not yet on record.
pub proof fn law_teardown_fails_once(state: Seq<char>, diff: Seq<char>, removable: bool)
    requires
        !(class_of(state) is Skip),
    ensures
        ({
            let effects = teardown(state, diff, removable);
            let failed = if running(state) && state != "interrupted"@ {
                1int
            } else {
                0int
            };
            &&& effects[failed] matches EffectView::Emit { kind, .. } && kind is Failed
            &&& failed == 1 ==> (effects[0] matches EffectView::Emit { kind, .. } && kind
                is Interrupted)
            &&& forall|i: int|
                failed < i < effects.len() ==> #[trigger] effects[i] is RemoveWorktree
        }),
{
}

/// The state of a task once effects were carried out: the last event that was
/// recorded of it.
pub open spec fn state_after(state: Seq<char>, effects: Seq<EffectView>) -> Seq<char>
    decreases effects.len(),
{
    if effects.len() == 0 {
        state
    } else {
        match effects.last() {
            EffectView::Emit { kind, .. } => kind.text(),
            _ => state_after(state, effects.drop_last()),
        }
    }
}

proof fn lemma_torn_down_tasks_rest(state: Seq<char>, diff: Seq<char>, removable: bool)
    ensures
        class_of(state_after(state, teardown(state, diff, removable))) is Skip,
{
    reveal_with_fuel(state_after, 3);
    let effects = teardown(state, diff, removable);
    match class_of(state) {
        TeardownClass::Skip => {},
        TeardownClass::PreSession => {
            assert(state_after(state, effects) == "failed"@);
        },
        TeardownClass::Active => {
            let failed = if removable {
                effects.drop_last()
            } else {
                effects
            };
            assert(failed.last() matches EffectView::Emit { kind, .. } && kind is Failed);
            assert(state_after(state, failed) == "failed"@);
        },
    }
}

/// Reconciling twice does nothing the second time: where every task is in the
/// state that the first run left it in, none is torn down again, whatever lies in
/// its worktree.
pub proof fn law_reconciling_twice_does_nothing_more(first: Seq<Orphan>, second: Seq<Orphan>)
    requires
        second.len() == first.len(),
        forall|i: int|
            0 <= i < first.len() ==> (#[trigger] second[i]).state@ == state_after(
                first[i].state@,
                teardown(first[i].state@, first[i].diff@, first[i].removable),
            ),
    ensures
        forall|i: int|
            0 <= i < second.len() ==> teardown(
                (#[trigger] second[i]).state@,
                second[i].diff@,
                second[i].removable,
            ) == Seq::<EffectView>::empty(),
        count_class(second, TeardownClass::Active) == 0,
        count_class(second, TeardownClass::PreSession) == 0,
    decreases first.len(),
{
    if first.len() > 0 {
        let a = first.drop_last();
        let b = second.drop_last();
        assert forall|i: int| 0 <= i < a.len() implies (#[trigger] b[i]).state@ == state_after(
            a[i].state@,
            teardown(a[i].state@, a[i].diff@, a[i].removable),
        ) by {
            assert(b[i] == second[i]);
        }
        law_reconciling_twice_does_nothing_more(a, b);
        let n = first.len() - 1;
        lemma_torn_down_tasks_rest(first[n].state@, first[n].diff@, first[n].removable);
        assert(second[n].state@ == state_after(
            first[n].state@,
            teardown(first[n].state@, first[n].diff@, first[n].removable),
        ));
        assert forall|i: int| 0 <= i < second.len() implies teardown(
            (#[trigger] second[i]).state@,
            second[i].diff@,
            second[i].removable,
        ) == Seq::<EffectView>::empty() by {
            if i < n {
                assert(b[i] == second[i]);
            }
        }
    }
}

/// A task is torn down by its state alone: one at rest, and one in a state that is
/// not known, is left as it is.
pub proof fn law_unknown_states_are_left_alone(state: Seq<char>, diff: Seq<char>, removable: bool)
    requires
        !running(state),
        !waiting(state),
    ensures
        teardown(state, diff, removable).len() == 0,
        class_of(state) is Skip,
{
}

/// A session that was running is journaled as interrupted with what it left, unless
/// it is already, then as failed, and its worktree goes where it can be removed; a
/// task that had not run yet is only journaled as failed. Both name the restart.
pub proof fn law_orphans_are_torn_down(state: Seq<char>, diff: Seq<char>, removable: bool)
    requires
        running(state) || waiting(state),
        !resting(state),
    ensures
        ({
            let effects = teardown(state, diff, removable);
            let interrupted = EffectView::Emit {
                kind: EventKind::Interrupted,
                payload: Some(
                    json::compact_text(
                        map![
                            "reason"@ => Json::Text("daemon_restart"@),
                            "partial_diff"@ => Json::Text(prompt::capped(diff)),
                        ],
                    ),
                ),
            };
            let failed = |message: Seq<char>|
                EffectView::Emit {
                    kind: EventKind::Failed,
                    payload: Some(
                        json::compact_text(
                            map![
                                "kind"@ => Json::Text("internal_error"@),
                                "message"@ => Json::Text(message),
                                "reason"@ => Json::Text("daemon_restart"@),
                            ],
                        ),
                    ),
                };
            let torn = failed("in-flight session torn down by daemon restart"@);
            &&& running(state) && state != "interrupted"@ && removable ==> effects == seq![
                interrupted,
                torn,
                EffectView::RemoveWorktree,
            ]
            &&& running(state) && state != "interrupted"@ && !removable ==> effects == seq![
                interrupted,
                torn,
            ]
            &&& state == "interrupted"@ && removable ==> effects == seq![
                torn,
                EffectView::RemoveWorktree,
            ]
            &&& state == "interrupted"@ && !removable ==> effects == seq![torn]
            &&& !running(state) ==> effects == seq![
                failed("task orphaned before spawn by daemon restart"@),
            ]
        }),
{
    let a = "in-flight session torn down by daemon restart"@;
    let b = "task orphaned before spawn by daemon restart"@;
    assert(restart_failure(a) =~= map![
        "kind"@ => Json::Text("internal_error"@),
        "message"@ => Json::Text(a),
        "reason"@ => Json::Text("daemon_restart"@),
    ]);
    assert(restart_failure(b) =~= map![
        "kind"@ => Json::Text("internal_error"@),
        "message"@ => Json::Text(b),
        "reason"@ => Json::Text("daemon_restart"@),
    ]);
}

/// What is counted is every task of a class, and no other.
pub proof fn law_orphans_are_counted_by_class(tasks: Seq<Orphan>, class: TeardownClass)
    ensures
        count_class(tasks, class) == tasks.filter(
            |t: Orphan| class_of(t.state@) == class,
        ).len(),
    decreases tasks.len(),
{
    reveal(Seq::filter);
    if tasks.len() > 0 {
        law_orphans_are_counted_by_class(tasks.drop_last(), class);
    }
}

/// Every state that is torn down or left at rest is the state of some event: no
/// other word is ever taken for one.
pub proof fn law_only_journaled_states_are_known(state: Seq<char>)
    ensures
        resting(state) || running(state) || waiting(state) ==> exists|kind: EventKind|
            state == #[trigger] kind.text(),
{
    if resting(state) || running(state) || waiting(state) {
        assert(state == EventKind::VerifyPassed.text() || state == EventKind::Blocked.text()
            || state == EventKind::Merged.text() || state == EventKind::Failed.text() || state
            == EventKind::Spawned.text() || state == EventKind::Iterating.text() || state
            == EventKind::ImplFinished.text() || state == EventKind::ChecksStarted.text() || state
            == EventKind::ChecksPassed.text() || state == EventKind::ChecksFailed.text() || state
            == EventKind::VerifyStarted.text() || state == EventKind::VerifyFailed.text() || state
            == EventKind::Escalated.text() || state == EventKind::ContainmentDowngraded.text()
            || state == EventKind::Interrupted.text() || state == EventKind::Created.text() || state
            == EventKind::Queued.text());
    }
}

} // verus!
