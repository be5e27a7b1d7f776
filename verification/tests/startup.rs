use maestro::attempt::Effect;
use maestro::domain::EventKind;
use maestro::startup::{
    reconcile_orphaned_task, reconcile_orphaned_tasks, teardown_class, Orphan, TeardownClass,
};

fn kinds(effects: &[Effect]) -> Vec<String> {
    effects
        .iter()
        .map(|e| match e {
            Effect::Emit { kind, payload: Some(p) } => {
                let v: serde_json::Value = serde_json::from_str(p).unwrap();
                assert_eq!(v["reason"], "daemon_restart");
                kind.as_str().to_string()
            }
            Effect::RemoveWorktree => "remove".to_string(),
            other => panic!("unexpected effect {other:?}"),
        })
        .collect()
}

#[test]
fn states_are_classified() {
    for s in ["verify_passed", "blocked", "merged", "failed", "unheard_of", ""] {
        assert_eq!(teardown_class(s), TeardownClass::Skip, "{s}");
    }
    for s in ["created", "queued"] {
        assert_eq!(teardown_class(s), TeardownClass::PreSession, "{s}");
    }
    for s in [
        "spawned",
        "iterating",
        "impl_finished",
        "checks_started",
        "checks_passed",
        "checks_failed",
        "verify_started",
        "verify_failed",
        "escalated",
        "containment_downgraded",
        "interrupted",
    ] {
        assert_eq!(teardown_class(s), TeardownClass::Active, "{s}");
    }
}

#[test]
fn running_tasks_are_interrupted_and_fail() {
    let effects = reconcile_orphaned_task("iterating", "diff", true);
    assert_eq!(kinds(&effects), ["interrupted", "failed", "remove"]);
    match &effects[0] {
        Effect::Emit { payload: Some(p), .. } => {
            let v: serde_json::Value = serde_json::from_str(p).unwrap();
            assert_eq!(v["partial_diff"], "diff");
        }
        other => panic!("unexpected effect {other:?}"),
    }
    match &effects[1] {
        Effect::Emit { kind: EventKind::Failed, payload: Some(p) } => {
            let v: serde_json::Value = serde_json::from_str(p).unwrap();
            assert_eq!(v["kind"], "internal_error");
            assert_eq!(v["message"], "in-flight session torn down by daemon restart");
        }
        other => panic!("unexpected effect {other:?}"),
    }
    assert_eq!(kinds(&reconcile_orphaned_task("iterating", "", false)), ["interrupted", "failed"]);
    assert_eq!(kinds(&reconcile_orphaned_task("interrupted", "", true)), ["failed", "remove"]);
}

#[test]
fn waiting_tasks_fail_and_resting_ones_stay() {
    assert_eq!(kinds(&reconcile_orphaned_task("queued", "x", true)), ["failed"]);
    assert!(reconcile_orphaned_task("blocked", "x", true).is_empty());
    assert!(reconcile_orphaned_task("verify_passed", "x", true).is_empty());
}

#[test]
fn the_torn_down_are_counted() {
    let orphan = |state: &str| Orphan {
        state: state.to_string(),
        diff: String::new(),
        removable: false,
    };
    let tasks = vec![orphan("spawned"), orphan("merged"), orphan("created"), orphan("escalated")];
    let (effects, counts) = reconcile_orphaned_tasks(&tasks);
    assert_eq!((counts.active, counts.pre_session), (2, 1));
    let lengths: Vec<usize> = effects.iter().map(Vec::len).collect();
    assert_eq!(lengths, [2, 0, 1, 2]);
}

#[test]
fn reconciling_twice_does_nothing_more() {
    let states = ["spawned", "interrupted", "created", "blocked", "unheard_of"];
    let orphan = |state: &str| Orphan {
        state: state.to_string(),
        diff: "left".to_string(),
        removable: true,
    };
    let tasks: Vec<Orphan> = states.iter().map(|s| orphan(s)).collect();
    let (effects, _) = reconcile_orphaned_tasks(&tasks);
    let later: Vec<Orphan> = tasks
        .iter()
        .zip(&effects)
        .map(|(task, effects)| {
            let last = effects.iter().rev().find_map(|e| match e {
                Effect::Emit { kind, .. } => Some(kind.as_str()),
                _ => None,
            });
            orphan(last.unwrap_or(&task.state))
        })
        .collect();
    let (effects, counts) = reconcile_orphaned_tasks(&later);
    assert_eq!((counts.active, counts.pre_session), (0, 0));
    assert!(effects.iter().all(Vec::is_empty));
}
