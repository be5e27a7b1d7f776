//! The vocabulary of the journal: tiers, events, sessions and verdicts.

use vstd::prelude::*;

verus! {

/// A rung of the model ladder.
#[derive(Debug, Clone, Copy, PartialEq, Eq, Structural)]
pub enum Tier {
    T0,
    T1,
    T2,
}

impl Tier {
    /// The rung as a number.
    pub open spec fn rank(self) -> int {
        match self {
            Tier::T0 => 0,
            Tier::T1 => 1,
            Tier::T2 => 2,
        }
    }

    /// The rung as a number.
    pub fn as_int(self) -> (r: i64)
        ensures
            r == self.rank(),
    {
        match self {
            Tier::T0 => 0,
            Tier::T1 => 1,
            Tier::T2 => 2,
        }
    }
}

/// A task lifecycle event; the latest one is the task's state.
#[derive(Debug, Clone, Copy, PartialEq, Eq, Structural)]
pub enum EventKind {
    Created,
    Queued,
    Spawned,
    Iterating,
    ImplFinished,
    ChecksStarted,
    ChecksPassed,
    ChecksFailed,
    VerifyStarted,
    VerifyPassed,
    VerifyFailed,
    Escalated,
    Blocked,
    ContainmentDowngraded,
    Interrupted,
    Merged,
    Failed,
}

impl EventKind {
    /// The word the journal writes for the event.
    pub open spec fn text(self) -> Seq<char> {
        match self {
            EventKind::Created => "created"@,
            EventKind::Queued => "queued"@,
            EventKind::Spawned => "spawned"@,
            EventKind::Iterating => "iterating"@,
            EventKind::ImplFinished => "impl_finished"@,
            EventKind::ChecksStarted => "checks_started"@,
            EventKind::ChecksPassed => "checks_passed"@,
            EventKind::ChecksFailed => "checks_failed"@,
            EventKind::VerifyStarted => "verify_started"@,
            EventKind::VerifyPassed => "verify_passed"@,
            EventKind::VerifyFailed => "verify_failed"@,
            EventKind::Escalated => "escalated"@,
            EventKind::Blocked => "blocked"@,
            EventKind::ContainmentDowngraded => "containment_downgraded"@,
            EventKind::Interrupted => "interrupted"@,
            EventKind::Merged => "merged"@,
            EventKind::Failed => "failed"@,
        }
    }

    /// The word the journal writes for the event.
    pub fn as_str(self) -> (r: &'static str)
        ensures
            r@ == self.text(),
    {
        match self {
            EventKind::Created => "created",
            EventKind::Queued => "queued",
            EventKind::Spawned => "spawned",
            EventKind::Iterating => "iterating",
            EventKind::ImplFinished => "impl_finished",
            EventKind::ChecksStarted => "checks_started",
            EventKind::ChecksPassed => "checks_passed",
            EventKind::ChecksFailed => "checks_failed",
            EventKind::VerifyStarted => "verify_started",
            EventKind::VerifyPassed => "verify_passed",
            EventKind::VerifyFailed => "verify_failed",
            EventKind::Escalated => "escalated",
            EventKind::Blocked => "blocked",
            EventKind::ContainmentDowngraded => "containment_downgraded",
            EventKind::Interrupted => "interrupted",
            EventKind::Merged => "merged",
            EventKind::Failed => "failed",
        }
    }
}

/// How a session ended.
#[derive(Debug, Clone, Copy, PartialEq, Eq, Structural)]
pub enum ExitStatus {
    /// The session ran to its end.
    Finished,
    Error,
    Wedged,
    Killed,
}

/// What kind of session runs a model.
#[derive(Debug, Clone, Copy, PartialEq, Eq, Structural)]
pub enum SessionKind {
    /// One request to a provider API.
    OneShotApi,
    /// A CLI driven over a pseudo-terminal.
    DrivenPty,
}

/// What a session is for.
#[derive(Debug, Clone, Copy, PartialEq, Eq, Structural)]
pub enum SessionRole {
    Implementer,
    Verifier,
    Shim,
}

/// How independent a verifier is of the implementer it judges.
#[derive(Debug, Clone, Copy, PartialEq, Eq, Structural)]
pub enum Independence {
    /// The same model in a fresh context.
    FreshContextOnly,
    /// Another model of the same provider.
    CrossModel,
    /// A model of another provider.
    CrossProvider,
}

/// A verifier's verdict.
#[derive(Debug, Clone, Copy, PartialEq, Eq, Structural)]
pub enum Verdict {
    Pass,
    Fail,
}

impl Verdict {
    /// The name of the verdict.
    pub open spec fn text(self) -> Seq<char> {
        match self {
            Verdict::Pass => "Pass"@,
            Verdict::Fail => "Fail"@,
        }
    }

    /// The name of the verdict.
    pub fn name(self) -> (r: &'static str)
        ensures
            r@ == self.text(),
    {
        match self {
            Verdict::Pass => "Pass",
            Verdict::Fail => "Fail",
        }
    }
}

/// Who asked for a driven session to be killed.
#[derive(Debug, Clone, Copy, PartialEq, Eq, Structural)]
pub enum KillKind {
    Human,
    Advisor,
}

impl KillKind {
    /// The word for the one who asked.
    pub open spec fn text(self) -> Seq<char> {
        match self {
            KillKind::Human => "human"@,
            KillKind::Advisor => "advisor"@,
        }
    }

    /// The word for the one who asked.
    pub fn label(self) -> (r: &'static str)
        ensures
            r@ == self.text(),
    {
        match self {
            KillKind::Human => "human",
            KillKind::Advisor => "advisor",
        }
    }
}

/// A containment level.
#[derive(Debug, Clone, Copy, PartialEq, Eq, Structural)]
pub enum Level {
    L0,
    L1,
    L2,
}

impl Level {
    /// The level as a number.
    pub open spec fn rank(self) -> int {
        match self {
            Level::L0 => 0,
            Level::L1 => 1,
            Level::L2 => 2,
        }
    }

    /// The level as a number.
    pub fn as_u8(self) -> (r: u8)
        ensures
            r == self.rank(),
    {
        match self {
            Level::L0 => 0,
            Level::L1 => 1,
            Level::L2 => 2,
        }
    }
}

/// Whether a contained command may use the network.
#[derive(Debug, Clone, Copy, PartialEq, Eq, Structural)]
pub enum NetworkPolicy {
    Allow,
    Deny,
}

// ---------------------------------------------------------------------------
// Laws
// ---------------------------------------------------------------------------

/// The rungs are numbered upward from zero without a gap.
pub proof fn law_rungs_are_numbered_in_order(a: Tier, b: Tier)
    ensures
        0 <= a.rank() <= 2,
        a.rank() == b.rank() <==> a == b,
        Tier::T0.rank() < Tier::T1.rank() < Tier::T2.rank(),
{
}

/// Every event has a word of its own in the journal, and so has every verdict and
/// everyone who can ask for a kill.
pub proof fn law_words_tell_events_apart(a: EventKind, b: EventKind)
    ensures
        a.text() == b.text() <==> a == b,
        Verdict::Pass.text() != Verdict::Fail.text(),
        KillKind::Human.text() != KillKind::Advisor.text(),
{
    reveal_strlit("created");
    reveal_strlit("queued");
    reveal_strlit("spawned");
    reveal_strlit("iterating");
    reveal_strlit("impl_finished");
    reveal_strlit("checks_started");
    reveal_strlit("checks_passed");
    reveal_strlit("checks_failed");
    reveal_strlit("verify_started");
    reveal_strlit("verify_passed");
    reveal_strlit("verify_failed");
    reveal_strlit("escalated");
    reveal_strlit("blocked");
    reveal_strlit("containment_downgraded");
    reveal_strlit("interrupted");
    reveal_strlit("merged");
    reveal_strlit("failed");
    reveal_strlit("Pass");
    reveal_strlit("Fail");
    reveal_strlit("human");
    reveal_strlit("advisor");
    assert("Pass"@[0] == 'P' && "Fail"@[0] == 'F');
    assert("human"@.len() == 5 && "advisor"@.len() == 7);
    assert("created"@.len() == 7 && "created"@[0] == 'c');
    assert("spawned"@.len() == 7 && "spawned"@[0] == 's');
    assert("blocked"@.len() == 7 && "blocked"@[0] == 'b');
    assert("queued"@.len() == 6 && "queued"@[0] == 'q');
    assert("merged"@.len() == 6 && "merged"@[0] == 'm');
    assert("failed"@.len() == 6 && "failed"@[0] == 'f');
    assert("iterating"@.len() == 9 && "iterating"@[0] == 'i');
    assert("escalated"@.len() == 9 && "escalated"@[0] == 'e');
    assert("impl_finished"@.len() == 13 && "impl_finished"@[0] == 'i');
    assert("checks_passed"@.len() == 13 && "checks_passed"@[0] == 'c' && "checks_passed"@[7] == 'p');
    assert("checks_failed"@.len() == 13 && "checks_failed"@[0] == 'c' && "checks_failed"@[7] == 'f');
    assert("verify_passed"@.len() == 13 && "verify_passed"@[0] == 'v' && "verify_passed"@[7] == 'p');
    assert("verify_failed"@.len() == 13 && "verify_failed"@[0] == 'v' && "verify_failed"@[7] == 'f');
    assert("checks_started"@.len() == 14 && "checks_started"@[0] == 'c');
    assert("verify_started"@.len() == 14 && "verify_started"@[0] == 'v');
    assert("containment_downgraded"@.len() == 22);
    assert("interrupted"@.len() == 11);
}

} // verus!
