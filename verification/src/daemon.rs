//! Making sure that one daemon runs: the handshake, the race to spawn it, and
//! waiting for it.

use crate::fault::{Fault, FaultView};
use crate::text::{self, cat2, u64_text};
use vstd::prelude::*;

verus! {

broadcast use vstd::string::group_string_axioms;

// ---------------------------------------------------------------------------
// The handshake
// ---------------------------------------------------------------------------

/// What a daemon that answers says about itself.
#[derive(Debug, Clone, Copy, PartialEq, Eq, Structural)]
#[allow(inconsistent_fields)]
pub enum HelloOutcome {
    /// It speaks this program's protocol version.
    Compatible {
        pid: u32,
    },
    /// It speaks another one.
    Incompatible {
        reported: u32,
    },
}

/// The answer to a probe of the socket.
#[derive(Debug, Clone, Copy, PartialEq, Eq, Structural)]
pub enum ProbeReply {
    /// No daemon could be reached.
    Unreachable,
    /// A daemon said hello.
    Hello {
        protocol_version: u32,
        pid: u32,
    },
    /// A daemon answered something else, which counts as no daemon.
    Other,
}

/// What a probe comes to.
pub open spec fn hello(reply: ProbeReply, ours: u32) -> Option<HelloOutcome> {
    match reply {
        ProbeReply::Hello { protocol_version, pid } => if protocol_version == ours {
            Some(HelloOutcome::Compatible { pid })
        } else {
            Some(HelloOutcome::Incompatible { reported: protocol_version })
        },
        _ => None,
    }
}

/// What a probe comes to, for a program that speaks version `ours`.
pub fn try_connect(reply: ProbeReply, ours: u32) -> (r: Option<HelloOutcome>)
    ensures
        r == hello(reply, ours),
{
    match reply {
        ProbeReply::Hello { protocol_version, pid } => {
            if protocol_version == ours {
                Some(HelloOutcome::Compatible { pid })
            } else {
                Some(HelloOutcome::Incompatible { reported: protocol_version })
            }
        },
        _ => None,
    }
}

// ---------------------------------------------------------------------------
// The race
// ---------------------------------------------------------------------------

/// How a daemon was ensured.
#[derive(Debug, Clone, Copy, PartialEq, Eq, Structural)]
pub struct EnsureOutcome {
    /// How many daemons were spawned on the way.
    pub spawned: u32,
    /// The process of the live daemon.
    pub pid: u32,
}

/// The error about a daemon of another version.
pub open spec fn skew(reported: u32, ours: u32) -> Seq<char> {
    "daemon protocol version mismatch: daemon reports "@ + text::decimal(reported as nat)
        + ", this CLI speaks "@ + text::decimal(ours as nat)
        + ". The single-daemon-per-machine invariant means a second daemon will NOT be spawned to resolve this. Run `maestro daemon restart` to restart the daemon at the current version."@
}

/// The error about a daemon of another version.
pub fn version_skew_error(reported: u32, ours: u32) -> (r: Fault)
    ensures
        r.deep_view() == (FaultView { message: skew(reported, ours), cause: None }),
{
    let mut m = cat2(
        "daemon protocol version mismatch: daemon reports ",
        &u64_text(reported as u64),
    );
    m.append(", this CLI speaks ");
    m.append(&u64_text(ours as u64));
    m.append(
        ". The single-daemon-per-machine invariant means a second daemon will NOT be spawned to resolve this. Run `maestro daemon restart` to restart the daemon at the current version.",
    );
    Fault::new(m)
}

/// Where a client stands that wants a daemon.
#[derive(Debug, Clone, Copy, PartialEq, Eq, Structural)]
pub enum EnsurePhase {
    /// Looking for a live daemon.
    Probe,
    /// Waiting for the spawn lock.
    Lock,
    /// Looking again, under the lock.
    Recheck,
    /// Spawning.
    Spawn,
    /// Waiting for the spawned daemon.
    Wait,
    /// Settled.
    Over,
}

/// An answer that a client gets on the way.
#[derive(Debug)]
pub enum EnsureAnswer {
    /// What a probe of the socket found.
    Probed(Option<HelloOutcome>),
    /// The error of taking the lock, if there was one.
    Locked(Option<String>),
    /// The error of spawning, if there was one.
    Spawned(Option<String>),
}

/// What an [`EnsureAnswer`] says.
#[verifier::ext_equal]
pub enum EnsureAnswerView {
    Probed(Option<HelloOutcome>),
    Locked(Option<Seq<char>>),
    Spawned(Option<Seq<char>>),
}

impl DeepView for EnsureAnswer {
    type V = EnsureAnswerView;

    open spec fn deep_view(&self) -> EnsureAnswerView {
        match self {
            EnsureAnswer::Probed(o) => EnsureAnswerView::Probed(*o),
            EnsureAnswer::Locked(e) => EnsureAnswerView::Locked(e.deep_view()),
            EnsureAnswer::Spawned(e) => EnsureAnswerView::Spawned(e.deep_view()),
        }
    }
}

/// How it ended.
pub type EnsureEnd = Result<EnsureOutcome, FaultView>;

/// What an end says.
pub open spec fn end_view(r: Option<Result<EnsureOutcome, Fault>>) -> Option<EnsureEnd> {
    match r {
        Some(Ok(o)) => Some(Ok(o)),
        Some(Err(f)) => Some(Err(f.deep_view())),
        None => None,
    }
}

/// What a live daemon comes to: it is used, or refused for its version.
pub open spec fn settled(o: HelloOutcome, spawned: u32, ours: u32) -> EnsureEnd {
    match o {
        HelloOutcome::Compatible { pid } => Ok(EnsureOutcome { spawned, pid }),
        HelloOutcome::Incompatible { reported } => Err(
            FaultView { message: skew(reported, ours), cause: None },
        ),
    }
}

fn settle(o: HelloOutcome, spawned: u32, ours: u32) -> (r: Result<EnsureOutcome, Fault>)
    ensures
        end_view(Some(r)) == Some(settled(o, spawned, ours)),
{
    match o {
        HelloOutcome::Compatible { pid } => Ok(EnsureOutcome { spawned, pid }),
        HelloOutcome::Incompatible { reported } => Err(version_skew_error(reported, ours)),
    }
}

/// The error about a spawned daemon that never answered.
pub open spec fn never_live(log_path: Seq<char>) -> Seq<char> {
    "spawned the daemon but it did not become reachable in time; check the daemon log at "@
        + log_path
}

/// Whether an answer is one that a client in this phase waits for.
pub open spec fn fits(phase: EnsurePhase, answer: EnsureAnswerView) -> bool {
    match phase {
        EnsurePhase::Probe | EnsurePhase::Recheck | EnsurePhase::Wait => answer is Probed,
        EnsurePhase::Lock => answer is Locked,
        EnsurePhase::Spawn => answer is Spawned,
        EnsurePhase::Over => false,
    }
}

/// Where a client that wants a daemon gets to by an answer, and how it ended,
/// if it did. A live daemon is used as soon as it is seen, before the lock or
/// under it; only a client that twice saw none spawns one.
pub open spec fn ensured(
    phase: EnsurePhase,
    answer: EnsureAnswerView,
    ours: u32,
    log_path: Seq<char>,
) -> (EnsurePhase, Option<EnsureEnd>) {
    match (phase, answer) {
        (EnsurePhase::Probe, EnsureAnswerView::Probed(None)) => (EnsurePhase::Lock, None),
        (EnsurePhase::Probe, EnsureAnswerView::Probed(Some(o))) => (
            EnsurePhase::Over,
            Some(settled(o, 0, ours)),
        ),
        (EnsurePhase::Lock, EnsureAnswerView::Locked(None)) => (EnsurePhase::Recheck, None),
        (EnsurePhase::Lock, EnsureAnswerView::Locked(Some(e))) => (
            EnsurePhase::Over,
            Some(Err(FaultView { message: "acquiring daemon spawn lock"@, cause: Some(e) })),
        ),
        (EnsurePhase::Recheck, EnsureAnswerView::Probed(None)) => (EnsurePhase::Spawn, None),
        (EnsurePhase::Recheck, EnsureAnswerView::Probed(Some(o))) => (
            EnsurePhase::Over,
            Some(settled(o, 0, ours)),
        ),
        (EnsurePhase::Spawn, EnsureAnswerView::Spawned(None)) => (EnsurePhase::Wait, None),
        (EnsurePhase::Spawn, EnsureAnswerView::Spawned(Some(e))) => (
            EnsurePhase::Over,
            Some(Err(FaultView { message: "spawning daemon"@, cause: Some(e) })),
        ),
        (EnsurePhase::Wait, EnsureAnswerView::Probed(None)) => (
            EnsurePhase::Over,
            Some(Err(FaultView { message: never_live(log_path), cause: None })),
        ),
        (EnsurePhase::Wait, EnsureAnswerView::Probed(Some(o))) => (
            EnsurePhase::Over,
            Some(settled(o, 1, ours)),
        ),
        _ => (phase, None),
    }
}

/// A client on its way to a live daemon.
#[derive(Debug)]
pub struct EnsureRun {
    phase: EnsurePhase,
    ours: u32,
    log_path: String,
}

impl EnsureRun {
    /// What this client waits for.
    pub closed spec fn at(self) -> EnsurePhase {
        self.phase
    }

    /// The protocol version it speaks.
    pub closed spec fn version(self) -> u32 {
        self.ours
    }

    /// Where a spawned daemon logs.
    pub closed spec fn log(self) -> Seq<char> {
        self.log_path@
    }

    /// A client that looks for a daemon of version `ours`.
    pub fn start(ours: u32, log_path: &str) -> (r: Self)
        ensures
            r.at() == EnsurePhase::Probe,
            r.version() == ours,
            r.log() == log_path@,
    {
        EnsureRun { phase: EnsurePhase::Probe, ours, log_path: log_path.to_owned() }
    }

    /// What to do next: probe, lock, probe again, spawn, or wait.
    pub fn phase(&self) -> (r: EnsurePhase)
        ensures
            r == self.at(),
    {
        self.phase
    }

    /// Takes an answer.
    pub fn on(&mut self, answer: EnsureAnswer) -> (r: Option<Result<EnsureOutcome, Fault>>)
        requires
            fits(old(self).at(), answer.deep_view()),
        ensures
            (final(self).at(), end_view(r)) == ensured(
                old(self).at(),
                answer.deep_view(),
                old(self).version(),
                old(self).log(),
            ),
            final(self).version() == old(self).version(),
            final(self).log() == old(self).log(),
    {
        match (self.phase, answer) {
            (EnsurePhase::Probe, EnsureAnswer::Probed(None)) => {
                self.phase = EnsurePhase::Lock;
                None
            },
            (EnsurePhase::Lock, EnsureAnswer::Locked(None)) => {
                self.phase = EnsurePhase::Recheck;
                None
            },
            (EnsurePhase::Recheck, EnsureAnswer::Probed(None)) => {
                self.phase = EnsurePhase::Spawn;
                None
            },
            (EnsurePhase::Spawn, EnsureAnswer::Spawned(None)) => {
                self.phase = EnsurePhase::Wait;
                None
            },
            (EnsurePhase::Wait, EnsureAnswer::Probed(None)) => {
                self.phase = EnsurePhase::Over;
                Some(
                    Err(
                        Fault::new(
                            cat2(
                                "spawned the daemon but it did not become reachable in time; check the daemon log at ",
                                &self.log_path,
                            ),
                        ),
                    ),
                )
            },
            (EnsurePhase::Lock, EnsureAnswer::Locked(Some(e))) => {
                self.phase = EnsurePhase::Over;
                Some(
                    Err(
                        Fault {
                            message: "acquiring daemon spawn lock".to_owned(),
                            cause: Some(e),
                        },
                    ),
                )
            },
            (EnsurePhase::Spawn, EnsureAnswer::Spawned(Some(e))) => {
                self.phase = EnsurePhase::Over;
                Some(Err(Fault { message: "spawning daemon".to_owned(), cause: Some(e) }))
            },
            (EnsurePhase::Wait, EnsureAnswer::Probed(Some(o))) => {
                self.phase = EnsurePhase::Over;
                Some(settle(o, 1, self.ours))
            },
            (_, EnsureAnswer::Probed(Some(o))) => {
                self.phase = EnsurePhase::Over;
                Some(settle(o, 0, self.ours))
            },
            _ => None,
        }
    }
}

/// Whether closures that gave these answers lead to this end. An answer counts
/// only where the client got to ask for it; everything after the lock is asked for
/// with the lock in hand.
pub open spec fn leads_to<
    L,
    T: Fn(Option<&L>) -> Option<HelloOutcome>,
    A: FnOnce() -> Result<L, String>,
    S: FnOnce(&L) -> Result<(), String>,
    W: FnOnce(&L) -> Option<HelloOutcome>,
>(
    calls: (T, A, S, W),
    answers: (
        Option<HelloOutcome>,
        Result<L, String>,
        Option<HelloOutcome>,
        Result<(), String>,
        Option<HelloOutcome>,
    ),
    ours: u32,
    log_path: Seq<char>,
    end: EnsureEnd,
) -> bool {
    let (try_connect, acquire_lock, spawn, wait_live) = calls;
    let (first, lock, again, started, live) = answers;
    &&& try_connect.ensures((None,), first)
    &&& match first {
        Some(o) => end == settled(o, 0, ours),
        None => acquire_lock.ensures((), lock) && match lock {
            Err(e) => end == Err::<EnsureOutcome, FaultView>(
                FaultView { message: "acquiring daemon spawn lock"@, cause: Some(e@) },
            ),
            Ok(held) => try_connect.ensures((Some(&held),), again) && match again {
                Some(o) => end == settled(o, 0, ours),
                None => spawn.ensures((&held,), started) && match started {
                    Err(e) => end == Err::<EnsureOutcome, FaultView>(
                        FaultView { message: "spawning daemon"@, cause: Some(e@) },
                    ),
                    Ok(_) => wait_live.ensures((&held,), live) && match live {
                        Some(o) => end == settled(o, 1, ours),
                        None => end == Err::<EnsureOutcome, FaultView>(
                            FaultView { message: never_live(log_path), cause: None },
                        ),
                    },
                },
            },
        },
    }
}

/// Ensures a live daemon: probes; takes the lock; probes again; spawns; waits.
/// The lock is held until the end, and what is done under it is handed the lock.
///
/// Nothing is done before the answers that lead to it: the lock is taken only where
/// no daemon answered, a daemon is spawned only where none answered under the lock
/// either, and a wait follows only a spawn. Each of these is done at most once.
pub fn ensure_daemon<
    L,
    T: Fn(Option<&L>) -> Option<HelloOutcome>,
    A: FnOnce() -> Result<L, String>,
    S: FnOnce(&L) -> Result<(), String>,
    W: FnOnce(&L) -> Option<HelloOutcome>,
>(try_connect: T, acquire_lock: A, spawn: S, wait_live: W, ours: u32, log_path: &str) -> (r: Result<
    EnsureOutcome,
    Fault,
>)
    requires
        try_connect.requires((None,)),
        try_connect.ensures((None,), None) ==> acquire_lock.requires(()),
        forall|held: L|
            try_connect.ensures((None,), None) && #[trigger] acquire_lock.ensures((), Ok(held))
                ==> try_connect.requires((Some(&held),)),
        forall|held: L|
            try_connect.ensures((None,), None) && #[trigger] acquire_lock.ensures((), Ok(held))
                && try_connect.ensures((Some(&held),), None) ==> spawn.requires((&held,)),
        forall|held: L|
            try_connect.ensures((None,), None) && #[trigger] acquire_lock.ensures((), Ok(held))
                && try_connect.ensures((Some(&held),), None) && spawn.ensures((&held,), Ok(()))
                ==> wait_live.requires((&held,)),
    ensures
        exists|
            answers: (
                Option<HelloOutcome>,
                Result<L, String>,
                Option<HelloOutcome>,
                Result<(), String>,
                Option<HelloOutcome>,
            ),
        |
            #[trigger] leads_to(
                (try_connect, acquire_lock, spawn, wait_live),
                answers,
                ours,
                log_path@,
                end_view(Some(r))->0,
            ),
{
    let ghost calls = (try_connect, acquire_lock, spawn, wait_live);
    let ghost no_lock: Result<L, String> = arbitrary();
    let ghost no_start: Result<(), String> = arbitrary();
    let mut run = EnsureRun::start(ours, log_path);

    let first = try_connect(None);
    match run.on(EnsureAnswer::Probed(first)) {
        Some(end) => {
            let ghost answers = (first, no_lock, None::<HelloOutcome>, no_start, None::<HelloOutcome>);
            assert(leads_to(calls, answers, ours, log_path@, end_view(Some(end))->0));
            return end;
        },
        None => {},
    }

    let lock = acquire_lock();
    let ghost got = lock;
    let held = match lock {
        Ok(held) => {
            let _ = run.on(EnsureAnswer::Locked(None));
            held
        },
        Err(e) => {
            let end = run.on(EnsureAnswer::Locked(Some(e))).unwrap();
            let ghost answers = (first, got, None::<HelloOutcome>, no_start, None::<HelloOutcome>);
            assert(leads_to(calls, answers, ours, log_path@, end_view(Some(end))->0));
            return end;
        },
    };

    let again = try_connect(Some(&held));
    match run.on(EnsureAnswer::Probed(again)) {
        Some(end) => {
            let ghost answers = (first, got, again, no_start, None::<HelloOutcome>);
            assert(leads_to(calls, answers, ours, log_path@, end_view(Some(end))->0));
            return end;
        },
        None => {},
    }

    let started = spawn(&held);
    let ghost start = started;
    match started {
        Ok(_) => {
            let _ = run.on(EnsureAnswer::Spawned(None));
        },
        Err(e) => {
            let end = run.on(EnsureAnswer::Spawned(Some(e))).unwrap();
            let ghost answers = (first, got, again, start, None::<HelloOutcome>);
            assert(leads_to(calls, answers, ours, log_path@, end_view(Some(end))->0));
            return end;
        },
    }

    assert(start->Ok_0 == ());
    let live = wait_live(&held);
    let end = run.on(EnsureAnswer::Probed(live)).unwrap();
    let ghost answers = (first, got, again, start, live);
    assert(leads_to(calls, answers, ours, log_path@, end_view(Some(end))->0));
    end
}

// ---------------------------------------------------------------------------
// Waiting
// ---------------------------------------------------------------------------

/// What to do after a look that found nothing.
#[derive(Debug, Clone, Copy, PartialEq, Eq, Structural)]
pub enum PollStep {
    /// Look.
    Look,
    /// Pause, then look again.
    Pause,
    /// Stop: it was found.
    Found,
    /// Stop: every try is used up.
    GiveUp,
}

/// A bounded number of looks at something.
#[derive(Debug)]
pub struct Poll {
    done: u32,
    tries: u32,
}

impl Poll {
    /// How many looks were taken.
    pub closed spec fn looks(self) -> int {
        self.done as int
    }

    /// How many there may be.
    pub closed spec fn most(self) -> int {
        self.tries as int
    }

    /// Starts looking, at most `tries` times.
    pub fn start(tries: u32) -> (r: (Self, PollStep))
        ensures
            r.0.looks() == 0,
            r.0.most() == tries,
            r.1 == (if tries == 0 {
                PollStep::GiveUp
            } else {
                PollStep::Look
            }),
    {
        let step = if tries == 0 {
            PollStep::GiveUp
        } else {
            PollStep::Look
        };
        (Poll { done: 0, tries }, step)
    }

    /// Takes what a look found: stops where it was found or no look is left,
    /// and pauses before the next one otherwise.
    pub fn on_look(&mut self, found: bool) -> (r: PollStep)
        requires
            old(self).looks() < old(self).most(),
        ensures
            final(self).most() == old(self).most(),
            final(self).looks() == old(self).looks() + 1,
            r == (if found {
                PollStep::Found
            } else if old(self).looks() + 1 < old(self).most() {
                PollStep::Pause
            } else {
                PollStep::GiveUp
            }),
    {
        self.done = self.done + 1;
        if found {
            PollStep::Found
        } else if self.done < self.tries {
            PollStep::Pause
        } else {
            PollStep::GiveUp
        }
    }
}

/// Whether looks that gave these answers, with a pause before each but the first,
/// come to this end. The looks are numbered from zero, and so are the pauses by the
/// look they come before. Every look but the last found nothing; what the last one
/// found is the end, and where it found nothing no look was left.
pub open spec fn looks_lead_to<P: Fn(u32) -> Option<HelloOutcome>, N: Fn(u32)>(
    calls: (P, N),
    answers: Seq<Option<HelloOutcome>>,
    tries: u32,
    end: Option<HelloOutcome>,
) -> bool {
    let (probe, pause) = calls;
    &&& answers.len() <= tries
    &&& forall|i: int|
        0 <= i < answers.len() ==> probe.ensures((i as u32,), #[trigger] answers[i])
    &&& forall|i: int| 0 < i < answers.len() ==> #[trigger] pause.ensures((i as u32,), ())
    &&& forall|i: int| 0 <= i < answers.len() - 1 ==> (#[trigger] answers[i]) is None
    &&& match end {
        Some(_) => answers.len() > 0 && answers.last() == end,
        None => answers.len() == tries && (tries > 0 ==> answers.last() is None),
    }
}

/// Looks for a live daemon, at most `tries` times, with a pause between looks. The
/// closures are told which look it is.
pub fn wait_until_live<P: Fn(u32) -> Option<HelloOutcome>, N: Fn(u32)>(
    probe: P,
    pause: N,
    tries: u32,
) -> (r: Option<HelloOutcome>)
    requires
        forall|i: u32| i < tries ==> probe.requires((i,)),
        forall|i: u32| 0 < i < tries ==> pause.requires((i,)),
    ensures
        exists|answers: Seq<Option<HelloOutcome>>| #[trigger]
            looks_lead_to((probe, pause), answers, tries, r),
{
    let ghost calls = (probe, pause);
    let ghost mut answers: Seq<Option<HelloOutcome>> = Seq::empty();
    let (mut poll, mut step) = Poll::start(tries);
    let mut look: u32 = 0;
    while step != PollStep::GiveUp
        invariant
            calls == (probe, pause),
            forall|i: u32| i < tries ==> probe.requires((i,)),
            forall|i: u32| 0 < i < tries ==> pause.requires((i,)),
            poll.most() == tries,
            poll.looks() == look,
            look <= tries,
            answers.len() == look,
            step == PollStep::Look || step == PollStep::Pause || step == PollStep::GiveUp,
            step == PollStep::Look <==> look == 0 && tries > 0,
            step == PollStep::GiveUp <==> look == tries,
            forall|i: int|
                0 <= i < answers.len() ==> probe.ensures((i as u32,), #[trigger] answers[i]),
            forall|i: int| 0 < i < answers.len() ==> #[trigger] pause.ensures((i as u32,), ()),
            forall|i: int| 0 <= i < answers.len() ==> (#[trigger] answers[i]) is None,
        decreases tries - look,
    {
        if step == PollStep::Pause {
            pause(look);
        }
        let o = probe(look);
        proof {
            answers = answers.push(o);
        }
        step = poll.on_look(o.is_some());
        look = look + 1;
        if o.is_some() {
            assert(looks_lead_to(calls, answers, tries, o));
            return o;
        }
    }
    assert(looks_lead_to(calls, answers, tries, None));
    None
}

// ---------------------------------------------------------------------------
// Laws
// ---------------------------------------------------------------------------

/// How far along a phase is.
pub open spec fn rank(phase: EnsurePhase) -> int {
    match phase {
        EnsurePhase::Probe => 0,
        EnsurePhase::Lock => 1,
        EnsurePhase::Recheck => 2,
        EnsurePhase::Spawn => 3,
        EnsurePhase::Wait => 4,
        EnsurePhase::Over => 5,
    }
}

/// How many daemons a client spawns that takes these answers from this phase
/// on; it stops taking answers where it is over, or where one does not fit.
pub open spec fn spawns(
    phase: EnsurePhase,
    answers: Seq<EnsureAnswerView>,
    ours: u32,
    log_path: Seq<char>,
) -> nat
    decreases answers.len(),
{
    if answers.len() == 0 || !fits(phase, answers[0]) {
        0
    } else {
        let next = ensured(phase, answers[0], ours, log_path).0;
        (if phase == EnsurePhase::Spawn && answers[0] == EnsureAnswerView::Spawned(None) {
            1nat
        } else {
            0nat
        }) + spawns(next, answers.skip(1), ours, log_path)
    }
}

proof fn lemma_no_spawn_later(
    phase: EnsurePhase,
    answers: Seq<EnsureAnswerView>,
    ours: u32,
    log_path: Seq<char>,
)
    ensures
        rank(phase) > 3 ==> spawns(phase, answers, ours, log_path) == 0,
        spawns(phase, answers, ours, log_path) <= 1,
    decreases answers.len(),
{
    if answers.len() > 0 && fits(phase, answers[0]) {
        let next = ensured(phase, answers[0], ours, log_path).0;
        lemma_no_spawn_later(next, answers.skip(1), ours, log_path);
    }
}

/// A client never spawns more than one daemon, whatever answers it gets.
pub proof fn law_at_most_one_spawn(answers: Seq<EnsureAnswerView>, ours: u32, log_path: Seq<char>)
    ensures
        spawns(EnsurePhase::Probe, answers, ours, log_path) <= 1,
{
    lemma_no_spawn_later(EnsurePhase::Probe, answers, ours, log_path);
}

/// A daemon that answers, before the lock or under it, is never joined by a
/// second one: a daemon of this version is used, one of another version is
/// refused.
pub proof fn law_live_daemons_are_never_joined(
    phase: EnsurePhase,
    o: HelloOutcome,
    rest: Seq<EnsureAnswerView>,
    ours: u32,
    log_path: Seq<char>,
)
    requires
        phase == EnsurePhase::Probe || phase == EnsurePhase::Recheck,
    ensures
        ensured(phase, EnsureAnswerView::Probed(Some(o)), ours, log_path) == (
            EnsurePhase::Over,
            Some(settled(o, 0, ours)),
        ),
        spawns(phase, seq![EnsureAnswerView::Probed(Some(o))] + rest, ours, log_path) == 0,
        o is Incompatible ==> settled(o, 0, ours) is Err,
{
    let answers = seq![EnsureAnswerView::Probed(Some(o))] + rest;
    assert(answers[0] == EnsureAnswerView::Probed(Some(o)));
    lemma_no_spawn_later(EnsurePhase::Over, answers.skip(1), ours, log_path);
}

/// Spawning comes only under the lock, right after a second look found no
/// daemon; and a success reports exactly the daemons that were spawned.
pub proof fn law_spawning_needs_the_lock_and_two_misses(
    phase: EnsurePhase,
    answer: EnsureAnswerView,
    ours: u32,
    log_path: Seq<char>,
)
    requires
        fits(phase, answer),
    ensures
        ({
            let (next, end) = ensured(phase, answer, ours, log_path);
            &&& next == EnsurePhase::Spawn <==> phase == EnsurePhase::Recheck && answer
                == EnsureAnswerView::Probed(None)
            &&& next == EnsurePhase::Recheck <==> phase == EnsurePhase::Lock && answer
                == EnsureAnswerView::Locked(None)
            &&& next == EnsurePhase::Lock <==> phase == EnsurePhase::Probe && answer
                == EnsureAnswerView::Probed(None)
            &&& (end matches Some(Ok(o)) ==> o.spawned == (if phase == EnsurePhase::Wait {
                1u32
            } else {
                0u32
            }))
        }),
{
}

/// Clients that want a daemon on one machine at the same time.
#[verifier::ext_equal]
pub struct Race {
    /// Where each of them stands.
    pub phases: Seq<EnsurePhase>,
    /// Which of them holds the lock.
    pub holder: Option<int>,
    /// Whether a daemon answers.
    pub live: bool,
    /// How many daemons were spawned.
    pub spawned: nat,
}

/// Something that happens in a race.
pub enum RaceEvent {
    /// A client takes its next step, if it can.
    Act(int),
    /// A spawned daemon begins to answer.
    Rise,
}

impl Race {
    /// A race that has not begun, on a machine without a daemon.
    pub open spec fn open(clients: nat) -> Race {
        Race {
            phases: Seq::new(clients, |i: int| EnsurePhase::Probe),
            holder: None,
            live: false,
            spawned: 0,
        }
    }

    /// The answer that a client gets: probes tell whether a daemon answers, the
    /// lock is given to one client at a time, spawning works, and whoever waits
    /// for a spawned daemon lives to see it. None comes while the lock is taken.
    pub open spec fn answer(self, client: int, pid: u32) -> Option<EnsureAnswerView> {
        let seen = EnsureAnswerView::Probed(Some(HelloOutcome::Compatible { pid }));
        match self.phases[client] {
            EnsurePhase::Probe | EnsurePhase::Recheck => Some(
                if self.live {
                    seen
                } else {
                    EnsureAnswerView::Probed(None)
                },
            ),
            EnsurePhase::Lock => if self.holder is None {
                Some(EnsureAnswerView::Locked(None))
            } else {
                None
            },
            EnsurePhase::Spawn => Some(EnsureAnswerView::Spawned(None)),
            EnsurePhase::Wait => Some(seen),
            EnsurePhase::Over => None,
        }
    }

    /// What something that happens makes of a race. The lock is held from the
    /// moment it is taken until the client is done.
    pub open spec fn after(self, event: RaceEvent, pid: u32, ours: u32, log: Seq<char>) -> Race {
        match event {
            RaceEvent::Rise => Race { live: self.live || self.spawned > 0, ..self },
            RaceEvent::Act(client) => if 0 <= client < self.phases.len() {
                match self.answer(client, pid) {
                    None => self,
                    Some(answer) => {
                        let phase = self.phases[client];
                        let next = ensured(phase, answer, ours, log).0;
                        Race {
                            phases: self.phases.update(client, next),
                            holder: if phase is Lock {
                                Some(client)
                            } else if next is Over && self.holder == Some(client) {
                                None
                            } else {
                                self.holder
                            },
                            live: self.live || phase is Wait,
                            spawned: if phase is Spawn {
                                self.spawned + 1
                            } else {
                                self.spawned
                            },
                        }
                    },
                }
            } else {
                self
            },
        }
    }

    /// What everything that happens makes of a race.
    pub open spec fn run(
        self,
        events: Seq<RaceEvent>,
        pid: u32,
        ours: u32,
        log: Seq<char>,
    ) -> Race
        decreases events.len(),
    {
        if events.len() == 0 {
            self
        } else {
            self.run(events.drop_last(), pid, ours, log).after(events.last(), pid, ours, log)
        }
    }

    /// What holds at every moment of a race.
    pub open spec fn wf(self) -> bool {
        &&& self.spawned <= 1
        &&& self.live ==> self.spawned == 1
        &&& self.holder matches Some(h) ==> 0 <= h < self.phases.len()
        &&& self.spawned == 1 && !self.live ==> self.holder is Some && self.phases[self.holder->0]
            is Wait
        &&& forall|i: int| #![trigger self.phases[i]]
            0 <= i < self.phases.len() ==> {
                &&& (self.phases[i] is Recheck || self.phases[i] is Spawn || self.phases[i] is Wait)
                    <==> self.holder == Some(i)
                &&& self.phases[i] is Spawn ==> self.spawned == 0
                &&& self.phases[i] is Wait ==> self.spawned == 1
                &&& self.phases[i] is Over ==> self.live
            }
    }
}

proof fn lemma_races_stay_well_formed(
    clients: nat,
    events: Seq<RaceEvent>,
    pid: u32,
    ours: u32,
    log: Seq<char>,
)
    ensures
        Race::open(clients).run(events, pid, ours, log).wf(),
        Race::open(clients).run(events, pid, ours, log).phases.len() == clients,
    decreases events.len(),
{
    if events.len() > 0 {
        lemma_races_stay_well_formed(clients, events.drop_last(), pid, ours, log);
        let before = Race::open(clients).run(events.drop_last(), pid, ours, log);
        let now = before.after(events.last(), pid, ours, log);
        match events.last() {
            RaceEvent::Rise => {},
            RaceEvent::Act(client) => {
                if 0 <= client < clients && before.answer(client, pid) is Some {
                    assert forall|i: int| #![trigger now.phases[i]]
                        0 <= i < clients implies {
                        &&& (now.phases[i] is Recheck || now.phases[i] is Spawn || now.phases[i]
                            is Wait) <==> now.holder == Some(i)
                        &&& now.phases[i] is Spawn ==> now.spawned == 0
                        &&& now.phases[i] is Wait ==> now.spawned == 1
                        &&& now.phases[i] is Over ==> now.live
                    } by {
                        assert(i != client ==> now.phases[i] == before.phases[i]);
                    }
                }
            },
        }
    }
}

/// However many clients race for a daemon and however their steps fall, at most
/// one daemon is spawned; and once all of them are done it is exactly one, which
/// answers.
pub proof fn law_racers_spawn_one_daemon(
    clients: nat,
    events: Seq<RaceEvent>,
    pid: u32,
    ours: u32,
    log: Seq<char>,
)
    ensures
        ({
            let race = Race::open(clients).run(events, pid, ours, log);
            &&& race.spawned <= 1
            &&& clients > 0 && (forall|i: int|
                0 <= i < clients ==> #[trigger] race.phases[i] is Over) ==> race.live
                && race.spawned == 1
        }),
{
    lemma_races_stay_well_formed(clients, events, pid, ours, log);
    let race = Race::open(clients).run(events, pid, ours, log);
    if clients > 0 {
        assert(race.phases[0] is Over ==> race.live);
    }
}

/// A daemon that says hello is compatible exactly where it speaks this program's
/// version; its process, or the version it speaks, is told as it was said. Anything
/// else is no daemon.
pub proof fn law_versions_decide(reply: ProbeReply, ours: u32)
    ensures
        hello(reply, ours) is Some <==> reply is Hello,
        reply matches ProbeReply::Hello { protocol_version, pid } ==> hello(reply, ours) == Some(
            if protocol_version == ours {
                HelloOutcome::Compatible { pid }
            } else {
                HelloOutcome::Incompatible { reported: protocol_version }
            },
        ),
{
}

/// A compatible daemon is what was looked for, under its own process; an
/// incompatible one is an error that names both versions.
pub proof fn law_only_compatible_daemons_will_do(pid: u32, reported: u32, spawned: u32, ours: u32)
    ensures
        settled(HelloOutcome::Compatible { pid }, spawned, ours) == Ok::<EnsureOutcome, FaultView>(
            EnsureOutcome { spawned, pid },
        ),
        settled(HelloOutcome::Incompatible { reported }, spawned, ours) matches Err(e) && e.cause
            is None && text::contains_text(e.message, text::decimal(reported as nat))
            && text::contains_text(e.message, text::decimal(ours as nat)),
{
    let a = "daemon protocol version mismatch: daemon reports "@;
    let b = ", this CLI speaks "@;
    let c =
        ". The single-daemon-per-machine invariant means a second daemon will NOT be spawned to resolve this. Run `maestro daemon restart` to restart the daemon at the current version."@;
    let x = text::decimal(reported as nat);
    let y = text::decimal(ours as nat);
    text::lemma_stands_inside(a, x, b + y + c);
    assert(a + x + (b + y + c) =~= skew(reported, ours));
    text::lemma_stands_inside(a + x + b, y, c);
}

/// Every step that fails ends the search with its own error: the lock, the spawn,
/// or a daemon that does not come up. A daemon that was spawned and answers is
/// counted as the one that was spawned.
pub proof fn law_failed_steps_end_the_search(
    error: Seq<char>,
    o: HelloOutcome,
    ours: u32,
    log_path: Seq<char>,
)
    ensures
        ensured(EnsurePhase::Lock, EnsureAnswerView::Locked(Some(error)), ours, log_path) == (
            EnsurePhase::Over,
            Some(
                Err::<EnsureOutcome, FaultView>(
                    FaultView { message: "acquiring daemon spawn lock"@, cause: Some(error) },
                ),
            ),
        ),
        ensured(EnsurePhase::Spawn, EnsureAnswerView::Spawned(Some(error)), ours, log_path) == (
            EnsurePhase::Over,
            Some(
                Err::<EnsureOutcome, FaultView>(
                    FaultView { message: "spawning daemon"@, cause: Some(error) },
                ),
            ),
        ),
        ensured(EnsurePhase::Spawn, EnsureAnswerView::Spawned(None), ours, log_path) == (
            EnsurePhase::Wait,
            None::<EnsureEnd>,
        ),
        ensured(EnsurePhase::Wait, EnsureAnswerView::Probed(Some(o)), ours, log_path) == (
            EnsurePhase::Over,
            Some(settled(o, 1, ours)),
        ),
        ensured(EnsurePhase::Wait, EnsureAnswerView::Probed(None), ours, log_path).1 matches Some(
            Err(e),
        ) && text::contains_text(e.message, log_path),
{
    let a =
        "spawned the daemon but it did not become reachable in time; check the daemon log at "@;
    text::lemma_stands_inside(a, log_path, Seq::empty());
    assert(a + log_path + Seq::<char>::empty() =~= never_live(log_path));
}

/// What a search for a daemon comes to follows from what its steps answered, in
/// their order: a daemon that answers at first or under the lock is taken as it is;
/// only after two misses is one spawned, and then it is the one waited for. Every
/// answer that counts is one that was given.
pub proof fn law_searches_follow_their_answers<
    L,
    T: Fn(Option<&L>) -> Option<HelloOutcome>,
    A: FnOnce() -> Result<L, String>,
    S: FnOnce(&L) -> Result<(), String>,
    W: FnOnce(&L) -> Option<HelloOutcome>,
>(
    calls: (T, A, S, W),
    answers: (
        Option<HelloOutcome>,
        Result<L, String>,
        Option<HelloOutcome>,
        Result<(), String>,
        Option<HelloOutcome>,
    ),
    ours: u32,
    log_path: Seq<char>,
    end: EnsureEnd,
)
    requires
        leads_to(calls, answers, ours, log_path, end),
    ensures
        calls.0.ensures((None,), answers.0),
        answers.0 is None ==> calls.1.ensures((), answers.1),
        answers.0 is None && answers.1 is Ok ==> calls.0.ensures(
            (Some(&answers.1->Ok_0),),
            answers.2,
        ),
        answers.0 is None && answers.1 is Ok && answers.2 is None ==> calls.2.ensures(
            (&answers.1->Ok_0,),
            answers.3,
        ),
        answers.0 is None && answers.1 is Ok && answers.2 is None && answers.3 is Ok
            ==> calls.3.ensures((&answers.1->Ok_0,), answers.4),
        end matches Ok(o) ==> {
            let found = HelloOutcome::Compatible { pid: o.pid };
            ||| o.spawned == 0 && answers.0 == Some(found)
            ||| o.spawned == 0 && answers.0 is None && answers.1 is Ok && answers.2 == Some(found)
            ||| o.spawned == 1 && answers.0 is None && answers.1 is Ok && answers.2 is None
                && answers.3 is Ok && answers.4 == Some(found)
        },
        answers.0 matches Some(HelloOutcome::Compatible { pid }) ==> end == Ok::<
            EnsureOutcome,
            FaultView,
        >(EnsureOutcome { spawned: 0, pid }),
        answers.0 matches Some(HelloOutcome::Incompatible { .. }) ==> end is Err,
{
}

/// What a series of looks comes to is the last of them: a daemon that was found was
/// found at the last look and not before, and none is found only after every try.
pub proof fn law_looks_end_at_the_first_find<P: Fn(u32) -> Option<HelloOutcome>, N: Fn(u32)>(
    calls: (P, N),
    answers: Seq<Option<HelloOutcome>>,
    tries: u32,
    end: Option<HelloOutcome>,
)
    requires
        looks_lead_to(calls, answers, tries, end),
    ensures
        answers.len() <= tries,
        forall|i: int|
            0 <= i < answers.len() ==> calls.0.ensures((i as u32,), #[trigger] answers[i]),
        forall|i: int| 0 < i < answers.len() ==> #[trigger] calls.1.ensures((i as u32,), ()),
        end is Some ==> answers.len() > 0 && answers.last() == end && forall|i: int|
            0 <= i < answers.len() - 1 ==> (#[trigger] answers[i]) is None,
        end is None ==> answers.len() == tries && forall|i: int|
            0 <= i < answers.len() ==> (#[trigger] answers[i]) is None,
{
    if end is None {
        assert forall|i: int| 0 <= i < answers.len() implies (#[trigger] answers[i]) is None by {
            if i == answers.len() - 1 {
                assert(answers.last() == answers[i]);
            }
        }
    }
}

} // verus!
