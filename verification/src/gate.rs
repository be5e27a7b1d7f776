//! The mechanical gate: every changed path must be allowed, not too many may
//! change on a tightened task, and every check command must succeed.

use crate::glob::{self, is_match, read_globs, GlobTrouble};
use crate::text::{self, cat2, cat3, quote, starts_with, take_chars};
use vstd::prelude::*;

verus! {

/// What a gate found.
#[allow(inconsistent_fields)]
#[derive(Debug)]
pub enum GateOutcome {
    /// Everything passed. `changed` was taken before any check command ran, so
    /// it holds the worker's edits and nothing that a command produced.
    Passed {
        changed: Vec<String>,
    },
    /// Some changed paths are not allowed.
    ScopeViolation {
        offending: Vec<String>,
    },
    /// Every path is allowed, but more changed than a tightened task may.
    TightenedScopeExceeded {
        changed: usize,
        cap: usize,
        files: Vec<String>,
    },
    /// A check command failed.
    ChecksFailed {
        command: String,
        output_digest: String,
        changed: Vec<String>,
    },
}

/// What a [`GateOutcome`] says.
#[allow(inconsistent_fields)]
#[verifier::ext_equal]
pub enum GateOutcomeView {
    Passed { changed: Seq<Seq<char>> },
    ScopeViolation { offending: Seq<Seq<char>> },
    TightenedScopeExceeded { changed: nat, cap: nat, files: Seq<Seq<char>> },
    ChecksFailed { command: Seq<char>, output_digest: Seq<char>, changed: Seq<Seq<char>> },
}

impl DeepView for GateOutcome {
    type V = GateOutcomeView;

    open spec fn deep_view(&self) -> GateOutcomeView {
        match self {
            GateOutcome::Passed { changed } => GateOutcomeView::Passed {
                changed: changed.deep_view(),
            },
            GateOutcome::ScopeViolation { offending } => GateOutcomeView::ScopeViolation {
                offending: offending.deep_view(),
            },
            GateOutcome::TightenedScopeExceeded { changed, cap, files } => {
                GateOutcomeView::TightenedScopeExceeded {
                    changed: *changed as nat,
                    cap: *cap as nat,
                    files: files.deep_view(),
                }
            },
            GateOutcome::ChecksFailed { command, output_digest, changed } => {
                GateOutcomeView::ChecksFailed {
                    command: command@,
                    output_digest: output_digest@,
                    changed: changed.deep_view(),
                }
            },
        }
    }
}

/// How many characters of a failing command's output are kept.
pub const OUTPUT_DIGEST_CAP: usize = 4000;

/// How many paths are named where too many changed.
pub const TIGHTENED_FILES_CAP: usize = 50;

// ---------------------------------------------------------------------------
// Scope
// ---------------------------------------------------------------------------

/// The paths whose flag is not set, in order.
pub open spec fn unflagged(paths: Seq<Seq<char>>, flags: Seq<bool>) -> Seq<Seq<char>>
    decreases paths.len(),
{
    if paths.len() == 0 {
        Seq::empty()
    } else {
        let before = unflagged(paths.drop_last(), flags);
        if flags[paths.len() - 1] {
            before
        } else {
            before.push(paths.last())
        }
    }
}

/// The first `n` paths, or all where there are fewer.
pub open spec fn first_paths(paths: Seq<Seq<char>>, n: int) -> Seq<Seq<char>> {
    if paths.len() <= n {
        paths
    } else {
        paths.take(n)
    }
}

/// What is wrong with the scope of a change, given for each changed path
/// whether it is allowed: a path that is not comes first, then a count above
/// the cap.
pub open spec fn scope_trouble(
    changed: Seq<Seq<char>>,
    allowed: Seq<bool>,
    cap: Option<usize>,
) -> Option<GateOutcomeView> {
    let offending = unflagged(changed, allowed);
    if offending.len() > 0 {
        Some(GateOutcomeView::ScopeViolation { offending })
    } else if cap matches Some(c) && changed.len() > c {
        Some(
            GateOutcomeView::TightenedScopeExceeded {
                changed: changed.len(),
                cap: cap->0 as nat,
                files: first_paths(changed, TIGHTENED_FILES_CAP as int),
            },
        )
    } else {
        None
    }
}

/// For each path, whether any of the patterns matches it.
pub open spec fn allowances(patterns: Seq<Seq<char>>, paths: Seq<Seq<char>>) -> Seq<bool> {
    paths.map_values(|p: Seq<char>| glob::any_matches(patterns, p))
}

/// What is wrong with the scope of a change, given for each changed path
/// whether it is allowed.
pub fn scope_verdict(changed: &Vec<String>, allowed: &Vec<bool>, cap: Option<usize>) -> (r: Option<
    GateOutcome,
>)
    requires
        changed@.len() == allowed@.len(),
    ensures
        r.deep_view() == scope_trouble(changed.deep_view(), allowed@, cap),
{
    let ghost all = changed.deep_view();
    let mut offending: Vec<String> = Vec::new();
    let mut i: usize = 0;
    assert(all.take(0) =~= Seq::<Seq<char>>::empty());
    assert(offending.deep_view() =~= Seq::<Seq<char>>::empty());
    while i < changed.len()
        invariant
            i <= changed@.len(),
            changed@.len() == allowed@.len(),
            all == changed.deep_view(),
            offending.deep_view() == unflagged(all.take(i as int), allowed@),
        decreases changed@.len() - i,
    {
        proof {
            let now = all.take(i + 1);
            assert(now.drop_last() =~= all.take(i as int));
            assert(now.last() == changed@[i as int]@);
        }
        if !allowed[i] {
            let ghost before = offending.deep_view();
            offending.push(changed[i].clone());
            assert(offending.deep_view() =~= before.push(changed@[i as int]@));
        }
        i = i + 1;
    }
    assert(all.take(changed@.len() as int) =~= all);
    if offending.len() > 0 {
        return Some(GateOutcome::ScopeViolation { offending });
    }
    match cap {
        Some(c) => {
            if changed.len() > c {
                let files = first(changed, TIGHTENED_FILES_CAP);
                return Some(
                    GateOutcome::TightenedScopeExceeded { changed: changed.len(), cap: c, files },
                );
            }
        },
        None => {},
    }
    None
}

fn first(paths: &Vec<String>, n: usize) -> (r: Vec<String>)
    ensures
        r.deep_view() == first_paths(paths.deep_view(), n as int),
{
    let mut out: Vec<String> = Vec::new();
    let mut i: usize = 0;
    while i < paths.len() && i < n
        invariant
            i <= paths@.len(),
            i <= n,
            out@.len() == i,
            forall|j: int| 0 <= j < i ==> (#[trigger] out@[j])@ == paths@[j]@,
        decreases paths@.len() - i,
    {
        out.push(paths[i].clone());
        i = i + 1;
    }
    assert(out.deep_view() =~= first_paths(paths.deep_view(), n as int));
    out
}

/// The words for an allowlist that cannot be read.
pub open spec fn glob_words(list: Seq<Seq<char>>, t: GlobTrouble) -> Seq<char> {
    match t {
        GlobTrouble::Pattern(i) => "invalid allowlist glob "@ + text::quoted(list[i as int]),
        GlobTrouble::Build => "building allowlist glob set"@,
    }
}

/// What the scope check comes to: an error where the allowlist cannot be read,
/// else what is wrong with the scope, if anything.
pub open spec fn scope_result(
    changed: Seq<Seq<char>>,
    allowlist: Seq<Seq<char>>,
    cap: Option<usize>,
) -> Result<Option<GateOutcomeView>, Seq<char>> {
    match glob::globs_trouble(allowlist) {
        Some(t) => Err(glob_words(allowlist, t)),
        None => Ok(scope_trouble(changed, allowances(allowlist, changed), cap)),
    }
}

/// The scope check: reads the allowlist and holds every changed path against it.
pub fn scope_check(changed: &Vec<String>, allowlist: &Vec<String>, cap: Option<usize>) -> (r: Result<
    Option<GateOutcome>,
    String,
>)
    ensures
        match scope_result(changed.deep_view(), allowlist.deep_view(), cap) {
            Ok(o) => r matches Ok(out) && out.deep_view() == o,
            Err(e) => r matches Err(words) && words@ == e,
        },
{
    let count: usize = allowlist.len();
    match read_globs(allowlist) {
        Err(GlobTrouble::Pattern(i)) => {
            proof {
                assert(allowlist.deep_view().len() == count);
                lemma_bad_in_range(allowlist.deep_view());
            }
            Err(cat2("invalid allowlist glob ", &quote(&allowlist[i])))
        },
        Err(GlobTrouble::Build) => Err("building allowlist glob set".to_owned()),
        Ok(set) => {
            let mut allowed: Vec<bool> = Vec::new();
            let mut i: usize = 0;
            while i < changed.len()
                invariant
                    i <= changed@.len(),
                    allowed@.len() == i,
                    glob::patterns(set) == allowlist.deep_view(),
                    forall|j: int|
                        0 <= j < i ==> #[trigger] allowed@[j] == glob::any_matches(
                            allowlist.deep_view(),
                            changed@[j]@,
                        ),
                decreases changed@.len() - i,
            {
                allowed.push(is_match(&set, &changed[i]));
                i = i + 1;
            }
            assert(allowed@ =~= allowances(allowlist.deep_view(), changed.deep_view()));
            Ok(scope_verdict(changed, &allowed, cap))
        },
    }
}

proof fn lemma_bad_in_range(list: Seq<Seq<char>>)
    requires
        list.len() <= usize::MAX,
    ensures
        glob::globs_trouble(list) matches Some(GlobTrouble::Pattern(i)) ==> i < list.len(),
{
    if exists|i: int| 0 <= i < list.len() && !#[trigger] glob::glob_valid(list[i]) {
        let i = choose|i: int| 0 <= i < list.len() && !#[trigger] glob::glob_valid(list[i]);
        lemma_first_bad_below(list, i);
    }
}

proof fn lemma_first_bad_below(list: Seq<Seq<char>>, n: int)
    requires
        0 <= n < list.len(),
        !glob::glob_valid(list[n]),
    ensures
        0 <= glob::first_bad(list) <= n,
    decreases n,
{
    if glob::glob_valid(list[0]) {
        let rest = list.subrange(1, list.len() as int);
        assert(rest[n - 1] == list[n]);
        lemma_first_bad_below(rest, n - 1);
    }
}

// ---------------------------------------------------------------------------
// Check commands
// ---------------------------------------------------------------------------

/// What came of one check command.
#[derive(Debug)]
pub enum CommandReply {
    /// It could not be contained.
    WrapFailed,
    /// It could not be started.
    SpawnFailed,
    /// It ran.
    Ran {
        success: bool,
        stdout: String,
        stderr: String,
    },
}

/// What a run asks for next.
#[derive(Debug)]
pub enum GateStep {
    /// Run a command in the worktree with a login shell, contained.
    Run {
        command: String,
        args: Vec<String>,
    },
    /// The run is done.
    Done(GateOutcome),
    /// The run itself failed.
    Broken(String),
}

/// What a [`GateStep`] says.
#[verifier::ext_equal]
pub enum GateStepView {
    Run { command: Seq<char>, args: Seq<Seq<char>> },
    Done(GateOutcomeView),
    Broken(Seq<char>),
}

impl DeepView for GateStep {
    type V = GateStepView;

    open spec fn deep_view(&self) -> GateStepView {
        match self {
            GateStep::Run { command, args } => GateStepView::Run {
                command: command@,
                args: args.deep_view(),
            },
            GateStep::Done(outcome) => GateStepView::Done(outcome.deep_view()),
            GateStep::Broken(words) => GateStepView::Broken(words@),
        }
    }
}

/// A gate being run: the changed paths, and how many commands have succeeded.
#[derive(Debug)]
pub struct GateRun {
    pub changed: Vec<String>,
    pub succeeded: usize,
}

/// The request to run a command.
pub open spec fn command_request(command: Seq<char>) -> GateStepView {
    GateStepView::Run { command, args: seq!["-lc"@, command] }
}

/// What is asked once `n` commands have succeeded: the next one, or nothing more.
pub open spec fn after_successes(
    changed: Seq<Seq<char>>,
    commands: Seq<Seq<char>>,
    n: int,
) -> GateStepView {
    if n < commands.len() {
        command_request(commands[n])
    } else {
        GateStepView::Done(GateOutcomeView::Passed { changed })
    }
}

/// The part of a command's output that is kept.
pub open spec fn digest(stdout: Seq<char>, stderr: Seq<char>) -> Seq<char> {
    let all = stdout + stderr;
    all.take(if OUTPUT_DIGEST_CAP < all.len() { OUTPUT_DIGEST_CAP as int } else { all.len() as int })
}

/// What a run asks first, given the changed paths.
pub open spec fn gate_opening(
    changed: Seq<Seq<char>>,
    allowlist: Seq<Seq<char>>,
    cap: Option<usize>,
    commands: Seq<Seq<char>>,
) -> GateStepView {
    match scope_result(changed, allowlist, cap) {
        Err(e) => GateStepView::Broken(e),
        Ok(Some(outcome)) => GateStepView::Done(outcome),
        Ok(None) => after_successes(changed, commands, 0),
    }
}

/// What a run asks after a command.
pub open spec fn gate_next(
    changed: Seq<Seq<char>>,
    commands: Seq<Seq<char>>,
    n: int,
    reply: CommandReply,
) -> GateStepView {
    match reply {
        CommandReply::WrapFailed => GateStepView::Broken(
            "wrapping check command "@ + text::quoted(commands[n]) + " for containment"@,
        ),
        CommandReply::SpawnFailed => GateStepView::Broken(
            "spawning check command "@ + text::quoted(commands[n]),
        ),
        CommandReply::Ran { success, stdout, stderr } => if success {
            after_successes(changed, commands, n + 1)
        } else {
            GateStepView::Done(
                GateOutcomeView::ChecksFailed {
                    command: commands[n],
                    output_digest: digest(stdout@, stderr@),
                    changed,
                },
            )
        },
    }
}

impl GateRun {
    /// Begins a run with the changed paths, or with the failure to
    /// find them out.
    pub fn begin(
        changed: Option<Vec<String>>,
        allowlist: &Vec<String>,
        max_changed_files: Option<usize>,
        check_commands: &Vec<String>,
    ) -> (r: (GateRun, GateStep))
        ensures
            r.0.succeeded == 0,
            match changed {
                Some(c) => r.0.changed.deep_view() == c.deep_view() && r.1.deep_view()
                    == gate_opening(
                    c.deep_view(),
                    allowlist.deep_view(),
                    max_changed_files,
                    check_commands.deep_view(),
                ),
                None => r.1.deep_view() == GateStepView::Broken(
                    "computing changed files for scope check"@,
                ),
            },
    {
        match changed {
            None => (
                GateRun { changed: Vec::new(), succeeded: 0 },
                GateStep::Broken("computing changed files for scope check".to_owned()),
            ),
            Some(changed) => {
                let step = match scope_check(&changed, allowlist, max_changed_files) {
                    Err(e) => GateStep::Broken(e),
                    Ok(Some(outcome)) => GateStep::Done(outcome),
                    Ok(None) => next_command(&changed, check_commands, 0),
                };
                (GateRun { changed, succeeded: 0 }, step)
            },
        }
    }

    /// Takes what came of the command that was asked for.
    pub fn on_command(&mut self, check_commands: &Vec<String>, reply: CommandReply) -> (r: GateStep)
        requires
            old(self).succeeded < check_commands@.len(),
        ensures
            r.deep_view() == gate_next(
                old(self).changed.deep_view(),
                check_commands.deep_view(),
                old(self).succeeded as int,
                reply,
            ),
            final(self).changed == old(self).changed,
            final(self).succeeded == old(self).succeeded + (if reply matches CommandReply::Ran {
                success,
                ..
            } && success {
                1int
            } else {
                0int
            }),
    {
        let count: usize = check_commands.len();
        let command = &check_commands[self.succeeded];
        match reply {
            CommandReply::WrapFailed => GateStep::Broken(
                cat3("wrapping check command ", &quote(command), " for containment"),
            ),
            CommandReply::SpawnFailed => GateStep::Broken(
                cat2("spawning check command ", &quote(command)),
            ),
            CommandReply::Ran { success, stdout, stderr } => {
                if success {
                    assert(self.succeeded < count);
                    self.succeeded = self.succeeded + 1;
                    next_command(&self.changed, check_commands, self.succeeded)
                } else {
                    GateStep::Done(
                        GateOutcome::ChecksFailed {
                            command: command.clone(),
                            output_digest: take_chars(&cat2(&stdout, &stderr), OUTPUT_DIGEST_CAP),
                            changed: self.changed.clone(),
                        },
                    )
                }
            },
        }
    }
}

fn next_command(changed: &Vec<String>, commands: &Vec<String>, n: usize) -> (r: GateStep)
    ensures
        r.deep_view() == after_successes(changed.deep_view(), commands.deep_view(), n as int),
{
    if n < commands.len() {
        let mut args: Vec<String> = Vec::new();
        args.push("-lc".to_owned());
        args.push(commands[n].clone());
        assert(args.deep_view() =~= seq!["-lc"@, commands@[n as int]@]);
        GateStep::Run { command: commands[n].clone(), args }
    } else {
        GateStep::Done(GateOutcome::Passed { changed: changed.clone() })
    }
}

// ---------------------------------------------------------------------------
// Hermetic environment
// ---------------------------------------------------------------------------

/// The fixed variables that a check command does not inherit.
pub open spec fn fixed_scrub() -> Seq<Seq<char>> {
    seq!["XDG_CONFIG_HOME"@, "XDG_STATE_HOME"@, "XDG_DATA_HOME"@, "XDG_RUNTIME_DIR"@]
}

/// The variables among `keys` that begin with the daemon's own prefix, in order.
pub open spec fn own_keys(keys: Seq<Seq<char>>) -> Seq<Seq<char>>
    decreases keys.len(),
{
    if keys.len() == 0 {
        Seq::empty()
    } else {
        let before = own_keys(keys.drop_last());
        if text::begins(keys.last(), "MAESTRO_"@) {
            before.push(keys.last())
        } else {
            before
        }
    }
}

/// The environment variables that a check command does not inherit, given the
/// names in the daemon's environment: the daemon's own directories and every
/// variable with its prefix.
pub fn hermetic_scrub_keys(env_keys: &Vec<String>) -> (r: Vec<String>)
    ensures
        r.deep_view() == fixed_scrub() + own_keys(env_keys.deep_view()),
{
    let ghost all = env_keys.deep_view();
    let mut keys: Vec<String> = Vec::new();
    keys.push("XDG_CONFIG_HOME".to_owned());
    keys.push("XDG_STATE_HOME".to_owned());
    keys.push("XDG_DATA_HOME".to_owned());
    keys.push("XDG_RUNTIME_DIR".to_owned());
    let mut i: usize = 0;
    assert(all.take(0) =~= Seq::<Seq<char>>::empty());
    assert(keys.deep_view() =~= fixed_scrub() + own_keys(all.take(0)));
    while i < env_keys.len()
        invariant
            i <= env_keys@.len(),
            all == env_keys.deep_view(),
            keys.deep_view() == fixed_scrub() + own_keys(all.take(i as int)),
        decreases env_keys@.len() - i,
    {
        proof {
            let now = all.take(i + 1);
            assert(now.drop_last() =~= all.take(i as int));
            assert(now.last() == env_keys@[i as int]@);
        }
        if starts_with(&env_keys[i], "MAESTRO_") {
            let ghost before = keys.deep_view();
            keys.push(env_keys[i].clone());
            assert(keys.deep_view() =~= before.push(env_keys@[i as int]@));
            assert(keys.deep_view() =~= fixed_scrub() + own_keys(all.take(i + 1)));
        }
        i = i + 1;
    }
    assert(all.take(env_keys@.len() as int) =~= all);
    keys
}

// ---------------------------------------------------------------------------
// Laws
// ---------------------------------------------------------------------------

proof fn lemma_unflagged(paths: Seq<Seq<char>>, flags: Seq<bool>)
    requires
        paths.len() <= flags.len(),
    ensures
        unflagged(paths, flags).len() == 0 <==> (forall|i: int|
            0 <= i < paths.len() ==> #[trigger] flags[i]),
        forall|i: int|
            0 <= i < paths.len() && !#[trigger] flags[i] ==> unflagged(paths, flags).contains(
                paths[i],
            ),
    decreases paths.len(),
{
    if paths.len() > 0 {
        let before = unflagged(paths.drop_last(), flags);
        lemma_unflagged(paths.drop_last(), flags);
        let all = unflagged(paths, flags);
        assert forall|i: int| 0 <= i < paths.len() && !#[trigger] flags[i] implies all.contains(
            paths[i],
        ) by {
            if i == paths.len() - 1 {
                assert(all.last() == paths[i]);
                assert(all[all.len() - 1] == paths[i]);
            } else {
                assert(paths.drop_last()[i] == paths[i]);
                let k = choose|k: int| 0 <= k < before.len() && before[k] == paths[i];
                assert(all[k] == paths[i]);
            }
        }
        if flags[paths.len() - 1] {
            assert(all == before);
        } else {
            assert(all.len() > 0);
        }
    }
}

/// A path outside the allowlist is always a scope violation that names it, even
/// where the tightened cap is exceeded as well.
pub proof fn law_scope_comes_first(
    changed: Seq<Seq<char>>,
    allowlist: Seq<Seq<char>>,
    cap: Option<usize>,
    i: int,
)
    requires
        glob::globs_trouble(allowlist) is None,
        0 <= i < changed.len(),
        !glob::any_matches(allowlist, changed[i]),
    ensures
        scope_result(changed, allowlist, cap) matches Ok(
            Some(GateOutcomeView::ScopeViolation { offending }),
        ) && offending.contains(changed[i]),
{
    let flags = allowances(allowlist, changed);
    lemma_unflagged(changed, flags);
    assert(!flags[i]);
}

/// The check commands run only on work that is wholly inside the allowlist and
/// within the cap.
pub proof fn law_commands_run_only_in_scope(
    changed: Seq<Seq<char>>,
    allowlist: Seq<Seq<char>>,
    cap: Option<usize>,
)
    requires
        scope_result(changed, allowlist, cap) == Ok::<Option<GateOutcomeView>, Seq<char>>(None),
    ensures
        forall|i: int|
            0 <= i < changed.len() ==> glob::any_matches(allowlist, #[trigger] changed[i]),
        cap matches Some(c) ==> changed.len() <= c,
{
    let flags = allowances(allowlist, changed);
    lemma_unflagged(changed, flags);
    assert forall|i: int| 0 <= i < changed.len() implies glob::any_matches(
        allowlist,
        #[trigger] changed[i],
    ) by {
        assert(flags[i]);
    }
}

/// Under an empty allowlist any change is a violation.
pub proof fn law_empty_allowlist_allows_nothing(changed: Seq<Seq<char>>, cap: Option<usize>)
    requires
        changed.len() > 0,
        glob::globs_trouble(Seq::empty()) is None,
    ensures
        scope_result(changed, Seq::empty(), cap) matches Ok(
            Some(GateOutcomeView::ScopeViolation { offending }),
        ) && offending.contains(changed[0]),
{
    law_scope_comes_first(changed, Seq::empty(), cap, 0);
}

/// A run passes only once every check command has succeeded, and what it
/// passes is exactly the set of paths taken before the first one ran.
pub proof fn law_pass_means_every_command_succeeded(
    changed: Seq<Seq<char>>,
    commands: Seq<Seq<char>>,
    n: int,
    reply: CommandReply,
)
    requires
        0 <= n < commands.len(),
        gate_next(changed, commands, n, reply) matches GateStepView::Done(
            GateOutcomeView::Passed { .. },
        ),
    ensures
        n + 1 == commands.len(),
        reply matches CommandReply::Ran { success, .. } && success,
        gate_next(changed, commands, n, reply) == GateStepView::Done(
            GateOutcomeView::Passed { changed },
        ),
{
}

proof fn lemma_offenders(
    changed: Seq<Seq<char>>,
    flags: Seq<bool>,
    allowed: spec_fn(Seq<char>) -> bool,
)
    requires
        changed.len() <= flags.len(),
        forall|i: int| 0 <= i < changed.len() ==> flags[i] == allowed(#[trigger] changed[i]),
    ensures
        unflagged(changed, flags) == changed.filter(|p: Seq<char>| !allowed(p)),
    decreases changed.len(),
{
    reveal(Seq::filter);
    if changed.len() > 0 {
        let rest = changed.drop_last();
        assert forall|i: int| 0 <= i < rest.len() implies flags[i] == allowed(#[trigger] rest[i]) by {
            assert(rest[i] == changed[i]);
        }
        lemma_offenders(rest, flags, allowed);
        assert(changed[changed.len() - 1] == changed.last());
    }
}

/// A scope violation names every changed path that no pattern allows and only
/// those, in their order; where there is none, the only other trouble is more
/// changed paths than the cap. An allowlist that cannot be read is an error, and
/// nothing is judged by it.
pub proof fn law_scope_is_judged_path_by_path(
    changed: Seq<Seq<char>>,
    allowlist: Seq<Seq<char>>,
    cap: Option<usize>,
)
    ensures
        scope_result(changed, allowlist, cap) is Err <==> glob::globs_trouble(allowlist) is Some,
        glob::globs_trouble(allowlist) is None ==> {
            let outside = changed.filter(|p: Seq<char>| !glob::any_matches(allowlist, p));
            let trouble = scope_result(changed, allowlist, cap)->Ok_0;
            &&& outside.len() > 0 ==> trouble == Some(
                GateOutcomeView::ScopeViolation { offending: outside },
            )
            &&& outside.len() == 0 && cap is Some && changed.len() > cap->0 ==> trouble == Some(
                GateOutcomeView::TightenedScopeExceeded {
                    changed: changed.len(),
                    cap: cap->0 as nat,
                    files: changed.take(
                        if changed.len() < 50 {
                            changed.len() as int
                        } else {
                            50
                        },
                    ),
                },
            )
            &&& outside.len() == 0 && (cap is None || changed.len() <= cap->0) ==> trouble is None
        },
{
    let allowed = |p: Seq<char>| glob::any_matches(allowlist, p);
    let flags = allowances(allowlist, changed);
    lemma_offenders(changed, flags, allowed);
    assert(changed.filter(|p: Seq<char>| !allowed(p)) =~= changed.filter(
        |p: Seq<char>| !glob::any_matches(allowlist, p),
    )) by {
        assert((|p: Seq<char>| !allowed(p)) =~= (|p: Seq<char>| !glob::any_matches(allowlist, p)));
    }
    assert(changed.take(changed.len() as int) =~= changed);
}

/// Work in scope is judged by the commands, in their order, each by a login shell;
/// the first that fails is reported with what it wrote, and none runs after it.
pub proof fn law_commands_run_in_order(
    changed: Seq<Seq<char>>,
    allowlist: Seq<Seq<char>>,
    cap: Option<usize>,
    commands: Seq<Seq<char>>,
    n: int,
    stdout: String,
    stderr: String,
)
    requires
        0 <= n < commands.len(),
    ensures
        scope_result(changed, allowlist, cap) == Ok::<Option<GateOutcomeView>, Seq<char>>(None)
            ==> gate_opening(changed, allowlist, cap, commands) == (GateStepView::Run {
            command: commands[0],
            args: seq!["-lc"@, commands[0]],
        }) && gate_opening(changed, allowlist, cap, Seq::empty()) == GateStepView::Done(
            GateOutcomeView::Passed { changed },
        ),
        n + 1 < commands.len() ==> gate_next(
            changed,
            commands,
            n,
            CommandReply::Ran { success: true, stdout, stderr },
        ) == (GateStepView::Run {
            command: commands[n + 1],
            args: seq!["-lc"@, commands[n + 1]],
        }),
        n + 1 == commands.len() ==> gate_next(
            changed,
            commands,
            n,
            CommandReply::Ran { success: true, stdout, stderr },
        ) == GateStepView::Done(GateOutcomeView::Passed { changed }),
        gate_next(changed, commands, n, CommandReply::Ran { success: false, stdout, stderr })
            == GateStepView::Done(
            GateOutcomeView::ChecksFailed {
                command: commands[n],
                output_digest: digest(stdout@, stderr@),
                changed,
            },
        ),
        gate_next(changed, commands, n, CommandReply::WrapFailed) is Broken,
        gate_next(changed, commands, n, CommandReply::SpawnFailed) is Broken,
        scope_result(changed, allowlist, cap) matches Err(e) ==> gate_opening(
            changed,
            allowlist,
            cap,
            commands,
        ) == GateStepView::Broken(e),
        scope_result(changed, allowlist, cap) matches Ok(Some(o)) ==> gate_opening(
            changed,
            allowlist,
            cap,
            commands,
        ) == GateStepView::Done(o),
{
}

/// What is kept of a command's output is the beginning of what it wrote and then
/// of what it complained of, all of it where that is short.
pub proof fn law_digest_is_a_beginning(stdout: Seq<char>, stderr: Seq<char>)
    ensures
        digest(stdout, stderr).is_prefix_of(stdout + stderr),
        (stdout + stderr).len() <= 4000 ==> digest(stdout, stderr) == stdout + stderr,
        (stdout + stderr).len() > 4000 ==> digest(stdout, stderr).len() == 4000,
{
    let all = stdout + stderr;
    assert(all.take(all.len() as int) =~= all);
}

/// The variables that are the daemon's own are the ones under its prefix, in their
/// order, and no others.
pub proof fn law_own_keys_are_prefixed(keys: Seq<Seq<char>>)
    ensures
        own_keys(keys) == keys.filter(|k: Seq<char>| text::begins(k, "MAESTRO_"@)),
    decreases keys.len(),
{
    reveal(Seq::filter);
    if keys.len() > 0 {
        law_own_keys_are_prefixed(keys.drop_last());
    }
}

/// An allowlist that cannot be read is explained by the pattern that is at fault.
pub proof fn law_bad_patterns_are_quoted(list: Seq<Seq<char>>, i: usize)
    requires
        i < list.len(),
    ensures
        text::contains_text(
            glob_words(list, GlobTrouble::Pattern(i)),
            text::quoted(list[i as int]),
        ),
        glob_words(list, GlobTrouble::Build) == "building allowlist glob set"@,
{
    let a = "invalid allowlist glob "@;
    let q = text::quoted(list[i as int]);
    text::lemma_stands_inside(a, q, Seq::empty());
    assert(a + q + Seq::<char>::empty() =~= a + q);
}

/// The daemon's own directories are kept from a check command: all four of them,
/// and nothing else that has no prefix of the daemon's.
pub proof fn law_own_directories_are_kept_back(key: Seq<char>)
    ensures
        fixed_scrub().contains(key) <==> key == "XDG_CONFIG_HOME"@ || key == "XDG_STATE_HOME"@ || key
            == "XDG_DATA_HOME"@ || key == "XDG_RUNTIME_DIR"@,
{
    let all = fixed_scrub();
    assert(all[0] == "XDG_CONFIG_HOME"@ && all[1] == "XDG_STATE_HOME"@);
    assert(all[2] == "XDG_DATA_HOME"@ && all[3] == "XDG_RUNTIME_DIR"@);
}

} // verus!
