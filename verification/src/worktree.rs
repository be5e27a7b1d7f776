//! Worktrees and task branches: where they are, what is committed from them,
//! how a fresh one is cut without losing work, and how a task's branch is
//! merged.

use crate::git::{self, args_in, with_all, Command, CommandView, GitReply, Rule, Script};
use crate::glob::{self, is_match};
use crate::text::{self, cat2, lines_with_content, path_join, same, trim};
use vstd::prelude::*;

verus! {

// ---------------------------------------------------------------------------
// Places and names
// ---------------------------------------------------------------------------

/// The branch of a task.
pub open spec fn branch_of(task_id: Seq<char>) -> Seq<char> {
    "maestro/"@ + task_id
}

/// The full name of a branch.
pub open spec fn head_ref(branch: Seq<char>) -> Seq<char> {
    "refs/heads/"@ + branch
}

fn task_branch(task_id: &str) -> (r: String)
    ensures
        r@ == branch_of(task_id@),
{
    cat2("maestro/", task_id)
}

fn full_ref(branch: &str) -> (r: String)
    ensures
        r@ == head_ref(branch@),
{
    cat2("refs/heads/", branch)
}

/// Where a task's worktree is: under `worktrees` in the state directory.
pub fn worktree_path(state_dir: &str, task_id: &str) -> (r: String)
    ensures
        r@ == text::path_joined(text::path_joined(state_dir@, "worktrees"@), task_id@),
{
    path_join(&path_join(state_dir, "worktrees"), task_id)
}

/// Whether a task's earlier worktree can be used in place: it exists and `git`
/// still knows it as a working tree.
pub fn reuse(exists: bool, inside_work_tree: bool) -> (r: bool)
    ensures
        r == (exists && inside_work_tree),
{
    exists && inside_work_tree
}

/// The probe whether a directory is a live working tree.
pub fn live_probe(worktree: &str) -> (r: Vec<String>)
    ensures
        r.deep_view() == git::in_dir(
            worktree@,
            seq!["rev-parse"@, "--is-inside-work-tree"@],
        ),
{
    let words = vec!["rev-parse", "--is-inside-work-tree"];
    assert(words.deep_view() =~= seq!["rev-parse"@, "--is-inside-work-tree"@]);
    args_in(worktree, words)
}

/// The probe whether a reference names a local branch.
pub fn branch_probe(repo: &str, base_ref: &str) -> (r: Vec<String>)
    ensures
        r.deep_view() == git::in_dir(
            repo@,
            seq!["rev-parse"@, "--verify"@, "--quiet"@, head_ref(base_ref@)],
        ),
{
    let full = full_ref(base_ref);
    let words = vec!["rev-parse", "--verify", "--quiet", full.as_str()];
    assert(words.deep_view() =~= seq!["rev-parse"@, "--verify"@, "--quiet"@, head_ref(base_ref@)]);
    args_in(repo, words)
}

/// The question which branch is checked out.
pub fn head_query(repo: &str) -> (r: Vec<String>)
    ensures
        r.deep_view() == git::in_dir(
            repo@,
            seq!["symbolic-ref"@, "--quiet"@, "--short"@, "HEAD"@],
        ),
{
    let words = vec!["symbolic-ref", "--quiet", "--short", "HEAD"];
    assert(words.deep_view() =~= seq!["symbolic-ref"@, "--quiet"@, "--short"@, "HEAD"@]);
    args_in(repo, words)
}

/// A base reference that can be merged into, as far as there is one: a local
/// branch stays itself; `HEAD`, or the name of the checked-out branch, becomes
/// that branch; anything else stays as it is.
pub fn resolve_base_ref(base_ref: &str, is_local_branch: bool, current_branch: Option<&str>) -> (r:
    String)
    ensures
        r@ == (match current_branch {
            Some(b) if !is_local_branch && (base_ref@ == "HEAD"@ || base_ref@ == b@) => b@,
            _ => base_ref@,
        }),
{
    if is_local_branch {
        return base_ref.to_owned();
    }
    match current_branch {
        Some(b) => {
            if same(base_ref, "HEAD") || same(base_ref, b) {
                return b.to_owned();
            }
        },
        None => {},
    }
    base_ref.to_owned()
}

/// The question which commit a reference points at.
pub fn commit_query(repo: &str, base_ref: &str) -> (r: Vec<String>)
    ensures
        r.deep_view() == git::in_dir(
            repo@,
            seq!["rev-parse"@, "--verify"@, "--quiet"@, base_ref@ + "^{commit}"@],
        ),
{
    let peeled = cat2(base_ref, "^{commit}");
    let words = vec!["rev-parse", "--verify", "--quiet", peeled.as_str()];
    assert(words.deep_view() =~= seq![
        "rev-parse"@,
        "--verify"@,
        "--quiet"@,
        base_ref@ + "^{commit}"@,
    ]);
    args_in(repo, words)
}

/// The commit a reference points at, given how the question ended; nothing where
/// it does not point at one.
pub fn resolve_to_sha(reply: GitReply) -> (r: Option<String>)
    ensures
        r.deep_view() == (if reply.ok() {
            Some(text::trimmed(reply.out()))
        } else {
            None
        }),
{
    match reply {
        GitReply::NotStarted(_) => None,
        GitReply::Ran { success, stdout, .. } => if success {
            Some(trim(&stdout).to_owned())
        } else {
            None
        },
    }
}

// ---------------------------------------------------------------------------
// Reading and committing changes
// ---------------------------------------------------------------------------

/// A command that must succeed.
pub open spec fn must(args: Seq<Seq<char>>) -> CommandView {
    CommandView { args, rule: Rule::Must }
}

/// The command that stages everything.
pub open spec fn stage_all(worktree: Seq<char>) -> Seq<Seq<char>> {
    git::in_dir(worktree, seq!["add"@, "-A"@])
}

fn add_all(worktree: &str) -> (r: Vec<String>)
    ensures
        r.deep_view() == stage_all(worktree@),
{
    let words = vec!["add", "-A"];
    assert(words.deep_view() =~= seq!["add"@, "-A"@]);
    args_in(worktree, words)
}

fn script2(a: Command, b: Command) -> (r: Script)
    ensures
        r.commands.deep_view() == seq![a.deep_view(), b.deep_view()],
        r.done == 0,
{
    let mut commands: Vec<Command> = Vec::new();
    let ghost want = seq![a.deep_view(), b.deep_view()];
    commands.push(a);
    commands.push(b);
    assert(commands.deep_view() =~= want);
    Script::of(commands)
}

/// The script that finds out which paths changed against a base: everything is
/// staged first, so that new files count.
pub fn changed_files_script(worktree: &str, base_ref: &str) -> (r: Script)
    ensures
        r.done == 0,
        r.commands.deep_view() == seq![
            must(stage_all(worktree@)),
            must(
                git::in_dir(
                    worktree@,
                    seq!["diff"@, "--cached"@, "--name-only"@, base_ref@],
                ),
            ),
        ],
{
    let words = vec!["diff", "--cached", "--name-only", base_ref];
    assert(words.deep_view() =~= seq!["diff"@, "--cached"@, "--name-only"@, base_ref@]);
    script2(
        Command { args: add_all(worktree), rule: Rule::Must },
        Command { args: args_in(worktree, words), rule: Rule::Must },
    )
}

/// The changed paths that the script found: the lines it wrote, without blank
/// ones.
pub fn changed_files(out: &str) -> (r: Vec<String>)
    ensures
        r.deep_view() == text::content_lines(out@),
{
    lines_with_content(out)
}

/// The script that takes the diff of a worktree against a base.
pub fn diff(worktree: &str, base_ref: &str) -> (r: Script)
    ensures
        r.done == 0,
        r.commands.deep_view() == seq![
            must(stage_all(worktree@)),
            must(git::in_dir(worktree@, seq!["diff"@, "--cached"@, base_ref@])),
        ],
{
    let words = vec!["diff", "--cached", base_ref];
    assert(words.deep_view() =~= seq!["diff"@, "--cached"@, base_ref@]);
    script2(
        Command { args: add_all(worktree), rule: Rule::Must },
        Command { args: args_in(worktree, words), rule: Rule::Must },
    )
}

/// The script that takes the diff of a worktree as it is, whatever fails.
pub fn snapshot_diff(worktree: &str, base_ref: &str) -> (r: Script)
    ensures
        r.done == 0,
        r.commands.deep_view() == seq![
            CommandView { args: stage_all(worktree@), rule: Rule::May },
            CommandView {
                args: git::in_dir(worktree@, seq!["diff"@, "--cached"@, base_ref@]),
                rule: Rule::May,
            },
        ],
{
    let words = vec!["diff", "--cached", base_ref];
    assert(words.deep_view() =~= seq!["diff"@, "--cached"@, base_ref@]);
    script2(
        Command { args: add_all(worktree), rule: Rule::May },
        Command { args: args_in(worktree, words), rule: Rule::May },
    )
}

/// The script that takes the diff of exactly some paths; nothing to run where
/// there are none, and then the diff is empty.
pub fn diff_paths(worktree: &str, base_ref: &str, paths: &Vec<String>) -> (r: Option<Script>)
    ensures
        match r {
            None => paths@.len() == 0,
            Some(s) => paths@.len() > 0 && s.done == 0 && s.commands.deep_view() == seq![
                must(stage_all(worktree@)),
                must(
                    git::in_dir(worktree@, seq!["diff"@, "--cached"@, base_ref@, "--"@])
                        + paths.deep_view(),
                ),
            ],
        },
{
    if paths.len() == 0 {
        return None;
    }
    let words = vec!["diff", "--cached", base_ref, "--"];
    assert(words.deep_view() =~= seq!["diff"@, "--cached"@, base_ref@, "--"@]);
    let args = with_all(args_in(worktree, words), paths);
    Some(
        script2(
            Command { args: add_all(worktree), rule: Rule::Must },
            Command { args, rule: Rule::Must },
        ),
    )
}

/// The script that commits everything, unless nothing is staged.
pub fn commit_all(worktree: &str, message: &str) -> (r: Script)
    ensures
        r.done == 0,
        r.commands.deep_view() == seq![
            must(stage_all(worktree@)),
            CommandView {
                args: git::in_dir(worktree@, seq!["diff"@, "--cached"@, "--quiet"@]),
                rule: Rule::UnlessClean,
            },
            must(git::in_dir(worktree@, seq!["commit"@, "-m"@, message@])),
        ],
{
    let probe = vec!["diff", "--cached", "--quiet"];
    let commit = vec!["commit", "-m", message];
    assert(probe.deep_view() =~= seq!["diff"@, "--cached"@, "--quiet"@]);
    assert(commit.deep_view() =~= seq!["commit"@, "-m"@, message@]);
    let mut commands: Vec<Command> = Vec::new();
    commands.push(Command { args: add_all(worktree), rule: Rule::Must });
    commands.push(Command { args: args_in(worktree, probe), rule: Rule::UnlessClean });
    commands.push(Command { args: args_in(worktree, commit), rule: Rule::Must });
    assert(commands.deep_view() =~= seq![
        must(stage_all(worktree@)),
        CommandView {
            args: git::in_dir(worktree@, seq!["diff"@, "--cached"@, "--quiet"@]),
            rule: Rule::UnlessClean,
        },
        must(git::in_dir(worktree@, seq!["commit"@, "-m"@, message@])),
    ]);
    Script::of(commands)
}

/// The commands that commit exactly some paths.
pub open spec fn commit_commands(
    worktree: Seq<char>,
    paths: Seq<Seq<char>>,
    message: Seq<char>,
) -> Seq<CommandView> {
    seq![
        must(git::in_dir(worktree, seq!["reset"@, "-q"@])),
        must(git::in_dir(worktree, seq!["add"@, "--"@]) + paths),
        CommandView {
            args: git::in_dir(worktree, seq!["diff"@, "--cached"@, "--quiet"@, "--"@]) + paths,
            rule: Rule::UnlessClean,
        },
        must(git::in_dir(worktree, seq!["commit"@, "-m"@, message, "--"@]) + paths),
    ]
}

/// The script that commits exactly some paths: the index is cleared first, so
/// that nothing staged earlier slips in, and the commit names the paths again.
/// Nothing to run where there are none.
pub fn commit_paths(worktree: &str, paths: &Vec<String>, message: &str) -> (r: Option<Script>)
    ensures
        match r {
            None => paths@.len() == 0,
            Some(s) => paths@.len() > 0 && s.done == 0 && s.commands.deep_view()
                == commit_commands(worktree@, paths.deep_view(), message@),
        },
{
    if paths.len() == 0 {
        return None;
    }
    let reset = vec!["reset", "-q"];
    let add = vec!["add", "--"];
    let probe = vec!["diff", "--cached", "--quiet", "--"];
    let commit = vec!["commit", "-m", message, "--"];
    assert(reset.deep_view() =~= seq!["reset"@, "-q"@]);
    assert(add.deep_view() =~= seq!["add"@, "--"@]);
    assert(probe.deep_view() =~= seq!["diff"@, "--cached"@, "--quiet"@, "--"@]);
    assert(commit.deep_view() =~= seq!["commit"@, "-m"@, message@, "--"@]);
    let mut commands: Vec<Command> = Vec::new();
    commands.push(Command { args: args_in(worktree, reset), rule: Rule::Must });
    commands.push(Command { args: with_all(args_in(worktree, add), paths), rule: Rule::Must });
    commands.push(
        Command { args: with_all(args_in(worktree, probe), paths), rule: Rule::UnlessClean },
    );
    commands.push(Command { args: with_all(args_in(worktree, commit), paths), rule: Rule::Must });
    assert(commands.deep_view() =~= commit_commands(worktree@, paths.deep_view(), message@));
    Some(Script::of(commands))
}

/// The command that deletes a task's branch.
pub open spec fn branch_deletion(repo: Seq<char>, task_id: Seq<char>) -> Seq<Seq<char>> {
    git::in_dir(repo, seq!["branch"@, "-D"@, branch_of(task_id)])
}

/// The command that deletes a task's branch; its failure never matters.
pub fn delete_branch(repo: &str, task_id: &str) -> (r: Vec<String>)
    ensures
        r.deep_view() == branch_deletion(repo@, task_id@),
{
    let branch = task_branch(task_id);
    let words = vec!["branch", "-D", branch.as_str()];
    assert(words.deep_view() =~= seq!["branch"@, "-D"@, branch_of(task_id@)]);
    args_in(repo, words)
}

/// The command that removes a worktree; its failure never matters.
pub fn remove(repo: &str, worktree: &str) -> (r: Vec<String>)
    ensures
        r.deep_view() == git::in_dir(
            repo@,
            seq!["worktree"@, "remove"@, "--force"@, worktree@],
        ),
{
    let words = vec!["worktree", "remove", "--force", worktree];
    assert(words.deep_view() =~= seq!["worktree"@, "remove"@, "--force"@, worktree@]);
    args_in(repo, words)
}

/// The paths that any of the patterns matches, in order.
pub open spec fn matching(patterns: Seq<Seq<char>>, paths: Seq<Seq<char>>) -> Seq<Seq<char>>
    decreases paths.len(),
{
    if paths.len() == 0 {
        Seq::empty()
    } else {
        let before = matching(patterns, paths.drop_last());
        if glob::any_matches(patterns, paths.last()) {
            before.push(paths.last())
        } else {
            before
        }
    }
}

/// The changed paths inside an allowlist: those that a readable pattern matches,
/// in order; none where the changed paths could not be found out, or where the
/// readable patterns make no set.
pub open spec fn allowed_changes(
    changed: Option<Seq<Seq<char>>>,
    allowlist: Seq<Seq<char>>,
) -> Seq<Seq<char>> {
    match changed {
        Some(paths) => if glob::globs_build(glob::readable(allowlist)) {
            matching(glob::readable(allowlist), paths)
        } else {
            Seq::empty()
        },
        None => Seq::empty(),
    }
}

/// The changed paths inside an allowlist.
pub fn changed_in_allowlist(changed: Option<Vec<String>>, allowlist: &Vec<String>) -> (r: Vec<
    String,
>)
    ensures
        r.deep_view() == allowed_changes(changed.deep_view(), allowlist.deep_view()),
{
    let changed = match changed {
        Some(paths) => paths,
        None => {
            let none: Vec<String> = Vec::new();
            assert(none.deep_view() =~= Seq::<Seq<char>>::empty());
            return none;
        },
    };
    let set = match glob::read_valid_globs(allowlist) {
        Some(set) => set,
        None => {
            let none: Vec<String> = Vec::new();
            assert(none.deep_view() =~= Seq::<Seq<char>>::empty());
            return none;
        },
    };
    let ghost all = changed.deep_view();
    let mut out: Vec<String> = Vec::new();
    let mut i: usize = 0;
    assert(all.take(0) =~= Seq::<Seq<char>>::empty());
    assert(out.deep_view() =~= Seq::<Seq<char>>::empty());
    while i < changed.len()
        invariant
            i <= changed@.len(),
            all == changed.deep_view(),
            glob::patterns(set) == glob::readable(allowlist.deep_view()),
            out.deep_view() == matching(glob::readable(allowlist.deep_view()), all.take(i as int)),
        decreases changed@.len() - i,
    {
        proof {
            let now = all.take(i + 1);
            assert(now.drop_last() =~= all.take(i as int));
            assert(now.last() == changed@[i as int]@);
        }
        if is_match(&set, &changed[i]) {
            let ghost before = out.deep_view();
            out.push(changed[i].clone());
            assert(out.deep_view() =~= before.push(changed@[i as int]@));
        }
        i = i + 1;
    }
    assert(all.take(changed@.len() as int) =~= all);
    out
}

proof fn lemma_matching(patterns: Seq<Seq<char>>, paths: Seq<Seq<char>>)
    ensures
        forall|i: int|
            0 <= i < matching(patterns, paths).len() ==> paths.contains(
                #[trigger] matching(patterns, paths)[i],
            ) && glob::any_matches(patterns, matching(patterns, paths)[i]),
    decreases paths.len(),
{
    if paths.len() > 0 {
        let rest = paths.drop_last();
        lemma_matching(patterns, rest);
        let before = matching(patterns, rest);
        let all = matching(patterns, paths);
        assert forall|i: int| 0 <= i < all.len() implies paths.contains(#[trigger] all[i])
            && glob::any_matches(patterns, all[i]) by {
            if i < before.len() {
                assert(all[i] == before[i]);
                let j = choose|j: int| 0 <= j < rest.len() && rest[j] == before[i];
                assert(paths[j] == all[i]);
            } else {
                assert(paths[paths.len() - 1] == all[i]);
            }
        }
    }
}

/// Only what the allowlist allows counts: each path was changed and matches one of
/// its patterns, and an empty allowlist allows nothing.
pub proof fn law_only_allowed_changes_count(
    changed: Option<Seq<Seq<char>>>,
    allowlist: Seq<Seq<char>>,
)
    ensures
        forall|i: int|
            0 <= i < allowed_changes(changed, allowlist).len() ==> {
                let path = #[trigger] allowed_changes(changed, allowlist)[i];
                changed is Some && changed->0.contains(path) && glob::any_matches(
                    glob::readable(allowlist),
                    path,
                )
            },
        allowlist.len() == 0 ==> allowed_changes(changed, allowlist) == Seq::<Seq<char>>::empty(),
{
    if changed is Some {
        lemma_matching(glob::readable(allowlist), changed->0);
        if allowlist.len() == 0 && allowed_changes(changed, allowlist).len() > 0 {
            assert(glob::any_matches(
                glob::readable(allowlist),
                matching(glob::readable(allowlist), changed->0)[0],
            ));
        }
    }
}

proof fn lemma_matching_is_filtering(patterns: Seq<Seq<char>>, paths: Seq<Seq<char>>)
    ensures
        matching(patterns, paths) == paths.filter(|p: Seq<char>| glob::any_matches(patterns, p)),
    decreases paths.len(),
{
    reveal(Seq::filter);
    if paths.len() > 0 {
        lemma_matching_is_filtering(patterns, paths.drop_last());
    }
}

/// Every change that the allowlist allows counts, in its order: none is lost where
/// the changes are known and the readable patterns make a set, and else none
/// counts.
pub proof fn law_every_allowed_change_counts(
    changed: Seq<Seq<char>>,
    allowlist: Seq<Seq<char>>,
)
    ensures
        glob::globs_build(allowlist.filter(|p: Seq<char>| glob::glob_valid(p))) ==> allowed_changes(
            Some(changed),
            allowlist,
        ) == changed.filter(
            |p: Seq<char>|
                glob::any_matches(allowlist.filter(|g: Seq<char>| glob::glob_valid(g)), p),
        ),
        !glob::globs_build(allowlist.filter(|p: Seq<char>| glob::glob_valid(p)))
            ==> allowed_changes(Some(changed), allowlist).len() == 0,
        allowed_changes(None, allowlist).len() == 0,
{
    glob::law_readable_patterns_are_the_well_formed(allowlist);
    let patterns = glob::readable(allowlist);
    lemma_matching_is_filtering(patterns, changed);
    let shown = |p: Seq<char>|
        glob::any_matches(allowlist.filter(|g: Seq<char>| glob::glob_valid(g)), p);
    assert((|p: Seq<char>| glob::any_matches(patterns, p)) =~= shown);
}

/// A task's branch and its full name are its own: different tasks never share one,
/// and deleting a task's branch names that branch.
pub proof fn law_branches_are_the_tasks_own(repo: Seq<char>, a: Seq<char>, b: Seq<char>)
    ensures
        a != b ==> branch_of(a) != branch_of(b) && head_ref(branch_of(a)) != head_ref(branch_of(b)),
        branch_deletion(repo, a) == seq!["-C"@, repo, "branch"@, "-D"@, "maestro/"@ + a],
        head_ref(branch_of(a)) == "refs/heads/"@ + ("maestro/"@ + a),
{
    let x = "maestro/"@;
    let y = "refs/heads/"@;
    if branch_of(a) == branch_of(b) {
        assert((x + a).skip(x.len() as int) =~= a);
        assert((x + b).skip(x.len() as int) =~= b);
    }
    if head_ref(branch_of(a)) == head_ref(branch_of(b)) {
        assert((y + branch_of(a)).skip(y.len() as int) =~= branch_of(a));
        assert((y + branch_of(b)).skip(y.len() as int) =~= branch_of(b));
        assert((x + a).skip(x.len() as int) =~= a);
        assert((x + b).skip(x.len() as int) =~= b);
    }
}

/// Committing some paths clears what was staged, stages those paths and no others,
/// stops where they hold nothing new, and commits those paths under the message.
pub proof fn law_commits_hold_exactly_their_paths(
    worktree: Seq<char>,
    paths: Seq<Seq<char>>,
    message: Seq<char>,
)
    ensures
        ({
            let c = commit_commands(worktree, paths, message);
            &&& c.len() == 4
            &&& c[0].args == seq!["-C"@, worktree, "reset"@, "-q"@] && c[0].rule is Must
            &&& c[1].args == seq!["-C"@, worktree, "add"@, "--"@] + paths && c[1].rule is Must
            &&& c[2].args == seq!["-C"@, worktree, "diff"@, "--cached"@, "--quiet"@, "--"@] + paths
                && c[2].rule is UnlessClean
            &&& c[3].args == seq!["-C"@, worktree, "commit"@, "-m"@, message, "--"@] + paths
                && c[3].rule is Must
        }),
        stage_all(worktree) == seq!["-C"@, worktree, "add"@, "-A"@],
        must(paths).args == paths && must(paths).rule is Must,
{
    let c = commit_commands(worktree, paths, message);
    assert(c[1].args =~= seq!["-C"@, worktree, "add"@, "--"@] + paths);
    assert(c[2].args =~= seq!["-C"@, worktree, "diff"@, "--cached"@, "--quiet"@, "--"@] + paths);
    assert(c[3].args =~= seq!["-C"@, worktree, "commit"@, "-m"@, message, "--"@] + paths);
}

} // verus!
