use maestro::cut::{create, Salvage};
use maestro::git::{line_of, output_of, GitReply, ScriptEnd};
use maestro::merge::{merge_task_branch, MergeOutcome, MergeRun};
use maestro::worktree::{
    branch_probe, changed_files, changed_files_script, changed_in_allowlist, commit_all,
    commit_paths, commit_query, delete_branch, diff, diff_paths, head_query, live_probe, remove,
    resolve_base_ref, resolve_to_sha, reuse, snapshot_diff, worktree_path,
};

fn ok(out: &str) -> GitReply {
    GitReply::Ran {
        success: true,
        code: Some(0),
        status: "exit status: 0".to_string(),
        stdout: out.to_string(),
        stderr: String::new(),
    }
}

fn failed(code: i32, err: &str) -> GitReply {
    GitReply::Ran {
        success: false,
        code: Some(code),
        status: format!("exit status: {code}"),
        stdout: String::new(),
        stderr: err.to_string(),
    }
}

fn strings(v: &[&str]) -> Vec<String> {
    v.iter().map(|s| s.to_string()).collect()
}

#[test]
fn resolve_base_ref_symbolic_and_concrete() {
    // `main` is checked out.
    assert_eq!(resolve_base_ref("HEAD", false, Some("main")), "main");
    assert_eq!(resolve_base_ref("main", true, Some("main")), "main");
    let sha = "0123456789abcdef0123456789abcdef01234567";
    assert_eq!(resolve_base_ref(sha, false, Some("main")), sha);
    assert_eq!(resolve_base_ref("no-such-ref", false, Some("main")), "no-such-ref");
    // A detached head stays what it is.
    assert_eq!(resolve_base_ref("HEAD", false, None), "HEAD");
}

#[test]
fn resolve_to_sha_peels_refs_and_returns_none_for_bogus() {
    let sha = "0123456789abcdef0123456789abcdef01234567";
    assert_eq!(
        commit_query("/r", "main"),
        strings(&["-C", "/r", "rev-parse", "--verify", "--quiet", "main^{commit}"])
    );
    assert_eq!(resolve_to_sha(ok(&format!("{sha}\n"))).as_deref(), Some(sha));
    assert_eq!(resolve_to_sha(failed(1, "")), None);
    assert_eq!(resolve_to_sha(GitReply::NotStarted("no git".to_string())), None);
}

#[test]
fn worktrees_lie_under_the_state_directory() {
    assert_eq!(worktree_path("/state", "t1"), "/state/worktrees/t1");
    assert!(reuse(true, true));
    assert!(!reuse(true, false));
    assert!(!reuse(false, true));
    assert_eq!(
        live_probe("/w"),
        strings(&["-C", "/w", "rev-parse", "--is-inside-work-tree"])
    );
    assert_eq!(
        branch_probe("/r", "main"),
        strings(&["-C", "/r", "rev-parse", "--verify", "--quiet", "refs/heads/main"])
    );
    assert_eq!(
        head_query("/r"),
        strings(&["-C", "/r", "symbolic-ref", "--quiet", "--short", "HEAD"])
    );
    assert_eq!(
        delete_branch("/r", "t"),
        strings(&["-C", "/r", "branch", "-D", "maestro/t"])
    );
    assert_eq!(
        remove("/r", "/w"),
        strings(&["-C", "/r", "worktree", "remove", "--force", "/w"])
    );
}

#[test]
fn changed_files_are_the_lines_with_content() {
    assert_eq!(changed_files("a.rs\n\n  \nb/c.rs\n"), strings(&["a.rs", "b/c.rs"]));
    assert!(changed_files("").is_empty());
}

#[test]
fn scripts_run_in_order_and_stop_at_a_failure() {
    let mut s = changed_files_script("/w", "base");
    assert_eq!(*s.current(), strings(&["-C", "/w", "add", "-A"]));
    assert!(s.on_git(ok("")).is_none());
    assert_eq!(
        *s.current(),
        strings(&["-C", "/w", "diff", "--cached", "--name-only", "base"])
    );
    match s.on_git(ok("x\n")) {
        Some(ScriptEnd::Completed(out)) => assert_eq!(changed_files(&out), strings(&["x"])),
        other => panic!("expected output, got {other:?}"),
    }
    let mut s = diff("/w", "base");
    assert!(matches!(s.on_git(failed(128, "broken")), Some(ScriptEnd::Failed(_))));
    // A snapshot goes on, whatever fails.
    let mut s = snapshot_diff("/w", "base");
    assert!(s.on_git(failed(1, "")).is_none());
    assert!(matches!(s.on_git(ok("d")), Some(ScriptEnd::Completed(d)) if d == "d"));
}

#[test]
fn commits_need_something_to_commit() {
    let mut s = commit_all("/w", "m");
    s.on_git(ok(""));
    // Nothing staged: there is nothing to commit.
    assert!(matches!(s.on_git(ok("")), Some(ScriptEnd::Stopped)));
    assert!(commit_paths("/w", &vec![], "m").is_none());
    assert!(diff_paths("/w", "base", &vec![]).is_none());
    let s = diff_paths("/w", "base", &strings(&["a", "b"])).unwrap();
    assert!(!s.commands.is_empty());
}

#[test]
fn only_allowed_changes_count() {
    let changed = strings(&["src/a.rs", "notes.md", "src/b.txt"]);
    assert_eq!(
        changed_in_allowlist(Some(changed), &strings(&["src/*.rs", "*.md"])),
        strings(&["src/a.rs", "notes.md"])
    );
    // An empty list allows nothing, and an unreadable pattern is left out.
    let changed = strings(&["a.rs"]);
    assert_eq!(changed_in_allowlist(Some(changed), &vec![]), strings(&[]));
    let changed = strings(&["a.rs", "b.txt"]);
    assert_eq!(
        changed_in_allowlist(Some(changed), &strings(&["[", "*.txt"])),
        strings(&["b.txt"])
    );
    // Nor does anything count where the changes are not known.
    assert_eq!(changed_in_allowlist(None, &strings(&["*"])), strings(&[]));
}

#[test]
fn git_errors_name_the_command() {
    let args = strings(&["-C", "/r", "status"]);
    let err = output_of(&args, failed(128, "not a repository")).unwrap_err();
    assert!(err.full().contains("status"));
    assert!(err.full().contains("not a repository"));
    assert_eq!(line_of(&args, ok(" x \n")).unwrap(), "x");
}

/// Runs a merge against scripted replies, and lists the commands it ran.
fn run_merge(mut run: MergeRun, replies: Vec<GitReply>) -> (Result<MergeOutcome, String>, Vec<Vec<String>>) {
    let mut ran = vec![];
    for reply in replies {
        ran.push(run.args());
        if let Some(end) = run.on_git(reply) {
            return (end.map_err(|f| f.full()), ran);
        }
    }
    panic!("the merge did not end after {ran:?}");
}

fn moves_the_base(ran: &[Vec<String>]) -> bool {
    ran.iter().any(|c| {
        c.contains(&"update-ref".to_string())
            || c.get(2).map(String::as_str) == Some("merge")
    })
}

#[test]
fn merge_ff_when_base_not_checked_out() {
    let (end, ran) = run_merge(
        merge_task_branch("/r", "main", "t"),
        vec![ok("tip\n"), ok("base\n"), ok("base\n"), ok("other\n"), ok(""), ok("")],
    );
    let out = end.unwrap();
    assert_eq!(out.merged_sha, "tip");
    assert_eq!(out.base_ref, "main");
    assert_eq!(out.branch, "maestro/t");
    assert!(out.fast_forward);
    // Compare and swap: the old tip is named.
    assert_eq!(
        ran.last().unwrap(),
        &strings(&["-C", "/r", "update-ref", "refs/heads/main", "tip", "base"])
    );
}

#[test]
fn merge_diverged_conflict_free_base_not_checked_out() {
    let (end, ran) = run_merge(
        merge_task_branch("/r", "main", "t"),
        vec![
            ok("tip\n"),
            ok("base\n"),
            ok("base\n"),
            ok("other\n"),
            failed(1, ""),
            ok("tree\n"),
            ok("commit\n"),
            ok(""),
        ],
    );
    let out = end.unwrap();
    assert_eq!(out.merged_sha, "commit");
    assert!(!out.fast_forward);
    assert_eq!(
        ran.last().unwrap(),
        &strings(&["-C", "/r", "update-ref", "refs/heads/main", "commit", "base"])
    );
}

#[test]
fn merge_diverged_conflict_free_base_checked_out() {
    let (end, ran) = run_merge(
        merge_task_branch("/r", "main", "t"),
        vec![
            ok("tip\n"),
            ok("base\n"),
            ok("base\n"),
            ok("main\n"),
            failed(1, ""),
            ok("tree\n"),
            ok(""),
            ok(""),
            ok("merged\n"),
        ],
    );
    let out = end.unwrap();
    assert_eq!(out.merged_sha, "merged");
    assert!(!out.fast_forward);
    assert!(ran.iter().any(|c| c.contains(&"--no-ff".to_string())));
}

#[test]
fn merge_diverged_with_conflict_is_refused_and_leaves_base_unchanged() {
    let conflict = GitReply::Ran {
        success: false,
        code: Some(1),
        status: "exit status: 1".to_string(),
        stdout: "tree\na.rs\n\nb.rs\n".to_string(),
        stderr: String::new(),
    };
    let (end, ran) = run_merge(
        merge_task_branch("/r", "main", "t"),
        vec![ok("tip\n"), ok("base\n"), ok("base\n"), ok("main\n"), failed(1, ""), conflict],
    );
    let err = end.unwrap_err();
    assert!(err.contains("conflicts"), "{err}");
    assert!(err.contains("a.rs, b.rs"), "{err}");
    assert!(!moves_the_base(&ran));
}

#[test]
fn merge_refused_when_base_ref_is_not_a_branch() {
    let (end, ran) = run_merge(
        merge_task_branch("/r", "abc123", "t"),
        vec![ok("tip\n"), failed(1, "")],
    );
    assert_eq!(
        end.unwrap_err(),
        "base_ref 'abc123' is not a local branch; merge manually"
    );
    assert!(!moves_the_base(&ran));
}

#[test]
fn merge_errors_when_task_branch_missing() {
    let (end, ran) = run_merge(merge_task_branch("/r", "main", "t"), vec![failed(1, "")]);
    let err = end.unwrap_err();
    assert!(err.starts_with("task branch maestro/t is missing; nothing to merge"), "{err}");
    assert!(!moves_the_base(&ran));
}

#[test]
fn merge_leaves_dirty_trees_alone() {
    let (end, ran) = run_merge(
        merge_task_branch("/r", "main", "t"),
        vec![ok("tip\n"), ok("base\n"), ok("base\n"), ok("main\n"), ok(""), ok(" M a.rs\n")],
    );
    assert_eq!(
        end.unwrap_err(),
        "base branch 'main' is checked out with a dirty working tree; commit/stash then merge"
    );
    assert!(!moves_the_base(&ran));
}

#[test]
fn salvage_is_noop_when_branch_has_no_commits_beyond_base() {
    let mut run = create("/r", "main", "nowork", "/w", false);
    assert!(run.on_git(ok("tip\n")).is_none());
    // Nothing beyond the base.
    assert!(run.on_git(ok("\n")).is_none());
    assert_eq!(run.salvage, Salvage::Nothing);
    assert_eq!(run.args(), strings(&["-C", "/r", "branch", "-D", "maestro/nowork"]));
}

#[test]
fn salvage_is_noop_when_branch_absent() {
    let mut run = create("/r", "main", "ghost", "/w", true);
    assert!(run.on_git(failed(1, "")).is_none());
    assert_eq!(run.salvage, Salvage::Nothing);
    assert_eq!(
        run.args(),
        strings(&["-C", "/r", "worktree", "remove", "--force", "/w"])
    );
}

#[test]
fn salvage_preserves_a_task_branch_with_commits_beyond_base() {
    let mut run = create("/r", "main", "t", "/w", false);
    run.on_git(ok("0123456789abcdef\n"));
    run.on_git(ok("c1\nc2\n"));
    run.on_git(ok("0123456\n"));
    assert_eq!(
        run.args(),
        strings(&[
            "-C",
            "/r",
            "update-ref",
            "refs/maestro/salvage/t/0123456",
            "0123456789abcdef"
        ])
    );
    assert_eq!(run.salvage_ref(), "refs/maestro/salvage/t/0123456");
    run.on_git(ok(""));
    assert_eq!(run.salvage, Salvage::Saved);
    // Only then does the old branch go.
    assert_eq!(run.args(), strings(&["-C", "/r", "branch", "-D", "maestro/t"]));
    assert!(run.on_git(ok("")).is_none());
    assert_eq!(
        run.args(),
        strings(&["-C", "/r", "worktree", "add", "/w", "-b", "maestro/t", "main"])
    );
    assert_eq!(run.on_git(ok("")).unwrap().unwrap(), "/w");
}

#[test]
fn repeated_escalations_produce_distinct_salvage_refs() {
    let salvage = |tip: &str, short: GitReply| {
        let mut run = create("/r", "main", "t", "/w", false);
        run.on_git(ok(tip));
        run.on_git(ok("c\n"));
        run.on_git(short);
        run.salvage_ref()
    };
    let a = salvage("aaaaaaaaaaaaaaaa", ok("aaaaaaa\n"));
    let b = salvage("bbbbbbbbbbbbbbbb", ok("bbbbbbb\n"));
    assert_ne!(a, b);
    // Without a short name the first twelve characters stand in.
    assert_eq!(salvage("cccccccccccccccc", failed(1, "")), "refs/maestro/salvage/t/cccccccccccc");
}

#[test]
fn a_worktree_that_cannot_be_made_is_an_error() {
    let mut run = create("/r", "main", "t", "/w", false);
    run.on_git(failed(1, ""));
    run.on_git(failed(1, ""));
    let err = run.on_git(failed(128, "no space")).unwrap().unwrap_err();
    assert!(err.full().starts_with("creating worktree for task t: "));
    assert!(err.full().contains("no space"));
}
