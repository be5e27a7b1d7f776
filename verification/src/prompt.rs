//! What a worker is told: house rules, fix-in-place preambles, and the prompt of
//! a driven CLI; and how much of a diff is kept for the record.

use crate::task::{CheckFailure, CheckFailureView, Finding, FindingView, Report, ReportView, TaskSpec};
use crate::text::{self, join, u64_text};
use vstd::prelude::*;

verus! {

broadcast use vstd::string::group_string_axioms;

// ---------------------------------------------------------------------------
// Capped diffs
// ---------------------------------------------------------------------------

/// How many characters of a diff are kept.
pub const DIFF_CAP: usize = 4000;

/// A diff as it is kept: whole where it is short enough, else its first
/// characters with a marker behind them.
pub open spec fn capped(diff: Seq<char>) -> Seq<char> {
    if diff.len() <= DIFF_CAP {
        diff
    } else {
        diff.take(DIFF_CAP as int) + "\n…[truncated]"@
    }
}

/// A diff as it is kept for the record.
pub fn cap_diff(diff: &str) -> (r: String)
    ensures
        r@ == capped(diff@),
{
    if diff.unicode_len() <= DIFF_CAP {
        diff.to_owned()
    } else {
        text::cat2(&text::take_chars(diff, DIFF_CAP), "\n…[truncated]")
    }
}

// ---------------------------------------------------------------------------
// Preambles
// ---------------------------------------------------------------------------

/// The preamble that tells a worker to fix the failing check in place.
pub open spec fn fix_preamble(cf: CheckFailureView) -> Seq<char> {
    "## Fix the failing check — do NOT rewrite\nYour previous edits for the task ARE ALREADY PRESENT in this worktree. They compiled/ran far enough to reach the acceptance gate, but ONE check command failed. Do NOT start over or rewrite working code — read the error below and make the SMALLEST change that fixes exactly that error, then stop. Rewriting from scratch typically just trades this error for a different trivial one.\n\n### Failing check command\n```\n"@
        + cf.command + "\n```\n\n### Its output (stdout+stderr, truncated)\n```\n"@
        + cf.output_digest + "\n```\n\n"@
}

/// The preamble that tells a worker to fix the failing check in place.
pub fn check_fix_preamble(cf: &CheckFailure) -> (r: String)
    ensures
        r@ == fix_preamble(cf.deep_view()),
{
    text::cat5(
        "## Fix the failing check — do NOT rewrite\nYour previous edits for the task ARE ALREADY PRESENT in this worktree. They compiled/ran far enough to reach the acceptance gate, but ONE check command failed. Do NOT start over or rewrite working code — read the error below and make the SMALLEST change that fixes exactly that error, then stop. Rewriting from scratch typically just trades this error for a different trivial one.\n\n### Failing check command\n```\n",
        &cf.command,
        "\n```\n\n### Its output (stdout+stderr, truncated)\n```\n",
        &cf.output_digest,
        "\n```\n\n",
    )
}

/// One finding as a list item.
pub open spec fn finding_line(f: FindingView) -> Seq<char> {
    "- "@ + f.severity + " ["@ + (match f.criterion_id {
        Some(id) => id,
        None => "-"@,
    }) + "]: "@ + f.evidence + "\n"@
}

/// Findings as a list.
pub open spec fn finding_lines(findings: Seq<FindingView>) -> Seq<char>
    decreases findings.len(),
{
    if findings.len() == 0 {
        Seq::empty()
    } else {
        finding_lines(findings.drop_last()) + finding_line(findings.last())
    }
}

/// The section on the report number `n`.
pub open spec fn report_section(n: nat, r: ReportView) -> Seq<char> {
    "### Prior verifier report "@ + text::decimal(n) + "\nverdict is "@ + r.verdict.text() + "\n"@
        + finding_lines(r.findings) + "\n"@
}

/// The sections on all reports, numbered from one.
pub open spec fn report_sections(reports: Seq<ReportView>) -> Seq<char>
    decreases reports.len(),
{
    if reports.len() == 0 {
        Seq::empty()
    } else {
        report_sections(reports.drop_last()) + report_section(reports.len(), reports.last())
    }
}

/// The preamble on earlier failures: every report, then the last failed diff.
pub open spec fn reports_preamble(
    reports: Seq<ReportView>,
    last_failed_diff: Option<Seq<char>>,
) -> Seq<char> {
    "## Prior attempt failed verification\nThis task was re-run at a higher tier after verification failures. The summaries below are prior verifier reports (not transcripts). Address every blocker.\n\n"@
        + report_sections(reports) + (match last_failed_diff {
        Some(diff) => "### Last failed diff\n```diff\n"@ + diff + "\n```\n\n"@,
        None => Seq::empty(),
    })
}

/// The house rules of an attempt: the failing check where the attempt fixes one
/// in place, then the earlier reports where there are any, then the repository's
/// own rules.
pub open spec fn house_rules(
    own: Seq<char>,
    check_fix: Option<CheckFailureView>,
    reports: Seq<ReportView>,
    last_failed_diff: Option<Seq<char>>,
) -> Seq<char> {
    let informed = if reports.len() == 0 {
        own
    } else {
        reports_preamble(reports, last_failed_diff) + own
    };
    match check_fix {
        Some(cf) => fix_preamble(cf) + informed,
        None => informed,
    }
}

fn push_finding(out: &mut String, f: &Finding)
    ensures
        final(out)@ == old(out)@ + finding_line(f.deep_view()),
{
    out.append("- ");
    out.append(&f.severity);
    out.append(" [");
    match &f.criterion_id {
        Some(id) => out.append(id),
        None => out.append("-"),
    }
    out.append("]: ");
    out.append(&f.evidence);
    out.append("\n");
    assert(out@ =~= old(out)@ + finding_line(f.deep_view()));
}

fn push_findings(out: &mut String, findings: &Vec<Finding>)
    ensures
        final(out)@ == old(out)@ + finding_lines(findings.deep_view()),
{
    let mut i: usize = 0;
    let ghost all = findings.deep_view();
    assert(all.take(0) =~= Seq::<FindingView>::empty());
    assert(out@ =~= old(out)@ + finding_lines(all.take(0)));
    while i < findings.len()
        invariant
            i <= findings@.len(),
            all == findings.deep_view(),
            out@ == old(out)@ + finding_lines(all.take(i as int)),
        decreases findings@.len() - i,
    {
        push_finding(out, &findings[i]);
        proof {
            let now = all.take(i + 1);
            assert(now.drop_last() =~= all.take(i as int));
            assert(now.last() == findings@[i as int].deep_view());
            assert(out@ =~= old(out)@ + finding_lines(now));
        }
        i = i + 1;
    }
    assert(all.take(findings@.len() as int) =~= all);
}

fn push_reports(out: &mut String, reports: &Vec<Report>)
    ensures
        final(out)@ == old(out)@ + report_sections(reports.deep_view()),
{
    let mut i: usize = 0;
    let ghost all = reports.deep_view();
    assert(all.take(0) =~= Seq::<ReportView>::empty());
    assert(out@ =~= old(out)@ + report_sections(all.take(0)));
    while i < reports.len()
        invariant
            i <= reports@.len(),
            all == reports.deep_view(),
            out@ == old(out)@ + report_sections(all.take(i as int)),
        decreases reports@.len() - i,
    {
        let report = &reports[i];
        out.append("### Prior verifier report ");
        out.append(&u64_text(i as u64 + 1));
        out.append("\nverdict is ");
        out.append(report.verdict.name());
        out.append("\n");
        push_findings(out, &report.findings);
        out.append("\n");
        proof {
            let now = all.take(i + 1);
            assert(now.drop_last() =~= all.take(i as int));
            assert(now.last() == report.deep_view());
            assert(now.len() == i + 1);
            assert(out@ =~= old(out)@ + report_sections(now));
        }
        i = i + 1;
    }
    assert(all.take(reports@.len() as int) =~= all);
}

/// The preamble on earlier failures.
fn prior_reports_preamble(reports: &Vec<Report>, last_failed_diff: Option<&str>) -> (r: String)
    ensures
        r@ == reports_preamble(reports.deep_view(), last_failed_diff.deep_view()),
{
    let mut out =
        "## Prior attempt failed verification\nThis task was re-run at a higher tier after verification failures. The summaries below are prior verifier reports (not transcripts). Address every blocker.\n\n".to_owned();
    push_reports(&mut out, reports);
    match last_failed_diff {
        Some(diff) => {
            out.append("### Last failed diff\n```diff\n");
            out.append(diff);
            out.append("\n```\n\n");
        },
        None => {},
    }
    assert(out@ =~= reports_preamble(reports.deep_view(), last_failed_diff.deep_view()));
    out
}

/// Composes the house rules of an attempt.
pub fn compose_house_rules(
    own: &str,
    check_fix: Option<&CheckFailure>,
    reports: &Vec<Report>,
    last_failed_diff: Option<&str>,
) -> (r: String)
    ensures
        r@ == house_rules(
            own@,
            check_fix.deep_view(),
            reports.deep_view(),
            last_failed_diff.deep_view(),
        ),
{
    let informed = if reports.len() == 0 {
        own.to_owned()
    } else {
        text::cat2(&prior_reports_preamble(reports, last_failed_diff), own)
    };
    match check_fix {
        Some(cf) => text::cat2(&check_fix_preamble(cf), &informed),
        None => informed,
    }
}

// ---------------------------------------------------------------------------
// Driven CLIs
// ---------------------------------------------------------------------------

/// Each entry as a list item.
pub open spec fn bullets(items: Seq<Seq<char>>) -> Seq<Seq<char>> {
    items.map_values(|p: Seq<char>| "- "@ + p)
}

/// The allowlist as it stands in a prompt.
pub open spec fn allowlist_words(allowlist: Seq<Seq<char>>) -> Seq<char> {
    if allowlist.len() == 0 {
        "(none specified)"@
    } else {
        text::joined(bullets(allowlist), "\n"@)
    }
}

/// The words that stand before the allowlist.
pub open spec fn boundary_words() -> Seq<char> {
    "\n\n## File allowlist — HARD BOUNDARY\nYou may ONLY create or modify files matching these paths/globs:\n"@
}

/// The words that close a driven prompt.
pub open spec fn closing_words() -> Seq<char> {
    "\n\nAny file OUTSIDE this list that you create or modify WILL BE DROPPED (it is excluded from the commit), which typically breaks the build — so do NOT split, extract, move, or restructure code into new files outside the allowlist. If completing the task genuinely requires touching files outside this list (e.g. a refactor), STOP and report that you need a wider allowlist instead of working around it.\n\nFirst output a single line beginning with the word PLAN followed by a colon, summarizing your plan, then implement.\n"@
}

/// The prompt of a driven CLI: title, instructions and allowlist, then the
/// request for a plan line.
pub open spec fn driven_words(
    title: Seq<char>,
    instructions: Seq<char>,
    allowlist: Seq<Seq<char>>,
) -> Seq<char> {
    "# Task\n## Title\n"@ + title + "\n\n## Instructions\n"@ + instructions + boundary_words()
        + allowlist_words(allowlist) + closing_words()
}

/// The prompt of a driven CLI.
pub fn driven_prompt(spec: &TaskSpec) -> (r: String)
    ensures
        r@ == driven_words(spec.title@, spec.instructions@, spec.file_allowlist.deep_view()),
{
    let allowlist = if spec.file_allowlist.len() == 0 {
        "(none specified)".to_owned()
    } else {
        let mut items: Vec<String> = Vec::new();
        let mut i: usize = 0;
        while i < spec.file_allowlist.len()
            invariant
                i <= spec.file_allowlist@.len(),
                items@.len() == i,
                forall|j: int|
                    0 <= j < i ==> (#[trigger] items@[j])@ == "- "@ + spec.file_allowlist@[j]@,
            decreases spec.file_allowlist@.len() - i,
        {
            items.push(text::cat2("- ", &spec.file_allowlist[i]));
            i = i + 1;
        }
        assert(items.deep_view() =~= bullets(spec.file_allowlist.deep_view()));
        join(&items, "\n")
    };
    let mut out = text::cat4(
        "# Task\n## Title\n",
        &spec.title,
        "\n\n## Instructions\n",
        &spec.instructions,
    );
    out.append(
        "\n\n## File allowlist — HARD BOUNDARY\nYou may ONLY create or modify files matching these paths/globs:\n",
    );
    out.append(&allowlist);
    out.append(
        "\n\nAny file OUTSIDE this list that you create or modify WILL BE DROPPED (it is excluded from the commit), which typically breaks the build — so do NOT split, extract, move, or restructure code into new files outside the allowlist. If completing the task genuinely requires touching files outside this list (e.g. a refactor), STOP and report that you need a wider allowlist instead of working around it.\n\nFirst output a single line beginning with the word PLAN followed by a colon, summarizing your plan, then implement.\n",
    );
    out
}

/// The prompt of a driven attempt: the failing check first where the attempt
/// fixes one in place.
pub open spec fn attempt_words(
    check_fix: Option<CheckFailureView>,
    title: Seq<char>,
    instructions: Seq<char>,
    allowlist: Seq<Seq<char>>,
) -> Seq<char> {
    match check_fix {
        Some(cf) => fix_preamble(cf) + driven_words(title, instructions, allowlist),
        None => driven_words(title, instructions, allowlist),
    }
}

/// The prompt of a driven attempt.
pub fn attempt_prompt(check_fix: Option<&CheckFailure>, spec: &TaskSpec) -> (r: String)
    ensures
        r@ == attempt_words(
            check_fix.deep_view(),
            spec.title@,
            spec.instructions@,
            spec.file_allowlist.deep_view(),
        ),
{
    match check_fix {
        Some(cf) => text::cat2(&check_fix_preamble(cf), &driven_prompt(spec)),
        None => driven_prompt(spec),
    }
}

/// The environment variables that a driven CLI does not inherit: none where it
/// is API-billed, the provider keys where it runs on a subscription.
pub open spec fn stripped_keys(api_billed: bool) -> Seq<Seq<char>> {
    if api_billed {
        Seq::empty()
    } else {
        seq![
            "ANTHROPIC_API_KEY"@,
            "ANTHROPIC_AUTH_TOKEN"@,
            "OPENAI_API_KEY"@,
            "CODEX_API_KEY"@,
        ]
    }
}

/// The environment variables that a driven CLI does not inherit, given the bits
/// of its dollar cap.
pub fn driven_env_remove(max_budget_usd_bits: Option<u64>) -> (r: Vec<String>)
    ensures
        r.deep_view() == stripped_keys(max_budget_usd_bits is Some),
{
    let mut keys: Vec<String> = Vec::new();
    if max_budget_usd_bits.is_none() {
        keys.push("ANTHROPIC_API_KEY".to_owned());
        keys.push("ANTHROPIC_AUTH_TOKEN".to_owned());
        keys.push("OPENAI_API_KEY".to_owned());
        keys.push("CODEX_API_KEY".to_owned());
    }
    assert(keys.deep_view() =~= stripped_keys(max_budget_usd_bits is Some));
    keys
}

// ---------------------------------------------------------------------------
// Laws
// ---------------------------------------------------------------------------

/// What is kept of a diff begins as the diff does, and no diff within the cap
/// loses anything.
pub proof fn law_capped_is_a_prefix(diff: Seq<char>)
    ensures
        diff.len() <= DIFF_CAP ==> capped(diff) == diff,
        diff.len() > DIFF_CAP ==> text::begins(capped(diff), diff.take(DIFF_CAP as int)),
{
    if diff.len() > DIFF_CAP {
        assert(capped(diff).subrange(0, DIFF_CAP as int) =~= diff.take(DIFF_CAP as int));
    }
}

/// Whether a text holds no colon from one position to another.
spec fn colonless(s: Seq<char>, from: int, to: int) -> bool
    decreases to - from,
{
    if to - from <= 0 {
        true
    } else if to - from == 1 {
        s[from] != ':'
    } else {
        colonless(s, from, from + (to - from) / 2) && colonless(s, from + (to - from) / 2, to)
    }
}

proof fn lemma_colonless(s: Seq<char>, from: int, to: int)
    requires
        colonless(s, from, to),
    ensures
        forall|i: int| from <= i < to ==> s[i] != ':',
    decreases to - from,
{
    if to - from > 1 {
        lemma_colonless(s, from, from + (to - from) / 2);
        lemma_colonless(s, from + (to - from) / 2, to);
    }
}

/// Whether a text is free of the marker of a plan line.
spec fn markerless(s: Seq<char>) -> bool {
    !text::contains_text(s, "PLAN:"@)
}

proof fn lemma_marker(s: Seq<char>, at: int)
    requires
        text::occurs_at(s, "PLAN:"@, at),
    ensures
        0 <= at <= s.len() - 5,
        s[at] == 'P',
        s[at + 1] == 'L',
        s[at + 2] == 'A',
        s[at + 3] == 'N',
        s[at + 4] == ':',
{
    reveal_strlit("PLAN:");
    let m = s.subrange(at, at + 5);
    assert(m[0] == 'P' && m[1] == 'L' && m[2] == 'A' && m[3] == 'N' && m[4] == ':');
}

proof fn lemma_colonless_is_markerless(s: Seq<char>)
    requires
        colonless(s, 0, s.len() as int),
    ensures
        markerless(s),
{
    lemma_colonless(s, 0, s.len() as int);
    assert forall|at: int| !text::occurs_at(s, "PLAN:"@, at) by {
        if text::occurs_at(s, "PLAN:"@, at) {
            lemma_marker(s, at);
        }
    }
}

proof fn lemma_markerless_sum(a: Seq<char>, b: Seq<char>)
    requires
        markerless(a),
        markerless(b),
        a.last() == '\n' || a.last() == ' ' || b[0] == '\n',
        a.len() > 0,
        b.len() > 0 || a.last() == '\n' || a.last() == ' ',
    ensures
        markerless(a + b),
{
    let s = a + b;
    assert forall|at: int| !text::occurs_at(s, "PLAN:"@, at) by {
        if text::occurs_at(s, "PLAN:"@, at) {
            lemma_marker(s, at);
            reveal_strlit("PLAN:");
            if at + 5 <= a.len() {
                assert(a.subrange(at, at + 5) =~= s.subrange(at, at + 5));
                assert(text::occurs_at(a, "PLAN:"@, at));
            } else if at >= a.len() {
                let k = at - a.len();
                assert(b.subrange(k, k + 5) =~= s.subrange(at, at + 5));
                assert(text::occurs_at(b, "PLAN:"@, k));
            } else {
                assert(s[a.len() - 1] == a.last());
                assert(s[a.len() as int] == b[0]);
            }
        }
    }
}

proof fn lemma_bullets_are_markerless(allowlist: Seq<Seq<char>>)
    requires
        forall|i: int| 0 <= i < allowlist.len() ==> markerless(#[trigger] allowlist[i]),
        allowlist.len() > 0,
    ensures
        markerless(text::joined(bullets(allowlist), "\n"@)),
        text::joined(bullets(allowlist), "\n"@).len() > 0,
    decreases allowlist.len(),
{
    reveal_strlit("- ");
    reveal_strlit("\n");
    reveal_with_fuel(colonless, 3);
    lemma_colonless_is_markerless("- "@);
    lemma_colonless_is_markerless("\n"@);
    let items = bullets(allowlist);
    lemma_markerless_sum("- "@, allowlist.last());
    assert(items.last() == "- "@ + allowlist.last());
    if allowlist.len() > 1 {
        let before = allowlist.drop_last();
        assert(bullets(before) =~= items.drop_last());
        lemma_bullets_are_markerless(before);
        let front = text::joined(items.drop_last(), "\n"@);
        lemma_markerless_sum(front, "\n"@);
        lemma_markerless_sum(front + "\n"@, items.last());
    }
}

proof fn lemma_allowlist_words_are_markerless(allowlist: Seq<Seq<char>>)
    requires
        forall|i: int| 0 <= i < allowlist.len() ==> markerless(#[trigger] allowlist[i]),
    ensures
        markerless(allowlist_words(allowlist)),
        allowlist_words(allowlist).len() > 0,
{
    if allowlist.len() == 0 {
        reveal_strlit("(none specified)");
        reveal_with_fuel(colonless, 6);
        lemma_colonless_is_markerless("(none specified)"@);
    } else {
        lemma_bullets_are_markerless(allowlist);
    }
}

proof fn lemma_closing_words()
    ensures
        markerless(closing_words()),
        closing_words().len() > 0,
        closing_words()[0] == '\n',
{
    reveal_strlit("\n\nAny file OUTSIDE this list that you create or modify WILL BE DROPPED (it is excluded from the commit), which typically breaks the build — so do NOT split, extract, move, or restructure code into new files outside the allowlist. If completing the task genuinely requires touching files outside this list (e.g. a refactor), STOP and report that you need a wider allowlist instead of working around it.\n\nFirst output a single line beginning with the word PLAN followed by a colon, summarizing your plan, then implement.\n");
    reveal_with_fuel(colonless, 12);
    assert(colonless(closing_words(), 0, 519));
    lemma_colonless_is_markerless(closing_words());
}

proof fn lemma_boundary_words()
    ensures
        markerless(boundary_words()),
        boundary_words().len() > 0,
        boundary_words()[0] == '\n',
        boundary_words().last() == '\n',
{
    let s = boundary_words();
    reveal_strlit("\n\n## File allowlist — HARD BOUNDARY\nYou may ONLY create or modify files matching these paths/globs:\n");
    reveal_with_fuel(colonless, 9);
    assert(colonless(s, 0, 98));
    lemma_colonless(s, 0, 98);
    assert forall|at: int| !text::occurs_at(s, "PLAN:"@, at) by {
        if text::occurs_at(s, "PLAN:"@, at) {
            lemma_marker(s, at);
            assert(at + 4 == 98);
        }
    }
}

proof fn lemma_heading_words()
    ensures
        markerless("# Task\n## Title\n"@),
        "# Task\n## Title\n"@.len() > 0,
        "# Task\n## Title\n"@.last() == '\n',
        markerless("\n\n## Instructions\n"@),
        "\n\n## Instructions\n"@.len() > 0,
        "\n\n## Instructions\n"@[0] == '\n',
        "\n\n## Instructions\n"@.last() == '\n',
{
    reveal_strlit("# Task\n## Title\n");
    reveal_strlit("\n\n## Instructions\n");
    reveal_with_fuel(colonless, 7);
    lemma_colonless_is_markerless("# Task\n## Title\n"@);
    lemma_colonless_is_markerless("\n\n## Instructions\n"@);
}

/// The prompt of a driven CLI does not hold the marker that its plan line begins
/// with, unless the task itself does. A terminal echoes the prompt, so the first
/// marker seen is the CLI's own.
pub proof fn law_prompt_holds_no_plan_marker(
    title: Seq<char>,
    instructions: Seq<char>,
    allowlist: Seq<Seq<char>>,
)
    requires
        !text::contains_text(title, "PLAN:"@),
        !text::contains_text(instructions, "PLAN:"@),
        forall|i: int|
            0 <= i < allowlist.len() ==> !text::contains_text(#[trigger] allowlist[i], "PLAN:"@),
    ensures
        !text::contains_text(driven_words(title, instructions, allowlist), "PLAN:"@),
{
    lemma_heading_words();
    lemma_boundary_words();
    lemma_closing_words();
    assert forall|i: int| 0 <= i < allowlist.len() implies markerless(#[trigger] allowlist[i]) by {
    }
    lemma_allowlist_words_are_markerless(allowlist);
    let opening = "# Task\n## Title\n"@;
    let titled = opening + title;
    lemma_markerless_sum(opening, title);
    lemma_markerless_sum(titled, "\n\n## Instructions\n"@);
    let headed = titled + "\n\n## Instructions\n"@;
    assert(headed.last() == '\n');
    lemma_markerless_sum(headed, instructions);
    let instructed = headed + instructions;
    lemma_markerless_sum(instructed, boundary_words());
    let bounded = instructed + boundary_words();
    assert(bounded.last() == '\n');
    lemma_markerless_sum(bounded, allowlist_words(allowlist));
    lemma_markerless_sum(bounded + allowlist_words(allowlist), closing_words());
}

/// The repository's own rules always stand at the end of the house rules, whole;
/// a failing check to fix always stands at their beginning; and a first attempt
/// gets the repository's rules as they are.
pub proof fn law_own_rules_come_last(
    own: Seq<char>,
    check_fix: Option<CheckFailureView>,
    reports: Seq<ReportView>,
    last_failed_diff: Option<Seq<char>>,
)
    ensures
        ({
            let all = house_rules(own, check_fix, reports, last_failed_diff);
            &&& all.len() >= own.len()
            &&& all.skip(all.len() - own.len()) == own
            &&& check_fix is None && reports.len() == 0 ==> all == own
            &&& check_fix matches Some(cf) ==> text::begins(all, fix_preamble(cf))
        }),
{
    let all = house_rules(own, check_fix, reports, last_failed_diff);
    assert(all.skip(all.len() - own.len()) =~= own);
    match check_fix {
        Some(cf) => {
            assert(all.subrange(0, fix_preamble(cf).len() as int) =~= fix_preamble(cf));
        },
        None => {},
    }
}

/// A diff beyond the cap keeps exactly its first characters, up to the cap, and
/// ends in the marker.
pub proof fn law_long_diffs_are_marked(diff: Seq<char>)
    ensures
        diff.len() > 4000 ==> capped(diff) == diff.take(4000) + "\n…[truncated]"@,
        diff.len() <= 4000 ==> capped(diff) == diff,
{
}

/// The preamble of a fix holds the command that failed and what it printed.
pub proof fn law_fixes_show_the_failing_check(cf: CheckFailureView)
    ensures
        text::contains_text(fix_preamble(cf), cf.command),
        text::contains_text(fix_preamble(cf), cf.output_digest),
{
    let a =
        "## Fix the failing check — do NOT rewrite\nYour previous edits for the task ARE ALREADY PRESENT in this worktree. They compiled/ran far enough to reach the acceptance gate, but ONE check command failed. Do NOT start over or rewrite working code — read the error below and make the SMALLEST change that fixes exactly that error, then stop. Rewriting from scratch typically just trades this error for a different trivial one.\n\n### Failing check command\n```\n"@;
    let b = "\n```\n\n### Its output (stdout+stderr, truncated)\n```\n"@;
    let c = "\n```\n\n"@;
    text::lemma_stands_inside(a, cf.command, b + cf.output_digest + c);
    assert(a + cf.command + (b + cf.output_digest + c) =~= fix_preamble(cf));
    text::lemma_stands_inside(a + cf.command + b, cf.output_digest, c);
}

/// A finding is listed with its severity, the criterion it is of, and its evidence;
/// findings are listed one by one, in their order.
pub proof fn law_findings_are_listed_in_order(findings: Seq<FindingView>)
    ensures
        finding_lines(findings) == text::joined(
            findings.map_values(|f: FindingView| finding_line(f)),
            Seq::empty(),
        ),
        forall|f: FindingView| #[trigger]
            finding_line(f) == "- "@ + f.severity + " ["@ + (if f.criterion_id is Some {
                f.criterion_id->0
            } else {
                "-"@
            }) + "]: "@ + f.evidence + "\n"@,
    decreases findings.len(),
{
    let line = |f: FindingView| finding_line(f);
    if findings.len() > 0 {
        let rest = findings.drop_last();
        law_findings_are_listed_in_order(rest);
        text::lemma_run_on(rest.map_values(line), line(findings.last()));
        assert(findings.map_values(line) =~= rest.map_values(line).push(line(findings.last())));
    }
}

/// Reports are shown one by one, in their order, numbered from one, each with its
/// verdict and its findings.
pub proof fn law_reports_are_numbered_in_order(reports: Seq<ReportView>)
    ensures
        report_sections(reports) == text::joined(
            Seq::new(
                reports.len(),
                |i: int| report_section((i + 1) as nat, reports[i]),
            ),
            Seq::empty(),
        ),
        forall|n: nat, r: ReportView| #[trigger]
            report_section(n, r) == "### Prior verifier report "@ + text::decimal(n)
                + "\nverdict is "@ + r.verdict.text() + "\n"@ + finding_lines(r.findings) + "\n"@,
    decreases reports.len(),
{
    if reports.len() > 0 {
        let rest = reports.drop_last();
        law_reports_are_numbered_in_order(rest);
        let before = Seq::new(rest.len(), |i: int| report_section((i + 1) as nat, rest[i]));
        let all = Seq::new(reports.len(), |i: int| report_section((i + 1) as nat, reports[i]));
        let last = report_section(reports.len(), reports.last());
        text::lemma_run_on(before, last);
        assert(all =~= before.push(last));
    } else {
        assert(Seq::new(
            reports.len(),
            |i: int| report_section((i + 1) as nat, reports[i]),
        ) =~= Seq::<Seq<char>>::empty());
    }
}

/// An attempt after a failure is shown every earlier report, and the diff that
/// failed last where there is one; an attempt that fixes a check is shown the check
/// before everything else.
pub proof fn law_retries_are_shown_what_failed(
    own: Seq<char>,
    check_fix: Option<CheckFailureView>,
    reports: Seq<ReportView>,
    last_failed_diff: Option<Seq<char>>,
)
    requires
        reports.len() > 0,
    ensures
        text::contains_text(
            house_rules(own, check_fix, reports, last_failed_diff),
            report_sections(reports),
        ),
        last_failed_diff matches Some(diff) ==> text::contains_text(
            house_rules(own, check_fix, reports, last_failed_diff),
            diff,
        ),
        house_rules(own, check_fix, reports, last_failed_diff) == (match check_fix {
            Some(cf) => fix_preamble(cf),
            None => Seq::empty(),
        }) + house_rules(own, None, reports, last_failed_diff),
{
    let all = house_rules(own, check_fix, reports, last_failed_diff);
    let fix = match check_fix {
        Some(cf) => fix_preamble(cf),
        None => Seq::empty(),
    };
    assert(all =~= fix + house_rules(own, None, reports, last_failed_diff));
    let head =
        "## Prior attempt failed verification\nThis task was re-run at a higher tier after verification failures. The summaries below are prior verifier reports (not transcripts). Address every blocker.\n\n"@;
    let tail = match last_failed_diff {
        Some(diff) => "### Last failed diff\n```diff\n"@ + diff + "\n```\n\n"@,
        None => Seq::empty(),
    };
    text::lemma_stands_inside(fix + head, report_sections(reports), tail + own);
    assert((fix + head) + report_sections(reports) + (tail + own) =~= all);
    match last_failed_diff {
        Some(diff) => {
            let front = fix + head + report_sections(reports) + "### Last failed diff\n```diff\n"@;
            text::lemma_stands_inside(front, diff, "\n```\n\n"@ + own);
            assert(front + diff + ("\n```\n\n"@ + own) =~= all);
        },
        None => {},
    }
}

proof fn lemma_item_is_joined(items: Seq<Seq<char>>, sep: Seq<char>, i: int) -> (around: (
    Seq<char>,
    Seq<char>,
))
    requires
        0 <= i < items.len(),
    ensures
        text::joined(items, sep) == around.0 + items[i] + around.1,
    decreases items.len(),
{
    if items.len() == 1 {
        assert(items[0] =~= Seq::<char>::empty() + items[0] + Seq::<char>::empty());
        (Seq::empty(), Seq::empty())
    } else if i == items.len() - 1 {
        let front = text::joined(items.drop_last(), sep) + sep;
        assert(front + items[i] =~= front + items[i] + Seq::<char>::empty());
        (front, Seq::empty())
    } else {
        assert(items.drop_last()[i] == items[i]);
        let (a, b) = lemma_item_is_joined(items.drop_last(), sep, i);
        assert((a + items[i] + b) + sep + items.last() =~= a + items[i] + (b + sep
            + items.last()));
        (a, b + sep + items.last())
    }
}

/// A driven CLI is told the task's title, its instructions and every entry of its
/// allowlist; where there is none it is told so. One that fixes a check is told
/// that first, and then the same.
pub proof fn law_prompts_hold_the_task(
    check_fix: Option<CheckFailureView>,
    title: Seq<char>,
    instructions: Seq<char>,
    allowlist: Seq<Seq<char>>,
    i: int,
)
    requires
        0 <= i < allowlist.len() || allowlist.len() == 0,
    ensures
        text::contains_text(driven_words(title, instructions, allowlist), title),
        text::contains_text(driven_words(title, instructions, allowlist), instructions),
        allowlist.len() > 0 ==> text::contains_text(
            driven_words(title, instructions, allowlist),
            "- "@ + allowlist[i],
        ),
        allowlist.len() == 0 ==> text::contains_text(
            driven_words(title, instructions, allowlist),
            "(none specified)"@,
        ),
        check_fix is None ==> attempt_words(check_fix, title, instructions, allowlist)
            == driven_words(title, instructions, allowlist),
        check_fix matches Some(cf) ==> attempt_words(check_fix, title, instructions, allowlist)
            == fix_preamble(cf) + driven_words(title, instructions, allowlist),
{
    let all = driven_words(title, instructions, allowlist);
    let a = "# Task\n## Title\n"@;
    let b = "\n\n## Instructions\n"@;
    let c = boundary_words();
    let w = allowlist_words(allowlist);
    let z = closing_words();
    text::lemma_stands_inside(a, title, b + instructions + c + w + z);
    assert(a + title + (b + instructions + c + w + z) =~= all);
    text::lemma_stands_inside(a + title + b, instructions, c + w + z);
    assert(a + title + b + instructions + (c + w + z) =~= all);
    let front = a + title + b + instructions + c;
    if allowlist.len() == 0 {
        text::lemma_stands_inside(front, w, z);
    } else {
        let items = bullets(allowlist);
        let (x, y) = lemma_item_is_joined(items, "\n"@, i);
        assert(items[i] == "- "@ + allowlist[i]);
        text::lemma_stands_inside(front + x, items[i], y + z);
        assert((front + x) + items[i] + (y + z) =~= all);
    }
}

/// A CLI on a subscription inherits no provider key, and one that is billed by the
/// API inherits them all.
pub proof fn law_subscriptions_get_no_keys(key: Seq<char>)
    ensures
        stripped_keys(true).len() == 0,
        stripped_keys(false).contains(key) <==> key == "ANTHROPIC_API_KEY"@ || key
            == "ANTHROPIC_AUTH_TOKEN"@ || key == "OPENAI_API_KEY"@ || key == "CODEX_API_KEY"@,
{
    let keys = stripped_keys(false);
    assert(keys[0] == "ANTHROPIC_API_KEY"@);
    assert(keys[1] == "ANTHROPIC_AUTH_TOKEN"@);
    assert(keys[2] == "OPENAI_API_KEY"@);
    assert(keys[3] == "CODEX_API_KEY"@);
}

} // verus!
