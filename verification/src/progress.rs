//! What an operator sees of an advisor's tasks: the status digest, and watching
//! until a task needs attention.
//!
//! Which states are actionable or terminal, and what to suggest for them, comes
//! with each row.

use crate::clock::{self, parse_timestamp, whole_units, SECOND};
use crate::domain::Tier;
use crate::text::{self, cat2, cat3, i64_text, join, pad_left, pad_right, same, u64_text};
use vstd::prelude::*;

verus! {

broadcast use vstd::string::group_string_axioms;

// ---------------------------------------------------------------------------
// Rows
// ---------------------------------------------------------------------------

/// A task as it is listed.
#[derive(Debug)]
pub struct PsRow {
    pub task_id: String,
    pub title: String,
    pub tier: Tier,
    pub state: String,
    pub created_at: String,
    /// Whether the task waits for a decision.
    pub actionable: bool,
    /// Whether nothing more will happen to it by itself.
    pub terminal: bool,
    /// What to do about it, if anything is suggested.
    pub action: Option<String>,
}

/// What a [`PsRow`] says.
#[verifier::ext_equal]
pub struct PsRowView {
    pub task_id: Seq<char>,
    pub title: Seq<char>,
    pub tier: Tier,
    pub state: Seq<char>,
    pub created_at: Seq<char>,
    pub actionable: bool,
    pub terminal: bool,
    pub action: Option<Seq<char>>,
}

impl DeepView for PsRow {
    type V = PsRowView;

    open spec fn deep_view(&self) -> PsRowView {
        PsRowView {
            task_id: self.task_id@,
            title: self.title@,
            tier: self.tier,
            state: self.state@,
            created_at: self.created_at@,
            actionable: self.actionable,
            terminal: self.terminal,
            action: self.action.deep_view(),
        }
    }
}

/// The rows of one task, or all of them.
pub open spec fn scoped(rows: Seq<PsRowView>, task: Option<Seq<char>>) -> Seq<PsRowView> {
    match task {
        Some(t) => rows.filter(|r: PsRowView| r.task_id == t),
        None => rows,
    }
}

/// Keeps the rows of one task, or all of them.
pub fn scope_to(rows: Vec<PsRow>, task: Option<&str>) -> (r: Vec<PsRow>)
    ensures
        r.deep_view() == scoped(
            rows.deep_view(),
            match task {
                Some(t) => Some(t@),
                None => None,
            },
        ),
{
    match task {
        None => rows,
        Some(t) => {
            let ghost all = rows.deep_view();
            let ghost kept_by = |r: PsRowView| r.task_id == t@;
            let mut rest = rows;
            let mut out: Vec<PsRow> = Vec::new();
            let ghost mut done: int = 0;
            assert(all.take(0) =~= Seq::<PsRowView>::empty());
            assert(all.take(0).filter(kept_by) =~= out.deep_view()) by {
                reveal(Seq::filter);
            }
            while rest.len() > 0
                invariant
                    0 <= done <= all.len(),
                    rest.deep_view() == all.skip(done),
                    kept_by == (|r: PsRowView| r.task_id == t@),
                    out.deep_view() == all.take(done).filter(kept_by),
                decreases rest@.len(),
            {
                let ghost before = rest.deep_view();
                let row = rest.remove(0);
                proof {
                    assert(rest.deep_view() =~= before.skip(1));
                    assert(before.skip(1) =~= all.skip(done + 1));
                    assert(row.deep_view() == before[0]);
                    let now = all.take(done + 1);
                    assert(now.drop_last() =~= all.take(done));
                    assert(now.last() == row.deep_view());
                    reveal(Seq::filter);
                    done = done + 1;
                }
                if same(&row.task_id, t) {
                    let ghost kept = out.deep_view();
                    let ghost seen = row.deep_view();
                    out.push(row);
                    assert(out.deep_view() =~= kept.push(seen));
                }
            }
            assert(all.take(done) =~= all);
            out
        },
    }
}

// ---------------------------------------------------------------------------
// Ages
// ---------------------------------------------------------------------------

/// An age in its largest whole unit. A time in the future has no age.
pub open spec fn age_text(secs: int) -> Seq<char> {
    if secs < 0 {
        "0s"@
    } else if secs < 60 {
        text::decimal(secs as nat) + "s"@
    } else if secs < 3600 {
        text::decimal((secs / 60) as nat) + "m"@
    } else if secs < 86400 {
        text::decimal((secs / 3600) as nat) + "h"@
    } else {
        text::decimal((secs / 86400) as nat) + "d"@
    }
}

/// An age in its largest whole unit.
pub fn format_age(secs: i64) -> (r: String)
    ensures
        r@ == age_text(secs as int),
{
    if secs < 0 {
        return "0s".to_owned();
    }
    let secs: u64 = secs as u64;
    if secs < 60 {
        cat2(&u64_text(secs), "s")
    } else if secs < 3600 {
        cat2(&u64_text(secs / 60), "m")
    } else if secs < 86400 {
        cat2(&u64_text(secs / 3600), "h")
    } else {
        cat2(&u64_text(secs / 86400), "d")
    }
}

/// The age of something created at one timestamp, at another; `?` where either
/// cannot be read.
pub open spec fn age(created_at: Seq<char>, now: Seq<char>) -> Seq<char> {
    match (clock::instant(now), clock::instant(created_at)) {
        (Some(n), Some(c)) => age_text(clock::whole(n - c, SECOND as int)),
        _ => "?"@,
    }
}

/// The age of something created at one timestamp, at another.
pub fn age_since(created_at: &str, now: &str) -> (r: String)
    ensures
        r@ == age(created_at@, now@),
{
    match (parse_timestamp(now), parse_timestamp(created_at)) {
        (Some(n), Some(c)) => format_age(whole_units(c, n, SECOND)),
        _ => "?".to_owned(),
    }
}

// ---------------------------------------------------------------------------
// Counts by state
// ---------------------------------------------------------------------------

/// Counts, in the order of their states, with one more of a state.
pub open spec fn counted(counts: Seq<(Seq<char>, nat)>, state: Seq<char>) -> Seq<(Seq<char>, nat)>
    decreases counts.len(),
{
    if counts.len() == 0 {
        seq![(state, 1nat)]
    } else if counts[0].0 == state {
        seq![(state, counts[0].1 + 1)] + counts.skip(1)
    } else if text::sorts_before(state, counts[0].0) {
        seq![(state, 1nat)] + counts
    } else {
        seq![counts[0]] + counted(counts.skip(1), state)
    }
}

/// How many rows are in each state, in the order of the states.
pub open spec fn by_state(rows: Seq<PsRowView>) -> Seq<(Seq<char>, nat)>
    decreases rows.len(),
{
    if rows.len() == 0 {
        Seq::empty()
    } else {
        counted(by_state(rows.drop_last()), rows.last().state)
    }
}

/// What a list of counts says.
pub open spec fn counts_view(counts: Seq<(String, u64)>) -> Seq<(Seq<char>, nat)> {
    counts.map_values(|c: (String, u64)| (c.0@, c.1 as nat))
}

proof fn lemma_counted_behind(counts: Seq<(Seq<char>, nat)>, state: Seq<char>, i: int)
    requires
        0 <= i <= counts.len(),
        forall|j: int| 0 <= j < i ==> text::sorts_before((#[trigger] counts[j]).0, state),
    ensures
        counted(counts, state) == counts.take(i) + counted(counts.skip(i), state),
    decreases i,
{
    if i == 0 {
        assert(counts.skip(0) =~= counts);
        assert(counts.take(0) + counted(counts, state) =~= counted(counts, state));
    } else {
        text::lemma_sorting_is_an_order(counts[0].0, state);
        let rest = counts.skip(1);
        assert(forall|j: int| 0 <= j < i - 1 ==> rest[j] == counts[j + 1]);
        lemma_counted_behind(rest, state, i - 1);
        assert(rest.skip(i - 1) =~= counts.skip(i));
        assert(seq![counts[0]] + rest.take(i - 1) =~= counts.take(i));
        assert(seq![counts[0]] + (rest.take(i - 1) + counted(counts.skip(i), state)) =~= (
        seq![counts[0]] + rest.take(i - 1)) + counted(counts.skip(i), state));
    }
}

fn count_state(counts: &mut Vec<(String, u64)>, state: &str)
    requires
        forall|j: int| 0 <= j < old(counts)@.len() ==> (#[trigger] old(counts)@[j]).1 < u64::MAX,
    ensures
        counts_view(final(counts)@) == counted(counts_view(old(counts)@), state@),
        forall|j: int|
            0 <= j < final(counts)@.len() ==> (#[trigger] final(counts)@[j]).1 == 1 || exists|k: int|
                0 <= k < old(counts)@.len() && final(counts)@[j].1 <= (#[trigger] old(
                    counts,
                )@[k]).1 + 1,
{
    let ghost was = counts@;
    let ghost view = counts_view(counts@);
    let mut i: usize = 0;
    while i < counts.len() && text::stands_before(&counts[i].0, state)
        invariant
            counts@ == was,
            view == counts_view(was),
            i <= counts@.len(),
            forall|j: int| 0 <= j < i ==> text::sorts_before((#[trigger] view[j]).0, state@),
        decreases counts@.len() - i,
    {
        assert(view[i as int].0 == was[i as int].0@);
        i = i + 1;
    }
    proof {
        lemma_counted_behind(view, state@, i as int);
    }
    let ghost rest = view.skip(i as int);
    if i < counts.len() && same(&counts[i].0, state) {
        proof {
            assert(rest[0] == view[i as int]);
        }
        let n: u64 = counts[i].1;
        counts.set(i, (state.to_owned(), n + 1));
        proof {
            assert(counts_view(counts@) =~= view.take(i as int) + (seq![
                (state@, (n + 1) as nat),
            ] + rest.skip(1)));
            assert forall|j: int| 0 <= j < counts@.len() implies (#[trigger] counts@[j]).1 == 1
                || exists|k: int|
                0 <= k < was.len() && counts@[j].1 <= (#[trigger] was[k]).1 + 1 by {
                assert(counts@[j].1 <= was[j].1 + 1);
            }
        }
    } else {
        proof {
            if i < counts@.len() {
                assert(rest[0] == view[i as int]);
                assert(view[i as int].0 == was[i as int].0@);
                text::lemma_sorting_is_an_order(view[i as int].0, state@);
            } else {
                assert(rest.len() == 0);
            }
        }
        counts.insert(i, (state.to_owned(), 1));
        proof {
            assert(counts_view(counts@) =~= view.take(i as int) + (seq![(state@, 1nat)] + rest));
            if rest.len() == 0 {
                assert(seq![(state@, 1nat)] + rest =~= seq![(state@, 1nat)]);
            }
            assert forall|j: int| 0 <= j < counts@.len() implies (#[trigger] counts@[j]).1 == 1
                || exists|k: int|
                0 <= k < was.len() && counts@[j].1 <= (#[trigger] was[k]).1 + 1 by {
                if j < i {
                    assert(counts@[j] == was[j]);
                } else if j > i {
                    assert(counts@[j] == was[j - 1]);
                }
            }
        }
    }
}

/// How many rows are in each state, in the order of the states.
pub fn count_by_state(rows: &Vec<PsRow>) -> (r: Vec<(String, u64)>)
    ensures
        counts_view(r@) == by_state(rows.deep_view()),
{
    let ghost all = rows.deep_view();
    let mut counts: Vec<(String, u64)> = Vec::new();
    let mut i: usize = 0;
    assert(all.take(0) =~= Seq::<PsRowView>::empty());
    assert(counts_view(counts@) =~= Seq::<(Seq<char>, nat)>::empty());
    while i < rows.len()
        invariant
            all == rows.deep_view(),
            i <= rows@.len(),
            counts_view(counts@) == by_state(all.take(i as int)),
            forall|j: int| 0 <= j < counts@.len() ==> (#[trigger] counts@[j]).1 <= i,
        decreases rows@.len() - i,
    {
        count_state(&mut counts, &rows[i].state);
        proof {
            let now = all.take(i + 1);
            assert(now.drop_last() =~= all.take(i as int));
            assert(now.last() == rows@[i as int].deep_view());
        }
        i = i + 1;
    }
    assert(all.take(i as int) =~= all);
    counts
}

// ---------------------------------------------------------------------------
// The status digest
// ---------------------------------------------------------------------------

/// The head of the status table.
pub open spec fn status_head() -> Seq<char> {
    text::padded_right("TASK_ID"@, 28) + " "@ + text::padded_right("TIER"@, 6) + " "@
        + text::padded_right("STATE"@, 16) + " "@ + text::padded_left("AGE"@, 6) + "  TITLE\n"@
}

/// A line of the status table, marked where the task waits for a decision.
pub open spec fn status_line(r: PsRowView, now: Seq<char>) -> Seq<char> {
    (if r.actionable {
        "*"@
    } else {
        " "@
    }) + " "@ + text::padded_right(r.task_id, 28) + " T"@ + text::padded_right(
        text::decimal_int(r.tier.rank()),
        5,
    ) + " "@ + text::padded_right(r.state, 16) + " "@ + text::padded_left(
        age(r.created_at, now),
        6,
    ) + "  "@ + r.title + "\n"@
}

/// The lines of the status table.
pub open spec fn status_lines(rows: Seq<PsRowView>, now: Seq<char>) -> Seq<char>
    decreases rows.len(),
{
    if rows.len() == 0 {
        Seq::empty()
    } else {
        status_lines(rows.drop_last(), now) + status_line(rows.last(), now)
    }
}

/// The lines of the counts.
pub open spec fn count_lines(counts: Seq<(Seq<char>, nat)>) -> Seq<char>
    decreases counts.len(),
{
    if counts.len() == 0 {
        Seq::empty()
    } else {
        count_lines(counts.drop_last()) + ("  "@ + text::padded_right(counts.last().0, 16) + " "@
            + text::decimal(counts.last().1) + "\n"@)
    }
}

/// What to do about a task, in a line.
pub open spec fn action_line(
    task_id: Seq<char>,
    state: Seq<char>,
    action: Seq<char>,
    title: Seq<char>,
) -> Seq<char> {
    "  "@ + task_id + " ["@ + state + "] → "@ + action + "  "@ + title + "\n"@
}

/// The lines of the tasks that wait for a decision.
pub open spec fn action_lines(rows: Seq<PsRowView>) -> Seq<char>
    decreases rows.len(),
{
    if rows.len() == 0 {
        Seq::empty()
    } else {
        let r = rows.last();
        action_lines(rows.drop_last()) + (if r.actionable {
            action_line(
                r.task_id,
                r.state,
                match r.action {
                    Some(a) => a,
                    None => "review"@,
                },
                r.title,
            )
        } else {
            Seq::empty()
        })
    }
}

/// How many rows wait for a decision.
pub open spec fn attention(rows: Seq<PsRowView>) -> nat
    decreases rows.len(),
{
    if rows.len() == 0 {
        0
    } else {
        attention(rows.drop_last()) + (if rows.last().actionable {
            1nat
        } else {
            0nat
        })
    }
}

/// How many rows are being worked on: they neither wait for a decision nor are at
/// rest.
pub open spec fn working(rows: Seq<PsRowView>) -> nat
    decreases rows.len(),
{
    if rows.len() == 0 {
        0
    } else {
        working(rows.drop_last()) + (if !rows.last().actionable && !rows.last().terminal {
            1nat
        } else {
            0nat
        })
    }
}

/// The status digest: a line for every task, the counts by state, the tasks that
/// wait for a decision, and a summary.
pub open spec fn status(rows: Seq<PsRowView>, now: Seq<char>) -> Seq<char> {
    if rows.len() == 0 {
        "no tasks\n"@
    } else {
        status_head() + status_lines(rows, now) + "\nby state:\n"@ + count_lines(by_state(rows)) + (
        if attention(rows) > 0 {
            "\nACTIONABLE:\n"@ + action_lines(rows)
        } else {
            Seq::empty()
        }) + ("\nsummary: "@ + text::decimal(working(rows)) + " working, "@ + text::decimal(
            attention(rows),
        ) + " need attention\n"@)
    }
}

fn status_line_of(r: &PsRow, now: &str) -> (out: String)
    ensures
        out@ == status_line(r.deep_view(), now@),
{
    let mut out = (if r.actionable {
        "*"
    } else {
        " "
    }).to_owned();
    out.append(" ");
    out.append(&pad_right(&r.task_id, 28));
    out.append(" T");
    out.append(&pad_right(&i64_text(r.tier.as_int()), 5));
    out.append(" ");
    out.append(&pad_right(&r.state, 16));
    out.append(" ");
    out.append(&pad_left(&age_since(&r.created_at, now), 6));
    out.append("  ");
    out.append(&r.title);
    out.append("\n");
    out
}

fn action_line_of(task_id: &str, state: &str, action: &str, title: &str) -> (out: String)
    ensures
        out@ == action_line(task_id@, state@, action@, title@),
{
    let mut out = cat3("  ", task_id, " [");
    out.append(state);
    out.append("] → ");
    out.append(action);
    out.append("  ");
    out.append(title);
    out.append("\n");
    out
}

fn count_lines_of(counts: &Vec<(String, u64)>) -> (out: String)
    ensures
        out@ == count_lines(counts_view(counts@)),
{
    let ghost all = counts_view(counts@);
    let mut out = String::new();
    let mut i: usize = 0;
    assert(all.take(0) =~= Seq::<(Seq<char>, nat)>::empty());
    assert(out@ =~= Seq::<char>::empty());
    while i < counts.len()
        invariant
            all == counts_view(counts@),
            i <= counts@.len(),
            out@ == count_lines(all.take(i as int)),
        decreases counts@.len() - i,
    {
        let mut line = cat3("  ", &pad_right(&counts[i].0, 16), " ");
        line.append(&u64_text(counts[i].1));
        line.append("\n");
        proof {
            let now = all.take(i + 1);
            assert(now.drop_last() =~= all.take(i as int));
            assert(now.last() == (counts@[i as int].0@, counts@[i as int].1 as nat));
        }
        out.append(&line);
        i = i + 1;
    }
    assert(all.take(i as int) =~= all);
    out
}

/// The status digest of these rows at this time.
pub fn render_status(rows: &Vec<PsRow>, now: &str) -> (r: String)
    ensures
        r@ == status(rows.deep_view(), now@),
{
    if rows.len() == 0 {
        return "no tasks\n".to_owned();
    }
    let ghost all = rows.deep_view();
    let mut lines = String::new();
    let mut actions = String::new();
    let mut waiting: u64 = 0;
    let mut busy: u64 = 0;
    let mut i: usize = 0;
    assert(all.take(0) =~= Seq::<PsRowView>::empty());
    assert(lines@ =~= Seq::<char>::empty());
    while i < rows.len()
        invariant
            all == rows.deep_view(),
            i <= rows@.len(),
            waiting <= i,
            busy <= i,
            lines@ == status_lines(all.take(i as int), now@),
            actions@ == action_lines(all.take(i as int)),
            waiting == attention(all.take(i as int)),
            busy == working(all.take(i as int)),
        decreases rows@.len() - i,
    {
        let row = &rows[i];
        proof {
            let now_at = all.take(i + 1);
            assert(now_at.drop_last() =~= all.take(i as int));
            assert(now_at.last() == row.deep_view());
            assert(actions@ + Seq::<char>::empty() =~= actions@);
        }
        lines.append(&status_line_of(row, now));
        if row.actionable {
            let action = match &row.action {
                Some(a) => a.as_str(),
                None => "review",
            };
            actions.append(&action_line_of(&row.task_id, &row.state, action, &row.title));
            waiting = waiting + 1;
        }
        if !row.actionable && !row.terminal {
            busy = busy + 1;
        }
        i = i + 1;
    }
    assert(all.take(i as int) =~= all);
    let mut out = cat3(&pad_right("TASK_ID", 28), " ", &pad_right("TIER", 6));
    out.append(" ");
    out.append(&pad_right("STATE", 16));
    out.append(" ");
    out.append(&pad_left("AGE", 6));
    out.append("  TITLE\n");
    out.append(&lines);
    out.append("\nby state:\n");
    out.append(&count_lines_of(&count_by_state(rows)));
    if waiting > 0 {
        out.append(&cat2("\nACTIONABLE:\n", &actions));
    }
    let mut summary = cat3("\nsummary: ", &u64_text(busy), " working, ");
    summary.append(&u64_text(waiting));
    summary.append(" need attention\n");
    proof {
        let upto = status_head() + status_lines(all, now@) + "\nby state:\n"@ + count_lines(
            by_state(all),
        );
        assert(upto + Seq::<char>::empty() =~= upto);
    }
    out.append(&summary);
    out
}

// ---------------------------------------------------------------------------
// Watching
// ---------------------------------------------------------------------------

/// A stretch of time.
#[derive(Debug, Clone, Copy, PartialEq, Eq, Structural)]
pub struct Span {
    /// Its whole seconds.
    pub secs: u64,
    /// The nanoseconds beyond them.
    pub nanos: u32,
}

impl Span {
    /// The whole stretch in nanoseconds.
    pub open spec fn total(self) -> int {
        self.secs * 1_000_000_000 + self.nanos
    }

    /// Whether this stretch is at least as long as another.
    pub fn reaches(self, other: Span) -> (r: bool)
        ensures
            r == (self.total() >= other.total()),
    {
        let a: u128 = self.secs as u128 * 1_000_000_000 + self.nanos as u128;
        let b: u128 = other.secs as u128 * 1_000_000_000 + other.nanos as u128;
        a >= b
    }
}

/// How a watch ended.
#[derive(Debug, Clone, Copy, PartialEq, Eq, Structural)]
pub enum WatchOutcome {
    /// A tracked task waits for a decision, or there is nothing to wait for.
    Returned,
    /// The time given for it ran out.
    TimedOut,
}

/// Why a watch has something to report.
#[derive(Debug, Clone, Copy, PartialEq, Eq, Structural)]
pub enum WatchTrigger {
    Actionable,
    AllTerminal,
}

/// A task in a watch's report.
#[derive(Debug)]
pub struct DigestLine {
    pub task_id: String,
    pub state: String,
    pub action: String,
    pub title: String,
}

/// What a [`DigestLine`] says.
#[verifier::ext_equal]
pub struct DigestLineView {
    pub task_id: Seq<char>,
    pub state: Seq<char>,
    pub action: Seq<char>,
    pub title: Seq<char>,
}

impl DeepView for DigestLine {
    type V = DigestLineView;

    open spec fn deep_view(&self) -> DigestLineView {
        DigestLineView {
            task_id: self.task_id@,
            state: self.state@,
            action: self.action@,
            title: self.title@,
        }
    }
}

/// What a watch has to report.
#[derive(Debug)]
pub struct WatchDigest {
    pub trigger: WatchTrigger,
    pub lines: Vec<DigestLine>,
}

/// What a [`WatchDigest`] says.
#[verifier::ext_equal]
pub struct WatchDigestView {
    pub trigger: WatchTrigger,
    pub lines: Seq<DigestLineView>,
}

impl DeepView for WatchDigest {
    type V = WatchDigestView;

    open spec fn deep_view(&self) -> WatchDigestView {
        WatchDigestView { trigger: self.trigger, lines: self.lines.deep_view() }
    }
}

/// The lines of a report.
pub open spec fn digest_lines(lines: Seq<DigestLineView>) -> Seq<char>
    decreases lines.len(),
{
    if lines.len() == 0 {
        Seq::empty()
    } else {
        let l = lines.last();
        digest_lines(lines.drop_last()) + action_line(l.task_id, l.state, l.action, l.title)
    }
}

/// A watch's report.
pub open spec fn watch_report(d: WatchDigestView, watched: nat) -> Seq<char> {
    match d.trigger {
        WatchTrigger::Actionable => "watch: a tracked task needs attention:\n"@ + digest_lines(
            d.lines,
        ),
        WatchTrigger::AllTerminal => if d.lines.len() == 0 {
            "watch: none of the "@ + text::decimal(watched)
                + " tracked task(s) are present anymore (disappeared/pruned); nothing to wait on\n"@
        } else {
            "watch: all tracked tasks are terminal:\n"@ + digest_lines(d.lines)
        },
    }
}

/// A watch's report on `tracked` tasks.
pub fn render_watch_digest(digest: &WatchDigest, watched: usize) -> (r: String)
    ensures
        r@ == watch_report(digest.deep_view(), watched as nat),
{
    let mut out = match digest.trigger {
        WatchTrigger::Actionable => "watch: a tracked task needs attention:\n".to_owned(),
        WatchTrigger::AllTerminal => {
            if digest.lines.len() == 0 {
                return cat3(
                    "watch: none of the ",
                    &u64_text(watched as u64),
                    " tracked task(s) are present anymore (disappeared/pruned); nothing to wait on\n",
                );
            }
            "watch: all tracked tasks are terminal:\n".to_owned()
        },
    };
    let ghost head = out@;
    let ghost all = digest.lines.deep_view();
    let mut i: usize = 0;
    assert(all.take(0) =~= Seq::<DigestLineView>::empty());
    assert(head + Seq::<char>::empty() =~= head);
    while i < digest.lines.len()
        invariant
            all == digest.lines.deep_view(),
            i <= digest.lines@.len(),
            out@ == head + digest_lines(all.take(i as int)),
        decreases digest.lines@.len() - i,
    {
        let line = &digest.lines[i];
        let words = action_line_of(&line.task_id, &line.state, &line.action, &line.title);
        proof {
            let now = all.take(i + 1);
            assert(now.drop_last() =~= all.take(i as int));
            assert(now.last() == line.deep_view());
            assert(head + (digest_lines(all.take(i as int)) + words@) =~= head + digest_lines(
                all.take(i as int),
            ) + words@);
        }
        out.append(&words);
        i = i + 1;
    }
    assert(all.take(i as int) =~= all);
    out
}

/// The tasks among these rows that are still in flight.
pub open spec fn in_flight(rows: Seq<PsRowView>) -> Seq<Seq<char>>
    decreases rows.len(),
{
    if rows.len() == 0 {
        Seq::empty()
    } else if rows.last().terminal {
        in_flight(rows.drop_last())
    } else {
        in_flight(rows.drop_last()).push(rows.last().task_id)
    }
}

/// The tasks that a watch tracks: those asked for, or else those in flight when
/// it begins.
pub open spec fn tracked_of(explicit: Seq<Seq<char>>, rows: Seq<PsRowView>) -> Seq<Seq<char>> {
    if explicit.len() > 0 {
        explicit
    } else {
        in_flight(rows)
    }
}

/// Whether a task is among the rows.
pub open spec fn listed(rows: Seq<PsRowView>, task: Seq<char>) -> bool {
    exists|i: int| 0 <= i < rows.len() && (#[trigger] rows[i]).task_id == task
}

/// Whether tasks were asked for and none of them is known.
pub open spec fn all_unknown(explicit: Seq<Seq<char>>, rows: Seq<PsRowView>) -> bool {
    explicit.len() > 0 && forall|i: int|
        0 <= i < explicit.len() ==> !listed(rows, #[trigger] explicit[i])
}

fn is_listed(rows: &Vec<PsRow>, task: &str) -> (r: bool)
    ensures
        r == listed(rows.deep_view(), task@),
{
    let ghost all = rows.deep_view();
    let mut i: usize = 0;
    while i < rows.len()
        invariant
            all == rows.deep_view(),
            i <= rows@.len(),
            forall|j: int| 0 <= j < i ==> (#[trigger] all[j]).task_id != task@,
        decreases rows@.len() - i,
    {
        assert(all[i as int].task_id == rows@[i as int].task_id@);
        if same(&rows[i].task_id, task) {
            return true;
        }
        i = i + 1;
    }
    false
}

/// Where a watch stands.
#[derive(Debug, Clone, Copy, PartialEq, Eq, Structural)]
pub enum WatchPhase {
    /// The tracked tasks are to be judged.
    Judge,
    /// The clock is to be read.
    Clock,
    /// A pause, and a new look at the tasks.
    Pause,
    /// Ended.
    Over,
}

/// What a watch asks for.
#[derive(Debug)]
pub enum WatchStep {
    /// Judge the tracked tasks, after printing the warning, if there is one.
    Judge {
        warning: Option<String>,
    },
    /// See whether the time given has run out.
    Clock,
    /// Pause, and look at the tasks again.
    Pause,
    /// Print this, and end.
    End {
        text: String,
        outcome: WatchOutcome,
    },
}

/// What a [`WatchStep`] says.
#[verifier::ext_equal]
pub enum WatchStepView {
    Judge { warning: Option<Seq<char>> },
    Clock,
    Pause,
    End { text: Seq<char>, outcome: WatchOutcome },
}

impl DeepView for WatchStep {
    type V = WatchStepView;

    open spec fn deep_view(&self) -> WatchStepView {
        match self {
            WatchStep::Judge { warning } => WatchStepView::Judge { warning: warning.deep_view() },
            WatchStep::Clock => WatchStepView::Clock,
            WatchStep::Pause => WatchStepView::Pause,
            WatchStep::End { text, outcome } => WatchStepView::End {
                text: text@,
                outcome: *outcome,
            },
        }
    }
}

/// A watch over some tasks.
#[derive(Debug)]
pub struct WatchRun {
    watched: Vec<String>,
    timeout: Option<Span>,
    phase: WatchPhase,
}

/// What a [`WatchRun`] says.
#[verifier::ext_equal]
pub struct WatchRunView {
    pub watched: Seq<Seq<char>>,
    pub timeout: Option<Span>,
    pub phase: WatchPhase,
}

impl DeepView for WatchRun {
    type V = WatchRunView;

    closed spec fn deep_view(&self) -> WatchRunView {
        WatchRunView {
            watched: self.watched.deep_view(),
            timeout: self.timeout,
            phase: self.phase,
        }
    }
}

/// How a watch begins: it fixes what it tracks, and has nothing to do where that
/// is nothing.
pub open spec fn watch_begun(
    advisor: Seq<char>,
    explicit: Seq<Seq<char>>,
    rows: Seq<PsRowView>,
    timeout: Option<Span>,
) -> (WatchRunView, WatchStepView) {
    let watched = tracked_of(explicit, rows);
    if watched.len() == 0 {
        (
            WatchRunView { watched, timeout, phase: WatchPhase::Over },
            WatchStepView::End {
                text: "watch: no non-terminal tasks to track for advisor "@ + advisor
                    + "; nothing to wait on\n"@,
                outcome: WatchOutcome::Returned,
            },
        )
    } else {
        (
            WatchRunView { watched, timeout, phase: WatchPhase::Judge },
            WatchStepView::Judge {
                warning: if all_unknown(explicit, rows) {
                    Some(
                        "watch: warning — none of the requested --task id(s) are known to the daemon ("@
                            + text::joined(explicit, ", "@) + "); check the id(s)"@,
                    )
                } else {
                    None
                },
            },
        )
    }
}

impl WatchRunView {
    /// What follows from judging the tracked tasks.
    pub open spec fn after_digest(self, digest: Option<WatchDigestView>) -> (
        WatchRunView,
        WatchStepView,
    ) {
        match digest {
            Some(d) => (
                WatchRunView { phase: WatchPhase::Over, ..self },
                WatchStepView::End {
                    text: watch_report(d, self.watched.len()),
                    outcome: WatchOutcome::Returned,
                },
            ),
            None => (WatchRunView { phase: WatchPhase::Clock, ..self }, WatchStepView::Clock),
        }
    }

    /// What follows from the time since the watch began. Without a time limit the
    /// time never runs out.
    pub open spec fn after_clock(self, elapsed: Span) -> (WatchRunView, WatchStepView) {
        match self.timeout {
            Some(limit) => if elapsed.total() >= limit.total() {
                (
                    WatchRunView { phase: WatchPhase::Over, ..self },
                    WatchStepView::End {
                        text: "watch: timed out after "@ + text::decimal(limit.secs as nat)
                            + "s with no actionable task (tracked "@ + text::decimal(
                            self.watched.len(),
                        )
                            + " task(s)); the daemon may still be working — re-run watch or check `maestro status`\n"@,
                        outcome: WatchOutcome::TimedOut,
                    },
                )
            } else {
                (WatchRunView { phase: WatchPhase::Pause, ..self }, WatchStepView::Pause)
            },
            None => (WatchRunView { phase: WatchPhase::Pause, ..self }, WatchStepView::Pause),
        }
    }

    /// What follows from a new look at the tasks.
    pub open spec fn after_pause(self) -> (WatchRunView, WatchStepView) {
        (
            WatchRunView { phase: WatchPhase::Judge, ..self },
            WatchStepView::Judge { warning: None },
        )
    }
}

fn tracked_tasks(explicit: &Vec<String>, rows: &Vec<PsRow>) -> (r: Vec<String>)
    ensures
        r.deep_view() == tracked_of(explicit.deep_view(), rows.deep_view()),
{
    if explicit.len() > 0 {
        return explicit.clone();
    }
    let ghost all = rows.deep_view();
    let mut out: Vec<String> = Vec::new();
    let mut i: usize = 0;
    assert(all.take(0) =~= Seq::<PsRowView>::empty());
    assert(out.deep_view() =~= Seq::<Seq<char>>::empty());
    while i < rows.len()
        invariant
            all == rows.deep_view(),
            i <= rows@.len(),
            out.deep_view() == in_flight(all.take(i as int)),
        decreases rows@.len() - i,
    {
        proof {
            let now = all.take(i + 1);
            assert(now.drop_last() =~= all.take(i as int));
            assert(now.last() == rows@[i as int].deep_view());
        }
        if !rows[i].terminal {
            let ghost before = out.deep_view();
            out.push(rows[i].task_id.clone());
            assert(out.deep_view() =~= before.push(rows@[i as int].task_id@));
        }
        i = i + 1;
    }
    assert(all.take(i as int) =~= all);
    out
}

fn none_known(explicit: &Vec<String>, rows: &Vec<PsRow>) -> (r: bool)
    ensures
        r == all_unknown(explicit.deep_view(), rows.deep_view()),
{
    if explicit.len() == 0 {
        return false;
    }
    let ghost asked = explicit.deep_view();
    let mut i: usize = 0;
    while i < explicit.len()
        invariant
            asked == explicit.deep_view(),
            i <= explicit@.len(),
            forall|j: int| 0 <= j < i ==> !listed(rows.deep_view(), #[trigger] asked[j]),
        decreases explicit@.len() - i,
    {
        assert(asked[i as int] == explicit@[i as int]@);
        if is_listed(rows, &explicit[i]) {
            return false;
        }
        i = i + 1;
    }
    true
}

/// Begins a watch from a first look at the tasks.
pub fn run_watch(
    advisor: &str,
    explicit: &Vec<String>,
    rows: &Vec<PsRow>,
    timeout: Option<Span>,
) -> (r: (WatchRun, WatchStep))
    ensures
        (r.0.deep_view(), r.1.deep_view()) == watch_begun(
            advisor@,
            explicit.deep_view(),
            rows.deep_view(),
            timeout,
        ),
{
    let watched = tracked_tasks(explicit, rows);
    if watched.len() == 0 {
        let run = WatchRun { watched, timeout, phase: WatchPhase::Over };
        let text = cat3(
            "watch: no non-terminal tasks to track for advisor ",
            advisor,
            "; nothing to wait on\n",
        );
        return (run, WatchStep::End { text, outcome: WatchOutcome::Returned });
    }
    let warning = if none_known(explicit, rows) {
        Some(
            cat3(
                "watch: warning — none of the requested --task id(s) are known to the daemon (",
                &join(explicit, ", "),
                "); check the id(s)",
            ),
        )
    } else {
        None
    };
    let run = WatchRun { watched, timeout, phase: WatchPhase::Judge };
    (run, WatchStep::Judge { warning })
}

impl WatchRun {
    /// The tasks that this watch tracks.
    pub fn watched(&self) -> (r: &Vec<String>)
        ensures
            r.deep_view() == self.deep_view().watched,
    {
        &self.watched
    }

    /// Takes what the tracked tasks give to report, if anything.
    pub fn on_digest(&mut self, digest: Option<WatchDigest>) -> (r: WatchStep)
        requires
            old(self).deep_view().phase == WatchPhase::Judge,
        ensures
            (final(self).deep_view(), r.deep_view()) == old(self).deep_view().after_digest(
                digest.deep_view(),
            ),
    {
        match digest {
            Some(d) => {
                self.phase = WatchPhase::Over;
                WatchStep::End {
                    text: render_watch_digest(&d, self.watched.len()),
                    outcome: WatchOutcome::Returned,
                }
            },
            None => {
                self.phase = WatchPhase::Clock;
                WatchStep::Clock
            },
        }
    }

    /// Takes the time since the watch began.
    pub fn on_clock(&mut self, elapsed: Span) -> (r: WatchStep)
        requires
            old(self).deep_view().phase == WatchPhase::Clock,
        ensures
            (final(self).deep_view(), r.deep_view()) == old(self).deep_view().after_clock(elapsed),
    {
        match self.timeout {
            Some(limit) => {
                if elapsed.reaches(limit) {
                    self.phase = WatchPhase::Over;
                    let mut text = cat3(
                        "watch: timed out after ",
                        &u64_text(limit.secs),
                        "s with no actionable task (tracked ",
                    );
                    text.append(&u64_text(self.watched.len() as u64));
                    text.append(
                        " task(s)); the daemon may still be working — re-run watch or check `maestro status`\n",
                    );
                    return WatchStep::End { text, outcome: WatchOutcome::TimedOut };
                }
            },
            None => {},
        }
        self.phase = WatchPhase::Pause;
        WatchStep::Pause
    }

    /// Notes that the tasks were looked at again.
    pub fn on_pause(&mut self) -> (r: WatchStep)
        requires
            old(self).deep_view().phase == WatchPhase::Pause,
        ensures
            (final(self).deep_view(), r.deep_view()) == old(self).deep_view().after_pause(),
    {
        self.phase = WatchPhase::Judge;
        WatchStep::Judge { warning: None }
    }
}

// ---------------------------------------------------------------------------
// Laws
// ---------------------------------------------------------------------------

/// How often a state is counted.
pub open spec fn tally(counts: Seq<(Seq<char>, nat)>, state: Seq<char>) -> nat
    decreases counts.len(),
{
    if counts.len() == 0 {
        0
    } else {
        (if counts[0].0 == state {
            counts[0].1
        } else {
            0
        }) + tally(counts.skip(1), state)
    }
}

/// How many rows are in a state.
pub open spec fn rows_in(rows: Seq<PsRowView>, state: Seq<char>) -> nat
    decreases rows.len(),
{
    if rows.len() == 0 {
        0
    } else {
        rows_in(rows.drop_last(), state) + (if rows.last().state == state {
            1nat
        } else {
            0nat
        })
    }
}

proof fn lemma_counted_tally(counts: Seq<(Seq<char>, nat)>, state: Seq<char>, other: Seq<char>)
    ensures
        tally(counted(counts, state), other) == tally(counts, other) + (if other == state {
            1nat
        } else {
            0nat
        }),
    decreases counts.len(),
{
    let got = counted(counts, state);
    if counts.len() == 0 {
        assert(got.skip(1) =~= Seq::<(Seq<char>, nat)>::empty());
        assert(tally(got.skip(1), other) == 0);
    } else if counts[0].0 == state {
        assert(got.skip(1) =~= counts.skip(1));
    } else if text::sorts_before(state, counts[0].0) {
        assert(got.skip(1) =~= counts);
    } else {
        assert(got.skip(1) =~= counted(counts.skip(1), state));
        lemma_counted_tally(counts.skip(1), state, other);
    }
}

/// Every state is counted exactly as often as it occurs.
pub proof fn law_counts_are_right(rows: Seq<PsRowView>, state: Seq<char>)
    ensures
        tally(by_state(rows), state) == rows_in(rows, state),
    decreases rows.len(),
{
    if rows.len() > 0 {
        law_counts_are_right(rows.drop_last(), state);
        lemma_counted_tally(by_state(rows.drop_last()), rows.last().state, state);
    }
}

/// Whether the counts stand in the order of their states, each state once.
pub open spec fn ordered(counts: Seq<(Seq<char>, nat)>) -> bool {
    forall|i: int, j: int|
        0 <= i < j < counts.len() ==> text::sorts_before((#[trigger] counts[i]).0, (#[trigger] counts[j]).0)
}

proof fn lemma_counted_ordered(counts: Seq<(Seq<char>, nat)>, state: Seq<char>)
    requires
        ordered(counts),
    ensures
        ordered(counted(counts, state)),
        forall|i: int|
            0 <= i < counted(counts, state).len() ==> (#[trigger] counted(counts, state)[i]).0
                == state || exists|k: int|
                0 <= k < counts.len() && (#[trigger] counts[k]).0 == counted(counts, state)[i].0,
    decreases counts.len(),
{
    let got = counted(counts, state);
    if counts.len() == 0 {
    } else if counts[0].0 == state {
        assert forall|i: int| 0 <= i < got.len() implies (#[trigger] got[i]).0 == counts[i].0 by {
            if i > 0 {
                assert(got[i] == counts.skip(1)[i - 1]);
            }
        }
    } else if text::sorts_before(state, counts[0].0) {
        assert forall|i: int| 0 < i < got.len() implies (#[trigger] got[i]) == counts[i - 1]
            && text::sorts_before(state, counts[i - 1].0) by {
            if i > 1 {
                text::lemma_sorting_chains(state, counts[0].0, counts[i - 1].0);
            }
        }
    } else {
        let rest = counts.skip(1);
        assert forall|i: int, j: int| 0 <= i < j < rest.len() implies text::sorts_before(
            (#[trigger] rest[i]).0,
            (#[trigger] rest[j]).0,
        ) by {
            assert(rest[i] == counts[i + 1]);
            assert(rest[j] == counts[j + 1]);
        }
        lemma_counted_ordered(rest, state);
        text::lemma_sorting_is_an_order(counts[0].0, state);
        let tail = counted(rest, state);
        assert forall|i: int| 0 < i < got.len() implies text::sorts_before(counts[0].0, (#[trigger] got[i]).0)
            && got[i] == tail[i - 1] by {
            if tail[i - 1].0 != state {
                let k = choose|k: int|
                    0 <= k < rest.len() && (#[trigger] rest[k]).0 == tail[i - 1].0;
                assert(rest[k] == counts[k + 1]);
            }
        }
        assert forall|i: int| 0 <= i < got.len() implies (#[trigger] got[i]).0 == state || exists|
            k: int,
        |
            0 <= k < counts.len() && (#[trigger] counts[k]).0 == got[i].0 by {
            if i > 0 && tail[i - 1].0 != state {
                let k = choose|k: int|
                    0 <= k < rest.len() && (#[trigger] rest[k]).0 == tail[i - 1].0;
                assert(rest[k] == counts[k + 1]);
            } else if i == 0 {
                assert(counts[0].0 == got[0].0);
            }
        }
    }
}

/// The counts stand in the order of their states, each state once.
pub proof fn law_counts_are_ordered(rows: Seq<PsRowView>)
    ensures
        ordered(by_state(rows)),
    decreases rows.len(),
{
    if rows.len() > 0 {
        law_counts_are_ordered(rows.drop_last());
        lemma_counted_ordered(by_state(rows.drop_last()), rows.last().state);
    }
}

/// A watch begins with nothing in flight and nothing asked for by ending; one
/// that was asked for tasks tracks exactly those.
pub proof fn law_watch_tracks(
    advisor: Seq<char>,
    explicit: Seq<Seq<char>>,
    rows: Seq<PsRowView>,
    timeout: Option<Span>,
)
    ensures
        ({
            let (run, step) = watch_begun(advisor, explicit, rows, timeout);
            &&& explicit.len() > 0 ==> run.watched == explicit && step is Judge
            &&& explicit.len() == 0 && in_flight(rows).len() == 0 ==> (step matches WatchStepView::End {
                outcome,
                ..
            } && outcome == WatchOutcome::Returned)
        }),
{
}

/// What a watch tracks never changes, and it times out only where a time was
/// given and has run out.
pub proof fn law_watch_keeps_its_tasks(
    run: WatchRunView,
    digest: Option<WatchDigestView>,
    elapsed: Span,
)
    ensures
        run.after_digest(digest).0.watched == run.watched,
        run.after_clock(elapsed).0.watched == run.watched,
        run.after_pause().0.watched == run.watched,
        run.after_clock(elapsed).1 is End <==> (run.timeout matches Some(limit) && limit.total()
            <= elapsed.total()),
        run.after_digest(digest).1 is End <==> digest is Some,
        run.after_digest(digest).1 matches WatchStepView::End { outcome, .. } ==> outcome
            == WatchOutcome::Returned,
{
}

proof fn lemma_in_flight(rows: Seq<PsRowView>)
    ensures
        in_flight(rows) == rows.filter(|r: PsRowView| !r.terminal).map_values(
            |r: PsRowView| r.task_id,
        ),
    decreases rows.len(),
{
    reveal(Seq::filter);
    let live = |r: PsRowView| !r.terminal;
    let id = |r: PsRowView| r.task_id;
    if rows.len() > 0 {
        lemma_in_flight(rows.drop_last());
        let before = rows.drop_last().filter(live);
        if live(rows.last()) {
            assert(rows.filter(live) == before.push(rows.last()));
            assert(before.push(rows.last()).map_values(id) =~= before.map_values(id).push(
                rows.last().task_id,
            ));
        }
    } else {
        assert(rows.filter(live).map_values(id) =~= Seq::<Seq<char>>::empty());
    }
}

proof fn lemma_kept_rows_are_rows(rows: Seq<PsRowView>, keep: spec_fn(PsRowView) -> bool, k: int)
    requires
        0 <= k < rows.filter(keep).len(),
    ensures
        keep(rows.filter(keep)[k]),
        rows.contains(rows.filter(keep)[k]),
    decreases rows.len(),
{
    reveal(Seq::filter);
    let row = rows.filter(keep)[k];
    if k < rows.drop_last().filter(keep).len() {
        lemma_kept_rows_are_rows(rows.drop_last(), keep, k);
        let i = choose|i: int| 0 <= i < rows.drop_last().len() && rows.drop_last()[i] == row;
        assert(rows[i] == row);
    } else {
        assert(rows[rows.len() - 1] == row);
    }
}

/// Without tasks asked for, a watch tracks every task in flight and only those:
/// one for each row that is not at rest, in the order of the rows.
pub proof fn law_watch_tracks_everything_in_flight(
    advisor: Seq<char>,
    rows: Seq<PsRowView>,
    timeout: Option<Span>,
)
    ensures
        ({
            let run = watch_begun(advisor, Seq::empty(), rows, timeout).0;
            let live = rows.filter(|r: PsRowView| !r.terminal);
            &&& run.watched == live.map_values(|r: PsRowView| r.task_id)
            &&& run.watched.len() == live.len()
            &&& forall|i: int|
                0 <= i < rows.len() && !(#[trigger] rows[i]).terminal ==> run.watched.contains(
                    rows[i].task_id,
                )
            &&& forall|k: int|
                0 <= k < run.watched.len() ==> exists|i: int|
                    0 <= i < rows.len() && !(#[trigger] rows[i]).terminal && rows[i].task_id
                        == #[trigger] run.watched[k]
        }),
{
    lemma_in_flight(rows);
    let is_live = |r: PsRowView| !r.terminal;
    let live = rows.filter(is_live);
    let watched = watch_begun(advisor, Seq::empty(), rows, timeout).0.watched;
    assert(watched == live.map_values(|r: PsRowView| r.task_id));
    assert forall|i: int| 0 <= i < rows.len() && !(#[trigger] rows[i]).terminal implies watched.contains(
        rows[i].task_id,
    ) by {
        rows.lemma_filter_contains(is_live, i);
        let k = choose|k: int| 0 <= k < live.len() && live[k] == rows[i];
        assert(watched[k] == rows[i].task_id);
    }
    assert forall|k: int| 0 <= k < watched.len() implies exists|i: int|
        0 <= i < rows.len() && !(#[trigger] rows[i]).terminal && rows[i].task_id
            == #[trigger] watched[k] by {
        lemma_kept_rows_are_rows(rows, is_live, k);
        let i = choose|i: int| 0 <= i < rows.len() && rows[i] == live[k];
        assert(rows[i].task_id == watched[k]);
    }
}

/// The rows of one task are the rows with its name, in their order, and without a
/// task to keep to they are all the rows.
pub proof fn law_scoping_keeps_the_task(rows: Seq<PsRowView>, task: Seq<char>, i: int)
    requires
        0 <= i < rows.len(),
    ensures
        scoped(rows, None) == rows,
        rows[i].task_id == task ==> scoped(rows, Some(task)).contains(rows[i]),
        forall|k: int|
            0 <= k < scoped(rows, Some(task)).len() ==> (#[trigger] scoped(rows, Some(task))[k]).task_id
                == task && rows.contains(scoped(rows, Some(task))[k]),
{
    let keep = |r: PsRowView| r.task_id == task;
    if rows[i].task_id == task {
        rows.lemma_filter_contains(keep, i);
    }
    assert forall|k: int| 0 <= k < scoped(rows, Some(task)).len() implies (#[trigger] scoped(
        rows,
        Some(task),
    )[k]).task_id == task && rows.contains(scoped(rows, Some(task))[k]) by {
        lemma_kept_rows_are_rows(rows, keep, k);
    }
}

/// An age is given in the largest unit of which it has at least one, in whole
/// units; what lies in the future has none.
pub proof fn law_ages_are_in_the_largest_unit(secs: int, n: nat)
    ensures
        secs < 0 ==> age_text(secs) == "0s"@,
        secs == n && n < 60 ==> age_text(secs) == text::decimal(n) + "s"@,
        60 * n <= secs < 60 * (n + 1) && 1 <= n < 60 ==> age_text(secs) == text::decimal(n) + "m"@,
        3600 * n <= secs < 3600 * (n + 1) && 1 <= n < 24 ==> age_text(secs) == text::decimal(n)
            + "h"@,
        86400 * n <= secs < 86400 * (n + 1) && 1 <= n ==> age_text(secs) == text::decimal(n) + "d"@,
{
    if 60 * n <= secs < 60 * (n + 1) {
        assert(secs / 60 == n);
    }
    if 3600 * n <= secs < 3600 * (n + 1) {
        assert(secs / 3600 == n);
    }
    if 86400 * n <= secs < 86400 * (n + 1) {
        assert(secs / 86400 == n);
    }
}

/// The age of a task is the time from its creation to now, and cannot be told
/// where either cannot be read.
pub proof fn law_ages_run_from_creation(created_at: Seq<char>, now: Seq<char>)
    ensures
        clock::instant(created_at) matches Some(c) ==> (clock::instant(now) matches Some(n) ==> age(
            created_at,
            now,
        ) == age_text(clock::whole(n - c, 1_000_000_000))),
        clock::instant(created_at) is None || clock::instant(now) is None ==> age(created_at, now)
            == "?"@,
{
}

/// A line of the status table shows its task: a mark where it waits for a decision,
/// then its name, tier, state, age and title, in that order.
pub proof fn law_status_lines_show_the_task(r: PsRowView, now: Seq<char>)
    ensures
        r.actionable ==> status_line(r, now)[0] == '*',
        !r.actionable ==> status_line(r, now)[0] == ' ',
        status_line(r, now).skip(1) == " "@ + text::padded_right(r.task_id, 28) + " T"@
            + text::padded_right(text::decimal_int(r.tier.rank()), 5) + " "@ + text::padded_right(
            r.state,
            16,
        ) + " "@ + text::padded_left(age(r.created_at, now), 6) + "  "@ + r.title + "\n"@,
{
    reveal_strlit("*");
    reveal_strlit(" ");
    assert(status_line(r, now).skip(1) =~= " "@ + text::padded_right(r.task_id, 28) + " T"@
        + text::padded_right(text::decimal_int(r.tier.rank()), 5) + " "@ + text::padded_right(
        r.state,
        16,
    ) + " "@ + text::padded_left(age(r.created_at, now), 6) + "  "@ + r.title + "\n"@);
}

/// The table has one line for each task, in their order; the counts have one line
/// for each state; and the tasks that wait for a decision have one line each, with
/// what to do about them.
pub proof fn law_tables_have_a_line_for_each(
    rows: Seq<PsRowView>,
    now: Seq<char>,
    counts: Seq<(Seq<char>, nat)>,
)
    ensures
        status_lines(rows, now) == text::joined(
            rows.map_values(|r: PsRowView| status_line(r, now)),
            Seq::empty(),
        ),
        count_lines(counts) == text::joined(
            counts.map_values(
                |c: (Seq<char>, nat)|
                    "  "@ + text::padded_right(c.0, 16) + " "@ + text::decimal(c.1) + "\n"@,
            ),
            Seq::empty(),
        ),
        action_lines(rows) == text::joined(
            rows.filter(|r: PsRowView| r.actionable).map_values(
                |r: PsRowView|
                    action_line(
                        r.task_id,
                        r.state,
                        match r.action {
                            Some(a) => a,
                            None => "review"@,
                        },
                        r.title,
                    ),
            ),
            Seq::empty(),
        ),
{
    lemma_status_lines(rows, now);
    lemma_count_lines(counts);
    lemma_action_lines(rows);
}

proof fn lemma_status_lines(rows: Seq<PsRowView>, now: Seq<char>)
    ensures
        status_lines(rows, now) == text::joined(
            rows.map_values(|r: PsRowView| status_line(r, now)),
            Seq::empty(),
        ),
    decreases rows.len(),
{
    let f = |r: PsRowView| status_line(r, now);
    if rows.len() > 0 {
        let rest = rows.drop_last();
        lemma_status_lines(rest, now);
        text::lemma_run_on(rest.map_values(f), f(rows.last()));
        assert(rows.map_values(f) =~= rest.map_values(f).push(f(rows.last())));
    }
}

proof fn lemma_count_lines(counts: Seq<(Seq<char>, nat)>)
    ensures
        count_lines(counts) == text::joined(
            counts.map_values(
                |c: (Seq<char>, nat)|
                    "  "@ + text::padded_right(c.0, 16) + " "@ + text::decimal(c.1) + "\n"@,
            ),
            Seq::empty(),
        ),
    decreases counts.len(),
{
    let f = |c: (Seq<char>, nat)|
        "  "@ + text::padded_right(c.0, 16) + " "@ + text::decimal(c.1) + "\n"@;
    if counts.len() > 0 {
        let rest = counts.drop_last();
        lemma_count_lines(rest);
        text::lemma_run_on(rest.map_values(f), f(counts.last()));
        assert(counts.map_values(f) =~= rest.map_values(f).push(f(counts.last())));
    }
}

proof fn lemma_action_lines(rows: Seq<PsRowView>)
    ensures
        action_lines(rows) == text::joined(
            rows.filter(|r: PsRowView| r.actionable).map_values(
                |r: PsRowView|
                    action_line(
                        r.task_id,
                        r.state,
                        match r.action {
                            Some(a) => a,
                            None => "review"@,
                        },
                        r.title,
                    ),
            ),
            Seq::empty(),
        ),
    decreases rows.len(),
{
    reveal(Seq::filter);
    let keep = |r: PsRowView| r.actionable;
    let f = |r: PsRowView|
        action_line(
            r.task_id,
            r.state,
            match r.action {
                Some(a) => a,
                None => "review"@,
            },
            r.title,
        );
    if rows.len() > 0 {
        let rest = rows.drop_last();
        lemma_action_lines(rest);
        let before = rest.filter(keep);
        assert(action_lines(rest) + Seq::<char>::empty() =~= action_lines(rest));
        if keep(rows.last()) {
            text::lemma_run_on(before.map_values(f), f(rows.last()));
            assert(before.push(rows.last()).map_values(f) =~= before.map_values(f).push(
                f(rows.last()),
            ));
        }
    } else {
        assert(rows.filter(keep).map_values(f) =~= Seq::<Seq<char>>::empty());
    }
}

/// The summary counts every task that waits for a decision, and every task that
/// neither does nor is at rest.
pub proof fn law_summary_counts_are_right(rows: Seq<PsRowView>)
    ensures
        attention(rows) == rows.filter(|r: PsRowView| r.actionable).len(),
        working(rows) == rows.filter(|r: PsRowView| !r.actionable && !r.terminal).len(),
    decreases rows.len(),
{
    reveal(Seq::filter);
    if rows.len() > 0 {
        law_summary_counts_are_right(rows.drop_last());
    }
}

/// The digest of some tasks begins with the table and ends with the summary; the
/// counts stand between, and so do the tasks that wait for a decision, where any
/// does. Without tasks it says so.
pub proof fn law_digest_shows_everything(rows: Seq<PsRowView>, now: Seq<char>)
    requires
        rows.len() > 0,
    ensures
        ({
            let summary = "\nsummary: "@ + text::decimal(working(rows)) + " working, "@
                + text::decimal(attention(rows)) + " need attention\n"@;
            let table = status_head() + status_lines(rows, now) + "\nby state:\n"@ + count_lines(
                by_state(rows),
            );
            &&& attention(rows) == 0 ==> status(rows, now) == table + summary
            &&& attention(rows) > 0 ==> status(rows, now) == table + ("\nACTIONABLE:\n"@
                + action_lines(rows)) + summary
        }),
        status(Seq::empty(), now) == "no tasks\n"@,
        status_head() == text::padded_right("TASK_ID"@, 28) + " "@ + text::padded_right("TIER"@, 6)
            + " "@ + text::padded_right("STATE"@, 16) + " "@ + text::padded_left("AGE"@, 6)
            + "  TITLE\n"@,
{
    let table = status_head() + status_lines(rows, now) + "\nby state:\n"@ + count_lines(
        by_state(rows),
    );
    assert(table + Seq::<char>::empty() =~= table);
}

/// What to do about a task is said with the task, its state and its title.
pub proof fn law_actions_name_the_task(
    task_id: Seq<char>,
    state: Seq<char>,
    action: Seq<char>,
    title: Seq<char>,
)
    ensures
        action_line(task_id, state, action, title) == "  "@ + task_id + " ["@ + state + "] → "@
            + action + "  "@ + title + "\n"@,
        text::contains_text(action_line(task_id, state, action, title), task_id),
        text::contains_text(action_line(task_id, state, action, title), state),
        text::contains_text(action_line(task_id, state, action, title), action),
        text::contains_text(action_line(task_id, state, action, title), title),
{
    let line = action_line(task_id, state, action, title);
    let a = "  "@;
    let b = a + task_id + " ["@;
    let c = b + state + "] → "@;
    let d = c + action + "  "@;
    text::lemma_stands_inside(a, task_id, " ["@ + state + "] → "@ + action + "  "@ + title + "\n"@);
    assert(a + task_id + (" ["@ + state + "] → "@ + action + "  "@ + title + "\n"@) =~= line);
    text::lemma_stands_inside(b, state, "] → "@ + action + "  "@ + title + "\n"@);
    assert(b + state + ("] → "@ + action + "  "@ + title + "\n"@) =~= line);
    text::lemma_stands_inside(c, action, "  "@ + title + "\n"@);
    assert(c + action + ("  "@ + title + "\n"@) =~= line);
    text::lemma_stands_inside(d, title, "\n"@);
}

/// A report names every task it has a line for, in order, and says whether some
/// task needs attention or all are at rest; with no task left it says how many it
/// tracked.
pub proof fn law_reports_name_every_task(d: WatchDigestView, watched: nat)
    ensures
        digest_lines(d.lines) == text::joined(
            d.lines.map_values(
                |l: DigestLineView| action_line(l.task_id, l.state, l.action, l.title),
            ),
            Seq::empty(),
        ),
        d.trigger is Actionable ==> watch_report(d, watched)
            == "watch: a tracked task needs attention:\n"@ + digest_lines(d.lines),
        d.trigger is AllTerminal && d.lines.len() > 0 ==> watch_report(d, watched)
            == "watch: all tracked tasks are terminal:\n"@ + digest_lines(d.lines),
        d.trigger is AllTerminal && d.lines.len() == 0 ==> text::contains_text(
            watch_report(d, watched),
            text::decimal(watched),
        ),
{
    lemma_digest_lines(d.lines);
    text::lemma_stands_inside(
        "watch: none of the "@,
        text::decimal(watched),
        " tracked task(s) are present anymore (disappeared/pruned); nothing to wait on\n"@,
    );
}

proof fn lemma_digest_lines(lines: Seq<DigestLineView>)
    ensures
        digest_lines(lines) == text::joined(
            lines.map_values(
                |l: DigestLineView| action_line(l.task_id, l.state, l.action, l.title),
            ),
            Seq::empty(),
        ),
    decreases lines.len(),
{
    let f = |l: DigestLineView| action_line(l.task_id, l.state, l.action, l.title);
    if lines.len() > 0 {
        let rest = lines.drop_last();
        lemma_digest_lines(rest);
        text::lemma_run_on(rest.map_values(f), f(lines.last()));
        assert(lines.map_values(f) =~= rest.map_values(f).push(f(lines.last())));
    }
}

/// A watch warns exactly where tasks were asked for and not one of them is known,
/// and goes on all the same.
pub proof fn law_unknown_tasks_are_warned_of(
    advisor: Seq<char>,
    explicit: Seq<Seq<char>>,
    rows: Seq<PsRowView>,
    timeout: Option<Span>,
)
    requires
        explicit.len() > 0,
    ensures
        watch_begun(advisor, explicit, rows, timeout).1 matches WatchStepView::Judge { warning } && (
        warning is Some <==> forall|i: int, j: int|
            0 <= i < explicit.len() && 0 <= j < rows.len() ==> (#[trigger] explicit[i])
                != (#[trigger] rows[j]).task_id),
        watch_begun(advisor, explicit, rows, timeout).0 == (WatchRunView {
            watched: explicit,
            timeout,
            phase: WatchPhase::Judge,
        }),
{
    if all_unknown(explicit, rows) {
        assert forall|i: int, j: int|
            0 <= i < explicit.len() && 0 <= j < rows.len() implies (#[trigger] explicit[i])
            != (#[trigger] rows[j]).task_id by {
            assert(!listed(rows, explicit[i]));
        }
    } else {
        let i = choose|i: int| 0 <= i < explicit.len() && listed(rows, #[trigger] explicit[i]);
        let j = choose|j: int| 0 <= j < rows.len() && (#[trigger] rows[j]).task_id == explicit[i];
        assert(explicit[i] == rows[j].task_id);
    }
}

/// A watch goes round: it judges, looks at the clock, pauses and judges again,
/// until it has something to report or its time is up; a time given is the time
/// that counts.
pub proof fn law_watches_go_round(run: WatchRunView, d: WatchDigestView, elapsed: Span)
    ensures
        run.after_digest(None).0 == (WatchRunView { phase: WatchPhase::Clock, ..run }),
        run.after_digest(None).1 is Clock,
        run.after_digest(Some(d)).0 == (WatchRunView { phase: WatchPhase::Over, ..run }),
        run.after_digest(Some(d)).1 == (WatchStepView::End {
            text: watch_report(d, run.watched.len()),
            outcome: WatchOutcome::Returned,
        }),
        run.after_pause().0 == (WatchRunView { phase: WatchPhase::Judge, ..run }),
        run.after_pause().1 == (WatchStepView::Judge { warning: None }),
        run.timeout is None ==> run.after_clock(elapsed).1 is Pause && run.after_clock(elapsed).0
            == (WatchRunView { phase: WatchPhase::Pause, ..run }),
        run.timeout matches Some(limit) ==> {
            let spent = elapsed.secs * 1_000_000_000 + elapsed.nanos;
            let given = limit.secs * 1_000_000_000 + limit.nanos;
            &&& spent < given ==> run.after_clock(elapsed).1 is Pause && run.after_clock(elapsed).0
                == (WatchRunView { phase: WatchPhase::Pause, ..run })
            &&& spent >= given ==> (run.after_clock(elapsed).1 matches WatchStepView::End {
                outcome,
                ..
            } && outcome == WatchOutcome::TimedOut) && run.after_clock(elapsed).0.phase is Over
        },
{
}

/// A watch with nothing to track ends before it has begun, and names its advisor.
pub proof fn law_empty_watches_end_at_once(
    advisor: Seq<char>,
    rows: Seq<PsRowView>,
    timeout: Option<Span>,
)
    requires
        forall|i: int| 0 <= i < rows.len() ==> (#[trigger] rows[i]).terminal,
    ensures
        watch_begun(advisor, Seq::empty(), rows, timeout).0.phase is Over,
        watch_begun(advisor, Seq::empty(), rows, timeout).1 == (WatchStepView::End {
            text: "watch: no non-terminal tasks to track for advisor "@ + advisor
                + "; nothing to wait on\n"@,
            outcome: WatchOutcome::Returned,
        }),
{
    law_watch_tracks_everything_in_flight(advisor, rows, timeout);
    let run = watch_begun(advisor, Seq::empty(), rows, timeout).0;
    if run.watched.len() > 0 {
        let w = run.watched[0];
        let i = choose|i: int|
            0 <= i < rows.len() && !(#[trigger] rows[i]).terminal && rows[i].task_id
                == run.watched[0];
        assert(rows[i].terminal);
    }
}

/// What is said of a row, and of a line of a report, is what it holds, field by
/// field.
pub proof fn law_rows_are_said_whole(
    ps_row: PsRow,
    digest_line: DigestLine,
)
    ensures
        ps_row.deep_view().task_id == ps_row.task_id@,
        ps_row.deep_view().title == ps_row.title@,
        ps_row.deep_view().tier == ps_row.tier,
        ps_row.deep_view().state == ps_row.state@,
        ps_row.deep_view().created_at == ps_row.created_at@,
        ps_row.deep_view().actionable == ps_row.actionable,
        ps_row.deep_view().terminal == ps_row.terminal,
        ps_row.deep_view().action == ps_row.action.deep_view(),
        digest_line.deep_view().task_id == digest_line.task_id@,
        digest_line.deep_view().state == digest_line.state@,
        digest_line.deep_view().action == digest_line.action@,
        digest_line.deep_view().title == digest_line.title@,
{
}

} // verus!
