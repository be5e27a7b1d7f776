//! What the operator's command line prints, and what it refuses.

use crate::client::{Client, ClientView};
use crate::daemon::{EnsureOutcome, HelloOutcome};
use crate::fault::{Fault, FaultView};
use crate::init::InitReport;
use crate::json::{self, as_object, as_text, get, keys, pretty, show, Json};
use crate::progress::{PsRow, PsRowView, WatchOutcome};
use crate::text::{self, cat2, cat3, cat5, i64_text, pad_right, same, u64_text};
use serde_json::Value;
use vstd::prelude::*;

verus! {

broadcast use vstd::string::group_string_axioms;

// ---------------------------------------------------------------------------
// Answers of the daemon
// ---------------------------------------------------------------------------

/// The commands that ask the daemon something.
#[derive(Debug, Clone, Copy, PartialEq, Eq, Structural)]
pub enum Asked {
    Doctor,
    Ps,
    RegisterAdvisor,
    Delegate,
    TaskStatus,
    CloseTask,
    MergeTask,
    JournalQuery,
    Kill,
    Hello,
}

impl Asked {
    /// What the daemon's error to this request begins with.
    pub open spec fn trouble(self) -> Seq<char> {
        match self {
            Asked::Doctor => "daemon error: "@,
            Asked::Ps => "daemon error: "@,
            Asked::RegisterAdvisor => "daemon error registering advisor: "@,
            Asked::Delegate => "daemon error on delegate: "@,
            Asked::TaskStatus => "daemon error on task-status: "@,
            Asked::CloseTask => "daemon error on close-task: "@,
            Asked::MergeTask => "daemon error on merge-task: "@,
            Asked::JournalQuery => "daemon error on journal-query: "@,
            Asked::Kill => "daemon error on kill: "@,
            Asked::Hello => "daemon error on Hello: "@,
        }
    }

    /// What an answer that does not belong to this request begins with.
    pub open spec fn surprise(self) -> Seq<char> {
        match self {
            Asked::Doctor => "unexpected response to Doctor: "@,
            Asked::Ps => "unexpected response to Ps: "@,
            Asked::RegisterAdvisor => "unexpected response to RegisterAdvisor: "@,
            Asked::Delegate => "unexpected response to Delegate: "@,
            Asked::TaskStatus => "unexpected response to TaskStatus: "@,
            Asked::CloseTask => "unexpected response to CloseTask: "@,
            Asked::MergeTask => "unexpected response to MergeTask: "@,
            Asked::JournalQuery => "unexpected response to JournalQuery: "@,
            Asked::Kill => "unexpected response to Kill: "@,
            Asked::Hello => "unexpected response to Hello: "@,
        }
    }
}

/// The error where the daemon answered with one.
pub fn daemon_error(asked: Asked, message: &str) -> (r: String)
    ensures
        r@ == asked.trouble() + message@,
{
    let prefix = match asked {
        Asked::Doctor => "daemon error: ",
        Asked::Ps => "daemon error: ",
        Asked::RegisterAdvisor => "daemon error registering advisor: ",
        Asked::Delegate => "daemon error on delegate: ",
        Asked::TaskStatus => "daemon error on task-status: ",
        Asked::CloseTask => "daemon error on close-task: ",
        Asked::MergeTask => "daemon error on merge-task: ",
        Asked::JournalQuery => "daemon error on journal-query: ",
        Asked::Kill => "daemon error on kill: ",
        Asked::Hello => "daemon error on Hello: ",
    };
    cat2(prefix, message)
}

/// The error where the answer does not belong to the request. `shown` is the
/// answer in words.
pub fn unexpected_response(asked: Asked, shown: &str) -> (r: String)
    ensures
        r@ == asked.surprise() + shown@,
{
    let prefix = match asked {
        Asked::Doctor => "unexpected response to Doctor: ",
        Asked::Ps => "unexpected response to Ps: ",
        Asked::RegisterAdvisor => "unexpected response to RegisterAdvisor: ",
        Asked::Delegate => "unexpected response to Delegate: ",
        Asked::TaskStatus => "unexpected response to TaskStatus: ",
        Asked::CloseTask => "unexpected response to CloseTask: ",
        Asked::MergeTask => "unexpected response to MergeTask: ",
        Asked::JournalQuery => "unexpected response to JournalQuery: ",
        Asked::Kill => "unexpected response to Kill: ",
        Asked::Hello => "unexpected response to Hello: ",
    };
    cat2(prefix, shown)
}

/// The document to read in the daemon's answer. `bytes` is how many bytes were
/// read.
pub fn response_document(bytes: usize, line: &str) -> (r: Result<&str, &'static str>)
    ensures
        match r {
            Ok(doc) => bytes > 0 && doc@ == text::trimmed_end(line@),
            Err(m) => bytes == 0 && m@ == "daemon closed the connection without responding"@,
        },
{
    if bytes == 0 {
        Err("daemon closed the connection without responding")
    } else {
        Ok(text::trim_end(line))
    }
}

// ---------------------------------------------------------------------------
// Tables
// ---------------------------------------------------------------------------

/// A line of the task table.
pub open spec fn ps_line(r: PsRowView) -> Seq<char> {
    text::padded_right(r.task_id, 28) + " "@ + text::padded_right(
        text::decimal_int(r.tier.rank()),
        5,
    ) + " "@ + text::padded_right(r.state, 16) + " "@ + r.title + "\n"@
}

/// The lines of the task table.
pub open spec fn ps_lines(rows: Seq<PsRowView>) -> Seq<char>
    decreases rows.len(),
{
    if rows.len() == 0 {
        Seq::empty()
    } else {
        ps_lines(rows.drop_last()) + ps_line(rows.last())
    }
}

/// The task table.
pub open spec fn ps_table(rows: Seq<PsRowView>) -> Seq<char> {
    if rows.len() == 0 {
        "no tasks\n"@
    } else {
        text::padded_right("TASK_ID"@, 28) + " "@ + text::padded_right("TIER"@, 5) + " "@
            + text::padded_right("STATE"@, 16) + " TITLE\n"@ + ps_lines(rows)
    }
}

/// The task table.
pub fn render_ps(rows: &Vec<PsRow>) -> (r: String)
    ensures
        r@ == ps_table(rows.deep_view()),
{
    if rows.len() == 0 {
        return "no tasks\n".to_owned();
    }
    let mut out = cat5(
        &pad_right("TASK_ID", 28),
        " ",
        &pad_right("TIER", 5),
        " ",
        &pad_right("STATE", 16),
    );
    out.append(" TITLE\n");
    let ghost head = out@;
    let ghost all = rows.deep_view();
    let mut i: usize = 0;
    assert(all.take(0) =~= Seq::<PsRowView>::empty());
    assert(head + Seq::<char>::empty() =~= head);
    while i < rows.len()
        invariant
            all == rows.deep_view(),
            i <= rows@.len(),
            out@ == head + ps_lines(all.take(i as int)),
        decreases rows@.len() - i,
    {
        let row = &rows[i];
        let mut line = cat5(
            &pad_right(&row.task_id, 28),
            " ",
            &pad_right(&i64_text(row.tier.as_int()), 5),
            " ",
            &pad_right(&row.state, 16),
        );
        line.append(" ");
        line.append(&row.title);
        line.append("\n");
        proof {
            let now = all.take(i + 1);
            assert(now.drop_last() =~= all.take(i as int));
            assert(now.last() == row.deep_view());
            assert(head + (ps_lines(all.take(i as int)) + line@) =~= head + ps_lines(
                all.take(i as int),
            ) + line@);
        }
        out.append(&line);
        i = i + 1;
    }
    assert(all.take(i as int) =~= all);
    out
}

// ---------------------------------------------------------------------------
// Doctor
// ---------------------------------------------------------------------------

/// Whether a name is among some names.
pub open spec fn among(names: Seq<Seq<char>>, name: Seq<char>) -> bool {
    names.contains(name)
}

/// The first entry under a name.
pub open spec fn entry_under(entries: Seq<(Seq<char>, Seq<char>)>, name: Seq<char>) -> Option<
    Seq<char>,
>
    decreases entries.len(),
{
    if entries.len() == 0 {
        None
    } else if entries[0].0 == name {
        Some(entries[0].1)
    } else {
        entry_under(entries.skip(1), name)
    }
}

/// An entry in a line.
pub open spec fn entry_line(name: Seq<char>, value: Seq<char>) -> Seq<char> {
    "  "@ + name + ": "@ + value + "\n"@
}

/// The lines of the entries with these names, in the order of the names.
pub open spec fn known_lines(
    entries: Seq<(Seq<char>, Seq<char>)>,
    names: Seq<Seq<char>>,
) -> Seq<char>
    decreases names.len(),
{
    if names.len() == 0 {
        Seq::empty()
    } else {
        known_lines(entries, names.drop_last()) + (match entry_under(entries, names.last()) {
            Some(v) => entry_line(names.last(), v),
            None => Seq::empty(),
        })
    }
}

/// The lines of the entries without these names, in their own order.
pub open spec fn other_lines(
    entries: Seq<(Seq<char>, Seq<char>)>,
    names: Seq<Seq<char>>,
) -> Seq<char>
    decreases entries.len(),
{
    if entries.len() == 0 {
        Seq::empty()
    } else {
        other_lines(entries.drop_last(), names) + (if among(names, entries.last().0) {
            Seq::empty()
        } else {
            entry_line(entries.last().0, entries.last().1)
        })
    }
}

/// What a list of entries says.
pub open spec fn entries_view(entries: Seq<(String, String)>) -> Seq<(Seq<char>, Seq<char>)> {
    entries.map_values(|e: (String, String)| (e.0@, e.1@))
}

fn find_entry<'a>(entries: &'a Vec<(String, String)>, name: &str) -> (r: Option<&'a str>)
    ensures
        match r {
            Some(v) => entry_under(entries_view(entries@), name@) == Some(v@),
            None => entry_under(entries_view(entries@), name@) is None,
        },
{
    let ghost all = entries_view(entries@);
    let mut i: usize = 0;
    assert(all.skip(0) =~= all);
    while i < entries.len()
        invariant
            all == entries_view(entries@),
            i <= entries@.len(),
            entry_under(all, name@) == entry_under(all.skip(i as int), name@),
        decreases entries@.len() - i,
    {
        proof {
            assert(all.skip(i as int)[0] == (entries@[i as int].0@, entries@[i as int].1@));
            assert(all.skip(i as int).skip(1) =~= all.skip(i + 1));
        }
        if same(&entries[i].0, name) {
            return Some(entries[i].1.as_str());
        }
        i = i + 1;
    }
    assert(all.skip(i as int).len() == 0);
    None
}

fn is_among(names: &Vec<&str>, name: &str) -> (r: bool)
    ensures
        r == among(names.deep_view(), name@),
{
    let ghost all = names.deep_view();
    let mut i: usize = 0;
    while i < names.len()
        invariant
            all == names.deep_view(),
            i <= names@.len(),
            forall|j: int| 0 <= j < i ==> all[j] != name@,
        decreases names@.len() - i,
    {
        assert(all[i as int] == names@[i as int]@);
        if same(names[i], name) {
            return true;
        }
        i = i + 1;
    }
    false
}

fn line_of(name: &str, value: &str) -> (r: String)
    ensures
        r@ == entry_line(name@, value@),
{
    cat5("  ", name, ": ", value, "\n")
}

fn entry_lines(entries: &Vec<(String, String)>, names: &Vec<&str>) -> (r: String)
    ensures
        r@ == known_lines(entries_view(entries@), names.deep_view()) + other_lines(
            entries_view(entries@),
            names.deep_view(),
        ),
{
    let ghost view = entries_view(entries@);
    let ghost wanted = names.deep_view();
    let mut out = String::new();
    let mut i: usize = 0;
    assert(wanted.take(0) =~= Seq::<Seq<char>>::empty());
    assert(out@ =~= Seq::<char>::empty());
    while i < names.len()
        invariant
            view == entries_view(entries@),
            wanted == names.deep_view(),
            i <= names@.len(),
            out@ == known_lines(view, wanted.take(i as int)),
        decreases names@.len() - i,
    {
        proof {
            let now = wanted.take(i + 1);
            assert(now.drop_last() =~= wanted.take(i as int));
            assert(now.last() == names@[i as int]@);
            assert(out@ + Seq::<char>::empty() =~= out@);
        }
        match find_entry(entries, names[i]) {
            Some(v) => out.append(&line_of(names[i], v)),
            None => {},
        }
        i = i + 1;
    }
    assert(wanted.take(i as int) =~= wanted);
    let ghost known = out@;
    let mut k: usize = 0;
    assert(view.take(0) =~= Seq::<(Seq<char>, Seq<char>)>::empty());
    assert(known + Seq::<char>::empty() =~= known);
    while k < entries.len()
        invariant
            view == entries_view(entries@),
            wanted == names.deep_view(),
            k <= entries@.len(),
            out@ == known + other_lines(view.take(k as int), wanted),
        decreases entries@.len() - k,
    {
        let ghost so_far = other_lines(view.take(k as int), wanted);
        proof {
            let now = view.take(k + 1);
            assert(now.drop_last() =~= view.take(k as int));
            assert(now.last() == (entries@[k as int].0@, entries@[k as int].1@));
        }
        if !is_among(names, &entries[k].0) {
            let line = line_of(&entries[k].0, &entries[k].1);
            assert(known + (so_far + line@) =~= known + so_far + line@);
            out.append(&line);
        } else {
            assert(so_far + Seq::<char>::empty() =~= so_far);
        }
        k = k + 1;
    }
    assert(view.take(k as int) =~= view);
    out
}

/// The fields of a document in words: their names in order, each with words that
/// suit its value.
pub open spec fn listed(
    entries: Seq<(Seq<char>, Seq<char>)>,
    fields: Map<Seq<char>, Json>,
    suits: spec_fn(Json, Seq<char>) -> bool,
) -> bool {
    let names = entries.map_values(|e: (Seq<char>, Seq<char>)| e.0);
    &&& json::ascending(names)
    &&& forall|k: Seq<char>| #[trigger] names.contains(k) <==> fields.contains_key(k)
    &&& forall|i: int|
        0 <= i < entries.len() ==> suits(fields[(#[trigger] entries[i]).0], entries[i].1)
}

/// Whether a text shows a document, laid out over several lines and so that it can
/// be read back.
pub open spec fn document_words(j: Json, shown: Seq<char>) -> bool {
    &&& shown == json::laid_out(j) + "\n"@
    &&& json::gives_back(shown, j)
}

/// What a document is shown as that should be an object: the lines of its
/// fields, known ones first and then the rest; or, where it is none, the document
/// itself.
pub open spec fn sheet(
    shown: Seq<char>,
    doc: Json,
    known: Seq<Seq<char>>,
    suits: spec_fn(Json, Seq<char>) -> bool,
) -> bool {
    match doc {
        Json::Object(fields) => exists|entries: Seq<(Seq<char>, Seq<char>)>| #[trigger]
            listed(entries, fields, suits) && shown == known_lines(entries, known) + other_lines(
                entries,
                known,
            ),
        _ => document_words(doc, shown),
    }
}

/// Whether words render a value: a text stands for itself, and everything else
/// is written as a document, so that it can be read back.
pub open spec fn scalar_words(j: Json, words: Seq<char>) -> bool {
    match j {
        Json::Text(t) => words == t,
        _ => {
            &&& words == json::written(j)
            &&& json::gives_back(words, j)
        },
    }
}

/// A value in words.
pub fn render_scalar(v: &Value) -> (r: String)
    ensures
        scalar_words(json::document(*v), r@),
{
    match as_text(v) {
        Some(t) => t.to_owned(),
        None => show(v),
    }
}

fn whole_document(v: &Value) -> (r: String)
    ensures
        document_words(json::document(*v), r@),
{
    match pretty(v) {
        Ok(t) => {
            proof {
                reveal_strlit("\n");
                assert(t@ + "\n"@ =~= t@.push('\n'));
            }
            cat2(&t, "\n")
        },
        Err(_) => cat2(&show(v), "\n"),
    }
}

/// How the values of a capability probe are shown.
pub open spec fn probe_style() -> spec_fn(Json, Seq<char>) -> bool {
    |j: Json, words: Seq<char>| scalar_words(j, words)
}

/// The names under which a capability probe is shown first.
pub open spec fn probe_keys() -> Seq<Seq<char>> {
    seq![
        "os"@,
        "nix_flakes"@,
        "bwrap"@,
        "seatbelt"@,
        "container_runtime"@,
        "container_runtime_functional"@,
        "max_level_available"@,
    ]
}

/// A capability probe: what is known first, in its own order, then the rest.
pub fn print_probe(probe: &Value) -> (r: String)
    ensures
        sheet(
            r@,
            json::document(*probe),
            probe_keys(),
            probe_style(),
        ),
{
    let obj = match as_object(probe) {
        Some(obj) => obj,
        None => return whole_document(probe),
    };
    let ghost suits = probe_style();
    let ghost fields = json::fields(*obj);
    let names = keys(obj);
    let mut entries: Vec<(String, String)> = Vec::new();
    let mut i: usize = 0;
    while i < names.len()
        invariant
            i <= names@.len(),
            fields == json::fields(*obj),
            suits == probe_style(),
            forall|k: Seq<char>| #[trigger]
                names.deep_view().contains(k) <==> fields.contains_key(k),
            entries@.len() == i,
            forall|j: int|
                0 <= j < i ==> (#[trigger] entries@[j]).0@ == names@[j]@ && suits(
                    fields[names@[j]@],
                    entries@[j].1@,
                ),
        decreases names@.len() - i,
    {
        proof {
            assert(names.deep_view()[i as int] == names@[i as int]@);
            assert(names.deep_view().contains(names@[i as int]@));
        }
        let words = match get(obj, &names[i]) {
            Some(v) => render_scalar(v),
            None => String::new(),
        };
        entries.push((names[i].clone(), words));
        i = i + 1;
    }
    proof {
        let view = entries_view(entries@);
        assert(view.map_values(|e: (Seq<char>, Seq<char>)| e.0) =~= names.deep_view());
        assert(listed(view, fields, suits));
    }
    let known = vec![
        "os",
        "nix_flakes",
        "bwrap",
        "seatbelt",
        "container_runtime",
        "container_runtime_functional",
        "max_level_available",
    ];
    assert(known.deep_view() =~= probe_keys());
    let out = entry_lines(&entries, &known);
    proof {
        let doc = json::document(*probe);
        assert(doc->Object_0 == fields);
        assert(listed(entries_view(entries@), doc->Object_0, suits));
    }
    out
}

/// The slots in which models are shown first.
pub open spec fn role_order() -> Seq<Seq<char>> {
    seq!["tier0"@, "tier1"@, "tier2"@, "verifier_floor"@, "shim"@]
}

/// The text under a name in a document, or a question mark where there is none.
pub open spec fn text_under(j: Json, name: Seq<char>) -> Seq<char> {
    match j {
        Json::Object(f) => if f.contains_key(name) && f[name] is Text {
            f[name]->Text_0
        } else {
            "?"@
        },
        _ => "?"@,
    }
}

/// What a slot of the model report shows.
pub open spec fn auth_words(j: Json) -> Seq<char> {
    text_under(j, "model"@) + " ["@ + text_under(j, "backend"@) + "] — "@ + text_under(
        j,
        "status"@,
    )
}

/// How the slots of the model report are shown.
pub open spec fn auth_style() -> spec_fn(Json, Seq<char>) -> bool {
    |j: Json, words: Seq<char>| words == auth_words(j)
}

fn text_at<'a>(v: &'a Value, name: &str) -> (r: &'a str)
    ensures
        r@ == text_under(json::document(*v), name@),
{
    match as_object(v) {
        Some(m) => match get(m, name) {
            Some(v) => match as_text(v) {
                Some(t) => t,
                None => "?",
            },
            None => "?",
        },
        None => "?",
    }
}

/// The model report: the known slots in their order, then the rest.
pub fn print_model_auth(model_auth: &Value) -> (r: String)
    ensures
        sheet(
            r@,
            json::document(*model_auth),
            role_order(),
            auth_style(),
        ),
{
    let obj = match as_object(model_auth) {
        Some(obj) => obj,
        None => return whole_document(model_auth),
    };
    let ghost suits = auth_style();
    let ghost fields = json::fields(*obj);
    let names = keys(obj);
    let mut entries: Vec<(String, String)> = Vec::new();
    let mut i: usize = 0;
    while i < names.len()
        invariant
            i <= names@.len(),
            fields == json::fields(*obj),
            suits == auth_style(),
            forall|k: Seq<char>| #[trigger]
                names.deep_view().contains(k) <==> fields.contains_key(k),
            entries@.len() == i,
            forall|j: int|
                0 <= j < i ==> (#[trigger] entries@[j]).0@ == names@[j]@ && suits(
                    fields[names@[j]@],
                    entries@[j].1@,
                ),
        decreases names@.len() - i,
    {
        proof {
            assert(names.deep_view()[i as int] == names@[i as int]@);
            assert(names.deep_view().contains(names@[i as int]@));
        }
        let words = match get(obj, &names[i]) {
            Some(entry) => cat5(
                text_at(entry, "model"),
                " [",
                text_at(entry, "backend"),
                "] — ",
                text_at(entry, "status"),
            ),
            None => String::new(),
        };
        entries.push((names[i].clone(), words));
        i = i + 1;
    }
    proof {
        let view = entries_view(entries@);
        assert(view.map_values(|e: (Seq<char>, Seq<char>)| e.0) =~= names.deep_view());
        assert(listed(view, fields, suits));
    }
    let known = vec!["tier0", "tier1", "tier2", "verifier_floor", "shim"];
    assert(known.deep_view() =~= role_order());
    let out = entry_lines(&entries, &known);
    proof {
        let doc = json::document(*model_auth);
        assert(doc->Object_0 == fields);
        assert(listed(entries_view(entries@), doc->Object_0, suits));
    }
    out
}

/// What the doctor report says: the active profile, the resolved one as a
/// document, the capability probe and the model report.
pub open spec fn doctor_words(
    shown: Seq<char>,
    profile: Seq<char>,
    resolved: Seq<char>,
    probe: Seq<char>,
    model_auth: Seq<char>,
) -> bool {
    shown == "active profile: "@ + profile + "\n\nresolved profile:\n"@ + resolved
        + "\ncapability probe:\n"@ + probe + "\nmodel auth:\n"@ + model_auth
}

/// The whole doctor report.
pub fn doctor_text(profile: &str, resolved: &Value, probe: &Value, model_auth: &Value) -> (r: String)
    ensures
        exists|resolved_words: Seq<char>, probe_words: Seq<char>, auth: Seq<char>|
            {
                &&& #[trigger] doctor_words(r@, profile@, resolved_words, probe_words, auth)
                &&& document_words(json::document(*resolved), resolved_words)
                &&& sheet(
                    probe_words,
                    json::document(*probe),
                    probe_keys(),
                    probe_style(),
                )
                &&& sheet(
                    auth,
                    json::document(*model_auth),
                    role_order(),
                    auth_style(),
                )
            },
{
    let resolved_words = whole_document(resolved);
    let probe_words = print_probe(probe);
    let auth = print_model_auth(model_auth);
    let mut out = cat5(
        "active profile: ",
        profile,
        "\n\nresolved profile:\n",
        &resolved_words,
        "\ncapability probe:\n",
    );
    out.append(&probe_words);
    out.append("\nmodel auth:\n");
    out.append(&auth);
    assert(doctor_words(out@, profile@, resolved_words@, probe_words@, auth@));
    out
}

/// The result of a journal query, as a document.
pub fn query_text(value: &Value) -> (r: String)
    ensures
        document_words(json::document(*value), r@),
{
    whole_document(value)
}

// ---------------------------------------------------------------------------
// Commands
// ---------------------------------------------------------------------------

/// What is printed once a task was delegated.
pub fn delegated_text(task_id: &str, advisor: &str) -> (r: String)
    ensures
        r@ == "task_id: "@ + task_id@ + "\nadvisor: "@ + advisor@
            + "\npoll with: maestro task-status --advisor "@ + advisor@ + "\n"@,
{
    let mut out = cat5(
        "task_id: ",
        task_id,
        "\nadvisor: ",
        advisor,
        "\npoll with: maestro task-status --advisor ",
    );
    out.append(advisor);
    out.append("\n");
    out
}

/// What is printed once a task was closed.
pub fn closed_text(task_id: &str, outcome: &str) -> (r: String)
    ensures
        r@ == "closed task "@ + task_id@ + " ("@ + outcome@ + ")\n"@,
{
    cat5("closed task ", task_id, " (", outcome, ")\n")
}

/// What is printed once a task was merged.
pub fn merged_text(task_id: &str) -> (r: String)
    ensures
        r@ == "merged task "@ + task_id@ + "\n"@,
{
    cat3("merged task ", task_id, "\n")
}

/// What is printed once a kill was asked for.
pub fn killed_text(task_id: &str) -> (r: String)
    ensures
        r@ == "kill requested for task "@ + task_id@ + " (interrupted_human)\n"@,
{
    cat3("kill requested for task ", task_id, " (interrupted_human)\n")
}

/// Which task to kill. Only one task can be killed at a time, and it has to be
/// named.
pub fn kill_target<'a>(task_id: Option<&'a str>, advisor: Option<&str>, all: bool) -> (r: Result<
    &'a str,
    &'static str,
>)
    ensures
        match r {
            Ok(t) => !all && advisor is None && task_id == Some(t),
            Err(m) => if all || advisor is Some {
                m@
                    == "maestro kill: --all / --advisor fan-out is not implemented in M3; kill by task id"@
            } else {
                task_id is None && m@ == "maestro kill: a task id is required"@
            },
        },
{
    if all || advisor.is_some() {
        return Err(
            "maestro kill: --all / --advisor fan-out is not implemented in M3; kill by task id",
        );
    }
    match task_id {
        Some(t) => Ok(t),
        None => Err("maestro kill: a task id is required"),
    }
}

/// The first session with a log at or after `from`.
pub open spec fn first_log(logs: Seq<Option<Seq<char>>>, from: int) -> Option<Seq<char>>
    decreases logs.len() - from,
{
    if from < 0 || from >= logs.len() {
        None
    } else if logs[from] is Some {
        logs[from]
    } else {
        first_log(logs, from + 1)
    }
}

/// The log to print for a task. The logs are those of its sessions, latest
/// first.
pub fn log_target(task_id: &str, logs: &Vec<Option<String>>) -> (r: Result<String, String>)
    ensures
        match r {
            Ok(p) => first_log(logs.deep_view(), 0) == Some(p@),
            Err(m) => first_log(logs.deep_view(), 0) is None && m@ == "no captured log for task "@
                + task_id@,
        },
{
    let ghost all = logs.deep_view();
    let mut i: usize = 0;
    while i < logs.len()
        invariant
            all == logs.deep_view(),
            i <= logs@.len(),
            first_log(all, 0) == first_log(all, i as int),
        decreases logs@.len() - i,
    {
        assert(all[i as int] == logs@[i as int].deep_view());
        match &logs[i] {
            Some(p) => return Ok(p.clone()),
            None => {},
        }
        i = i + 1;
    }
    Err(cat2("no captured log for task ", task_id))
}

/// Which task's log to print, which has to be named.
pub fn log_task(task_id: Option<&str>) -> (r: Result<&str, &'static str>)
    ensures
        match r {
            Ok(t) => task_id == Some(t),
            Err(m) => task_id is None && m@ == "maestro logs: a task id is required"@,
        },
{
    match task_id {
        Some(t) => Ok(t),
        None => Err("maestro logs: a task id is required"),
    }
}

/// How long to pause between two looks: at least a second.
pub fn poll_interval(secs: u64) -> (r: u64)
    ensures
        r == (if secs < 1 {
            1
        } else {
            secs
        }),
{
    if secs < 1 {
        1
    } else {
        secs
    }
}

/// The exit code of a watch.
pub fn watch_exit_code(outcome: WatchOutcome) -> (r: i32)
    ensures
        r == (match outcome {
            WatchOutcome::Returned => 0i32,
            WatchOutcome::TimedOut => 2i32,
        }),
{
    match outcome {
        WatchOutcome::Returned => 0,
        WatchOutcome::TimedOut => 2,
    }
}

// ---------------------------------------------------------------------------
// Setting up
// ---------------------------------------------------------------------------

/// What is printed about a repository that was set up.
pub open spec fn init_words(
    report: InitReport,
    client: ClientView,
    config: Seq<char>,
    data: Seq<char>,
    state: Seq<char>,
    repo: Seq<char>,
) -> Seq<char> {
    (if report.wrote_config {
        "wrote starter config: "@
    } else {
        "config already exists, left intact: "@
    }) + config + "\nensured directories:\n  data:  "@ + data + "\n  state: "@ + state
        + "\nadvisor lockdown in "@ + repo + ":\n  "@ + client.dir() + "/settings.json  ("@
        + report.lockdown.settings.word() + ") — deny Edit/Write/Bash\n  .mcp.json              ("@
        + report.lockdown.mcp.word()
        + ") — registered maestro MCP server\n  "@ + client.instructions + "              ("@
        + report.lockdown.claude_md.word()
        + ") — advisor role pointer\nnote: deny rules are client-side defense-in-depth; the load-bearing control is the read-only mount from `maestro advise`.\n"@
}

/// What is printed about a repository that was set up.
pub fn init_text(
    report: &InitReport,
    client: &Client,
    config: &str,
    data: &str,
    state: &str,
    repo: &str,
) -> (r: String)
    ensures
        r@ == init_words(*report, client.deep_view(), config@, data@, state@, repo@),
{
    let mut out = (if report.wrote_config {
        "wrote starter config: "
    } else {
        "config already exists, left intact: "
    }).to_owned();
    out.append(config);
    out.append("\nensured directories:\n  data:  ");
    out.append(data);
    out.append("\n  state: ");
    out.append(state);
    out.append("\nadvisor lockdown in ");
    out.append(repo);
    out.append(":\n  ");
    out.append(&client.dir());
    out.append("/settings.json  (");
    out.append(report.lockdown.settings.label());
    out.append(") — deny Edit/Write/Bash\n  .mcp.json              (");
    out.append(report.lockdown.mcp.label());
    out.append(") — registered maestro MCP server\n  ");
    out.append(&client.instructions);
    out.append("              (");
    out.append(report.lockdown.claude_md.label());
    out.append(
        ") — advisor role pointer\nnote: deny rules are client-side defense-in-depth; the load-bearing control is the read-only mount from `maestro advise`.\n",
    );
    out
}

// ---------------------------------------------------------------------------
// The daemon's life
// ---------------------------------------------------------------------------

/// What is printed about the daemon.
pub open spec fn daemon_words(outcome: Option<HelloOutcome>, ours: u32) -> Seq<char> {
    match outcome {
        Some(HelloOutcome::Compatible { pid }) => "daemon: running (pid "@ + text::decimal(
            pid as nat,
        ) + ", protocol version "@ + text::decimal(ours as nat) + ")\n"@,
        Some(HelloOutcome::Incompatible { reported }) =>
            "daemon: running but INCOMPATIBLE (reports protocol version "@ + text::decimal(
            reported as nat,
        ) + ", this CLI speaks "@ + text::decimal(ours as nat)
            + "). Run `maestro daemon restart`.\n"@,
        None => "daemon: not running\n"@,
    }
}

/// What is printed about the daemon.
pub fn daemon_status_text(outcome: Option<HelloOutcome>, ours: u32) -> (r: String)
    ensures
        r@ == daemon_words(outcome, ours),
{
    match outcome {
        Some(HelloOutcome::Compatible { pid }) => cat5(
            "daemon: running (pid ",
            &u64_text(pid as u64),
            ", protocol version ",
            &u64_text(ours as u64),
            ")\n",
        ),
        Some(HelloOutcome::Incompatible { reported }) => cat5(
            "daemon: running but INCOMPATIBLE (reports protocol version ",
            &u64_text(reported as u64),
            ", this CLI speaks ",
            &u64_text(ours as u64),
            "). Run `maestro daemon restart`.\n",
        ),
        None => "daemon: not running\n".to_owned(),
    }
}

/// What is printed once a daemon was ensured.
pub fn daemon_start_text(outcome: EnsureOutcome) -> (r: String)
    ensures
        r@ == (if outcome.spawned > 0 {
            "daemon: started (pid "@
        } else {
            "daemon: already running (pid "@
        }) + text::decimal(outcome.pid as nat) + ")\n"@,
{
    let head = if outcome.spawned > 0 {
        "daemon: started (pid "
    } else {
        "daemon: already running (pid "
    };
    cat3(head, &u64_text(outcome.pid as u64), ")\n")
}

/// The process to signal, as the system counts processes. No process has the
/// number zero, or one beyond the signed range.
pub fn signal_target(pid: u32) -> (r: Result<i32, Fault>)
    ensures
        match r {
            Ok(raw) => 0 < pid <= i32::MAX && raw == pid,
            Err(f) => if pid == 0 {
                f.deep_view() == (FaultView { message: "invalid daemon pid 0"@, cause: None })
            } else {
                pid > i32::MAX && f.deep_view() == (FaultView {
                    message: "daemon pid out of range"@,
                    cause: Some("out of range integral type conversion attempted"@),
                })
            },
        },
{
    if pid > 0x7fff_ffff {
        Err(
            Fault {
                message: "daemon pid out of range".to_owned(),
                cause: Some("out of range integral type conversion attempted".to_owned()),
            },
        )
    } else if pid == 0 {
        Err(Fault::new("invalid daemon pid 0".to_owned()))
    } else {
        Ok(pid as i32)
    }
}

// ---------------------------------------------------------------------------
// Laws
// ---------------------------------------------------------------------------

/// The table of tasks has one line for each, in their order, with its name, tier,
/// state and title; without tasks it says so.
pub proof fn law_ps_has_a_line_for_each(rows: Seq<PsRowView>)
    ensures
        ps_lines(rows) == text::joined(
            rows.map_values(
                |r: PsRowView|
                    text::padded_right(r.task_id, 28) + " "@ + text::padded_right(
                        text::decimal_int(r.tier.rank()),
                        5,
                    ) + " "@ + text::padded_right(r.state, 16) + " "@ + r.title + "\n"@,
            ),
            Seq::empty(),
        ),
        rows.len() == 0 ==> ps_table(rows) == "no tasks\n"@,
        rows.len() > 0 ==> ps_table(rows).skip(ps_table(rows).len() - ps_lines(rows).len())
            == ps_lines(rows),
    decreases rows.len(),
{
    let f = |r: PsRowView|
        text::padded_right(r.task_id, 28) + " "@ + text::padded_right(
            text::decimal_int(r.tier.rank()),
            5,
        ) + " "@ + text::padded_right(r.state, 16) + " "@ + r.title + "\n"@;
    if rows.len() > 0 {
        let rest = rows.drop_last();
        law_ps_has_a_line_for_each(rest);
        text::lemma_run_on(rest.map_values(f), f(rows.last()));
        assert(rows.map_values(f) =~= rest.map_values(f).push(f(rows.last())));
        assert(ps_table(rows).skip(ps_table(rows).len() - ps_lines(rows).len()) =~= ps_lines(rows));
    } else {
        assert(rows.map_values(f) =~= Seq::<Seq<char>>::empty());
    }
}

/// What stands under a name is the first entry of that name, if there is one.
pub proof fn law_entries_are_found_by_name(
    entries: Seq<(Seq<char>, Seq<char>)>,
    name: Seq<char>,
    n: int,
)
    requires
        0 <= n <= entries.len(),
        forall|i: int| 0 <= i < n ==> (#[trigger] entries[i]).0 != name,
        n < entries.len() ==> entries[n].0 == name,
    ensures
        entry_under(entries, name) == (if n < entries.len() {
            Some(entries[n].1)
        } else {
            None
        }),
    decreases n,
{
    if n > 0 {
        let rest = entries.skip(1);
        assert forall|i: int| 0 <= i < n - 1 implies (#[trigger] rest[i]).0 != name by {
            assert(rest[i] == entries[i + 1]);
        }
        assert(entries[0].0 != name);
        law_entries_are_found_by_name(rest, name, n - 1);
    }
}

/// A sheet shows the known names that have an entry, in the order they are known
/// in, and every other entry, in its own order, each in a line of its own.
pub proof fn law_sheets_show_every_entry(
    entries: Seq<(Seq<char>, Seq<char>)>,
    names: Seq<Seq<char>>,
)
    ensures
        known_lines(entries, names) == text::joined(
            names.filter(|k: Seq<char>| entry_under(entries, k) is Some).map_values(
                |k: Seq<char>| "  "@ + k + ": "@ + entry_under(entries, k)->0 + "\n"@,
            ),
            Seq::empty(),
        ),
        other_lines(entries, names) == text::joined(
            entries.filter(|e: (Seq<char>, Seq<char>)| !names.contains(e.0)).map_values(
                |e: (Seq<char>, Seq<char>)| "  "@ + e.0 + ": "@ + e.1 + "\n"@,
            ),
            Seq::empty(),
        ),
{
    lemma_known_lines(entries, names);
    lemma_other_lines(entries, names);
}

proof fn lemma_known_lines(entries: Seq<(Seq<char>, Seq<char>)>, names: Seq<Seq<char>>)
    ensures
        known_lines(entries, names) == text::joined(
            names.filter(|k: Seq<char>| entry_under(entries, k) is Some).map_values(
                |k: Seq<char>| "  "@ + k + ": "@ + entry_under(entries, k)->0 + "\n"@,
            ),
            Seq::empty(),
        ),
    decreases names.len(),
{
    reveal(Seq::filter);
    let keep = |k: Seq<char>| entry_under(entries, k) is Some;
    let f = |k: Seq<char>| "  "@ + k + ": "@ + entry_under(entries, k)->0 + "\n"@;
    if names.len() > 0 {
        let rest = names.drop_last();
        lemma_known_lines(entries, rest);
        assert(known_lines(entries, rest) + Seq::<char>::empty() =~= known_lines(entries, rest));
        if keep(names.last()) {
            let before = rest.filter(keep);
            text::lemma_run_on(before.map_values(f), f(names.last()));
            assert(before.push(names.last()).map_values(f) =~= before.map_values(f).push(
                f(names.last()),
            ));
        }
    } else {
        assert(names.filter(keep).map_values(f) =~= Seq::<Seq<char>>::empty());
    }
}

proof fn lemma_other_lines(entries: Seq<(Seq<char>, Seq<char>)>, names: Seq<Seq<char>>)
    ensures
        other_lines(entries, names) == text::joined(
            entries.filter(|e: (Seq<char>, Seq<char>)| !names.contains(e.0)).map_values(
                |e: (Seq<char>, Seq<char>)| "  "@ + e.0 + ": "@ + e.1 + "\n"@,
            ),
            Seq::empty(),
        ),
    decreases entries.len(),
{
    reveal(Seq::filter);
    let keep = |e: (Seq<char>, Seq<char>)| !names.contains(e.0);
    let f = |e: (Seq<char>, Seq<char>)| "  "@ + e.0 + ": "@ + e.1 + "\n"@;
    if entries.len() > 0 {
        let rest = entries.drop_last();
        lemma_other_lines(rest, names);
        assert(other_lines(rest, names) + Seq::<char>::empty() =~= other_lines(rest, names));
        if keep(entries.last()) {
            let before = rest.filter(keep);
            text::lemma_run_on(before.map_values(f), f(entries.last()));
            assert(before.push(entries.last()).map_values(f) =~= before.map_values(f).push(
                f(entries.last()),
            ));
        }
    } else {
        assert(entries.filter(keep).map_values(f) =~= Seq::<Seq<char>>::empty());
    }
}

/// A role's standing is shown with its model and its backend; what an entry does
/// not hold as a text shows as a question mark.
pub proof fn law_standing_is_shown_whole(j: Json, name: Seq<char>)
    ensures
        j matches Json::Object(f) ==> (f.contains_key(name) && f[name] is Text ==> text_under(
            j,
            name,
        ) == f[name]->Text_0) && (!(f.contains_key(name) && f[name] is Text) ==> text_under(j, name)
            == "?"@),
        !(j is Object) ==> text_under(j, name) == "?"@,
        auth_words(j) == text_under(j, "model"@) + " ["@ + text_under(j, "backend"@) + "] — "@
            + text_under(j, "status"@),
{
}

/// The log that is shown is the first that there is.
pub proof fn law_first_log_is_shown(logs: Seq<Option<Seq<char>>>, from: int, n: int)
    requires
        0 <= from <= n <= logs.len(),
        forall|i: int| from <= i < n ==> (#[trigger] logs[i]) is None,
        n < logs.len() ==> logs[n] is Some,
    ensures
        first_log(logs, from) == (if n < logs.len() {
            logs[n]
        } else {
            None
        }),
    decreases n - from,
{
    if from < n {
        law_first_log_is_shown(logs, from + 1, n);
    }
}

/// A daemon that runs is shown with its process where it can be talked to, and with
/// both versions where it cannot; one that does not run is shown as not running.
pub proof fn law_daemons_are_shown_as_found(pid: u32, reported: u32, ours: u32)
    ensures
        daemon_words(Some(HelloOutcome::Compatible { pid }), ours) == "daemon: running (pid "@
            + text::decimal(pid as nat) + ", protocol version "@ + text::decimal(ours as nat)
            + ")\n"@,
        text::contains_text(
            daemon_words(Some(HelloOutcome::Incompatible { reported }), ours),
            text::decimal(reported as nat),
        ),
        text::contains_text(
            daemon_words(Some(HelloOutcome::Incompatible { reported }), ours),
            text::decimal(ours as nat),
        ),
        daemon_words(None, ours) == "daemon: not running\n"@,
{
    let a = "daemon: running but INCOMPATIBLE (reports protocol version "@;
    let b = ", this CLI speaks "@;
    let c = "). Run `maestro daemon restart`.\n"@;
    let x = text::decimal(reported as nat);
    let y = text::decimal(ours as nat);
    let all = daemon_words(Some(HelloOutcome::Incompatible { reported }), ours);
    text::lemma_stands_inside(a, x, b + y + c);
    assert(a + x + (b + y + c) =~= all);
    text::lemma_stands_inside(a + x + b, y, c);
    assert(a + x + b + y + c =~= all);
}

proof fn lemma_in_known_lines(
    entries: Seq<(Seq<char>, Seq<char>)>,
    names: Seq<Seq<char>>,
    i: int,
) -> (around: (Seq<char>, Seq<char>))
    requires
        0 <= i < names.len(),
        entry_under(entries, names[i]) is Some,
    ensures
        known_lines(entries, names) == around.0 + entry_line(
            names[i],
            entry_under(entries, names[i])->0,
        ) + around.1,
    decreases names.len(),
{
    let line = entry_line(names[i], entry_under(entries, names[i])->0);
    let rest = names.drop_last();
    if i == names.len() - 1 {
        assert(known_lines(entries, rest) + line =~= known_lines(entries, rest) + line + Seq::<
            char,
        >::empty());
        (known_lines(entries, rest), Seq::empty())
    } else {
        assert(rest[i] == names[i]);
        let (a, b) = lemma_in_known_lines(entries, rest, i);
        let more = match entry_under(entries, names.last()) {
            Some(v) => entry_line(names.last(), v),
            None => Seq::empty(),
        };
        assert((a + line + b) + more =~= a + line + (b + more));
        (a, b + more)
    }
}

proof fn lemma_in_other_lines(
    entries: Seq<(Seq<char>, Seq<char>)>,
    names: Seq<Seq<char>>,
    i: int,
) -> (around: (Seq<char>, Seq<char>))
    requires
        0 <= i < entries.len(),
        !names.contains(entries[i].0),
    ensures
        other_lines(entries, names) == around.0 + entry_line(entries[i].0, entries[i].1)
            + around.1,
    decreases entries.len(),
{
    let line = entry_line(entries[i].0, entries[i].1);
    let rest = entries.drop_last();
    if i == entries.len() - 1 {
        assert(other_lines(rest, names) + line =~= other_lines(rest, names) + line + Seq::<
            char,
        >::empty());
        (other_lines(rest, names), Seq::empty())
    } else {
        assert(rest[i] == entries[i]);
        let (a, b) = lemma_in_other_lines(rest, names, i);
        let more = if among(names, entries.last().0) {
            Seq::empty()
        } else {
            entry_line(entries.last().0, entries.last().1)
        };
        assert((a + line + b) + more =~= a + line + (b + more));
        (a, b + more)
    }
}

proof fn lemma_entry_under_is_an_entry(
    entries: Seq<(Seq<char>, Seq<char>)>,
    name: Seq<char>,
    i: int,
) -> (n: int)
    requires
        0 <= i < entries.len(),
        entries[i].0 == name,
    ensures
        0 <= n < entries.len(),
        entries[n].0 == name,
        entry_under(entries, name) == Some(entries[n].1),
    decreases entries.len(),
{
    if entries[0].0 == name {
        0
    } else {
        assert(entries.skip(1)[i - 1] == entries[i]);
        let m = lemma_entry_under_is_an_entry(entries.skip(1), name, i - 1);
        m + 1
    }
}

/// A sheet leaves nothing out: every field of the document has a line, with its
/// name and its value in the sheet's own style.
pub proof fn law_sheets_show_every_field(
    shown: Seq<char>,
    fields: Map<Seq<char>, Json>,
    known: Seq<Seq<char>>,
    suits: spec_fn(Json, Seq<char>) -> bool,
    k: Seq<char>,
) -> (value: Seq<char>)
    requires
        sheet(shown, Json::Object(fields), known, suits),
        fields.contains_key(k),
    ensures
        suits(fields[k], value),
        text::contains_text(shown, "  "@ + k + ": "@ + value + "\n"@),
{
    let doc = Json::Object(fields);
    assert(doc->Object_0 == fields);
    let entries = choose|entries: Seq<(Seq<char>, Seq<char>)>| #[trigger]
        listed(entries, fields, suits) && shown == known_lines(entries, known) + other_lines(
            entries,
            known,
        );
    let names = entries.map_values(|e: (Seq<char>, Seq<char>)| e.0);
    assert(names.contains(k));
    let at = choose|at: int| 0 <= at < names.len() && names[at] == k;
    assert(entries[at].0 == k);
    let n = lemma_entry_under_is_an_entry(entries, k, at);
    let value = entries[n].1;
    let line = entry_line(k, value);
    if known.contains(k) {
        let i = choose|i: int| 0 <= i < known.len() && known[i] == k;
        let (a, b) = lemma_in_known_lines(entries, known, i);
        text::lemma_stands_inside(a, line, b + other_lines(entries, known));
        assert(a + line + (b + other_lines(entries, known)) =~= shown);
    } else {
        let (a, b) = lemma_in_other_lines(entries, known, n);
        text::lemma_stands_inside(known_lines(entries, known) + a, line, b);
        assert(known_lines(entries, known) + a + line + b =~= shown);
    }
    value
}

/// What is no object is shown as a document, laid out; a text in a line shows as
/// itself, and anything else as it is written.
pub proof fn law_other_documents_are_laid_out(
    shown: Seq<char>,
    j: Json,
    known: Seq<Seq<char>>,
    t: Seq<char>,
)
    ensures
        !(j is Object) ==> (sheet(shown, j, known, probe_style()) ==> shown == json::laid_out(j)
            + "\n"@),
        document_words(j, shown) ==> shown == json::laid_out(j) + "\n"@ && json::gives_back(
            shown,
            j,
        ),
        scalar_words(Json::Text(t), shown) <==> shown == t,
        !(j is Text) ==> (scalar_words(j, shown) ==> shown == json::written(j)),
        auth_style()(j, shown) <==> shown == auth_words(j),
        probe_style()(j, shown) <==> scalar_words(j, shown),
{
}

/// A doctor's report shows the profile, what it resolved to, what the host can do
/// and how the models stand, in that order and under their own headings.
pub proof fn law_doctors_report_in_order(
    shown: Seq<char>,
    profile: Seq<char>,
    resolved: Seq<char>,
    probe: Seq<char>,
    model_auth: Seq<char>,
)
    requires
        doctor_words(shown, profile, resolved, probe, model_auth),
    ensures
        text::begins(shown, "active profile: "@ + profile),
        text::contains_text(shown, "resolved profile:\n"@ + resolved),
        text::contains_text(shown, "capability probe:\n"@ + probe),
        text::contains_text(shown, "model auth:\n"@ + model_auth),
        shown.skip(shown.len() - model_auth.len()) == model_auth,
{
    let a = "active profile: "@ + profile;
    reveal_strlit("\n\nresolved profile:\n");
    reveal_strlit("resolved profile:\n");
    reveal_strlit("\n\n");
    reveal_strlit("\ncapability probe:\n");
    reveal_strlit("capability probe:\n");
    reveal_strlit("\nmodel auth:\n");
    reveal_strlit("model auth:\n");
    reveal_strlit("\n");
    assert("\n\nresolved profile:\n"@ =~= "\n\n"@ + "resolved profile:\n"@);
    assert("\ncapability probe:\n"@ =~= "\n"@ + "capability probe:\n"@);
    assert("\nmodel auth:\n"@ =~= "\n"@ + "model auth:\n"@);
    assert(shown.subrange(0, a.len() as int) =~= a);
    let b = "resolved profile:\n"@ + resolved;
    let c = "capability probe:\n"@ + probe;
    let d = "model auth:\n"@ + model_auth;
    let tail_c = "\n"@ + c + "\n"@ + d;
    text::lemma_stands_inside(a + "\n\n"@, b, tail_c);
    assert(a + "\n\n"@ + b + tail_c =~= shown);
    text::lemma_stands_inside(a + "\n\n"@ + b + "\n"@, c, "\n"@ + d);
    assert(a + "\n\n"@ + b + "\n"@ + c + ("\n"@ + d) =~= shown);
    text::lemma_stands_inside(a + "\n\n"@ + b + "\n"@ + c + "\n"@, d, Seq::empty());
    assert(a + "\n\n"@ + b + "\n"@ + c + "\n"@ + d + Seq::<char>::empty() =~= shown);
    assert(shown.skip(shown.len() - model_auth.len()) =~= model_auth);
}

proof fn lemma_holds_its_end(front: Seq<char>, needle: Seq<char>)
    ensures
        text::contains_text(front + needle, needle),
{
    text::lemma_stands_inside(front, needle, Seq::empty());
    assert(front + needle + Seq::<char>::empty() =~= front + needle);
}

proof fn lemma_holds_still(front: Seq<char>, more: Seq<char>, needle: Seq<char>)
    requires
        text::contains_text(front, needle),
    ensures
        text::contains_text(front + more, needle),
{
    let at = choose|at: int| text::occurs_at(front, needle, at);
    assert((front + more).subrange(at, at + needle.len()) =~= front.subrange(
        at,
        at + needle.len(),
    ));
    assert(text::occurs_at(front + more, needle, at));
}

proof fn lemma_begins_with_its_front(front: Seq<char>, more: Seq<char>)
    ensures
        text::begins(front + more, front + more),
{
    let all = front + more;
    assert(all.subrange(0, all.len() as int) =~= all);
}

proof fn lemma_begins_still(front: Seq<char>, more: Seq<char>, prefix: Seq<char>)
    requires
        text::begins(front, prefix),
    ensures
        text::begins(front + more, prefix),
{
    assert((front + more).subrange(0, prefix.len() as int) =~= front.subrange(
        0,
        prefix.len() as int,
    ));
}

/// What an initialisation did is told in full: where the configuration is and
/// whether it was written, the directories, the repository, and what became of
/// each of its files.
pub proof fn law_initialisations_are_told_in_full(
    report: InitReport,
    client: ClientView,
    config: Seq<char>,
    data: Seq<char>,
    state: Seq<char>,
    repo: Seq<char>,
)
    ensures
        ({
            let said = init_words(report, client, config, data, state, repo);
            &&& report.wrote_config ==> text::begins(said, "wrote starter config: "@ + config)
            &&& !report.wrote_config ==> text::begins(
                said,
                "config already exists, left intact: "@ + config,
            )
            &&& text::contains_text(said, "\nensured directories:\n  data:  "@ + data)
            &&& text::contains_text(said, "\n  state: "@ + state)
            &&& text::contains_text(said, "\nadvisor lockdown in "@ + repo)
            &&& text::contains_text(
                said,
                client.dir() + "/settings.json  ("@ + report.lockdown.settings.word(),
            )
            &&& text::contains_text(
                said,
                ") — deny Edit/Write/Bash\n  .mcp.json              ("@
                    + report.lockdown.mcp.word(),
            )
            &&& text::contains_text(
                said,
                client.instructions + "              ("@ + report.lockdown.claude_md.word(),
            )
        }),
{
    let w1 = report.lockdown.settings.word();
    let w2 = report.lockdown.mcp.word();
    let w3 = report.lockdown.claude_md.word();
    let denies = ") — deny Edit/Write/Bash\n  .mcp.json              ("@;
    let registers = ") — registered maestro MCP server\n  "@;
    let end =
        ") — advisor role pointer\nnote: deny rules are client-side defense-in-depth; the load-bearing control is the read-only mount from `maestro advise`.\n"@;
    let s0 = (if report.wrote_config {
        "wrote starter config: "@
    } else {
        "config already exists, left intact: "@
    });
    let s1 = s0 + config;
    let s2 = s1 + "\nensured directories:\n  data:  "@;
    let s3 = s2 + data;
    let s4 = s3 + "\n  state: "@;
    let s5 = s4 + state;
    let s6 = s5 + "\nadvisor lockdown in "@;
    let s7 = s6 + repo;
    let s8 = s7 + ":\n  "@;
    let s9 = s8 + client.dir();
    let s10 = s9 + "/settings.json  ("@;
    let s11 = s10 + w1;
    let s12 = s11 + denies;
    let s13 = s12 + w2;
    let s14 = s13 + registers;
    let s15 = s14 + client.instructions;
    let s16 = s15 + "              ("@;
    let s17 = s16 + w3;
    let s18 = s17 + end;
    assert(s18 == init_words(report, client, config, data, state, repo));
    let n1 = "\nensured directories:\n  data:  "@ + data;
    let n2 = "\n  state: "@ + state;
    let n3 = "\nadvisor lockdown in "@ + repo;
    let n4 = client.dir() + "/settings.json  ("@ + w1;
    let n5 = denies + w2;
    let n6 = client.instructions + "              ("@ + w3;
    assert(s1 + n1 =~= s3);
    lemma_holds_its_end(s1, n1);
    lemma_holds_still(s3, "\n  state: "@, n1);
    lemma_holds_still(s4, state, n1);
    lemma_holds_still(s5, "\nadvisor lockdown in "@, n1);
    lemma_holds_still(s6, repo, n1);
    lemma_holds_still(s7, ":\n  "@, n1);
    lemma_holds_still(s8, client.dir(), n1);
    lemma_holds_still(s9, "/settings.json  ("@, n1);
    lemma_holds_still(s10, w1, n1);
    lemma_holds_still(s11, denies, n1);
    lemma_holds_still(s12, w2, n1);
    lemma_holds_still(s13, registers, n1);
    lemma_holds_still(s14, client.instructions, n1);
    lemma_holds_still(s15, "              ("@, n1);
    lemma_holds_still(s16, w3, n1);
    lemma_holds_still(s17, end, n1);
    assert(s3 + n2 =~= s5);
    lemma_holds_its_end(s3, n2);
    lemma_holds_still(s5, "\nadvisor lockdown in "@, n2);
    lemma_holds_still(s6, repo, n2);
    lemma_holds_still(s7, ":\n  "@, n2);
    lemma_holds_still(s8, client.dir(), n2);
    lemma_holds_still(s9, "/settings.json  ("@, n2);
    lemma_holds_still(s10, w1, n2);
    lemma_holds_still(s11, denies, n2);
    lemma_holds_still(s12, w2, n2);
    lemma_holds_still(s13, registers, n2);
    lemma_holds_still(s14, client.instructions, n2);
    lemma_holds_still(s15, "              ("@, n2);
    lemma_holds_still(s16, w3, n2);
    lemma_holds_still(s17, end, n2);
    assert(s5 + n3 =~= s7);
    lemma_holds_its_end(s5, n3);
    lemma_holds_still(s7, ":\n  "@, n3);
    lemma_holds_still(s8, client.dir(), n3);
    lemma_holds_still(s9, "/settings.json  ("@, n3);
    lemma_holds_still(s10, w1, n3);
    lemma_holds_still(s11, denies, n3);
    lemma_holds_still(s12, w2, n3);
    lemma_holds_still(s13, registers, n3);
    lemma_holds_still(s14, client.instructions, n3);
    lemma_holds_still(s15, "              ("@, n3);
    lemma_holds_still(s16, w3, n3);
    lemma_holds_still(s17, end, n3);
    assert(s8 + n4 =~= s11);
    lemma_holds_its_end(s8, n4);
    lemma_holds_still(s11, denies, n4);
    lemma_holds_still(s12, w2, n4);
    lemma_holds_still(s13, registers, n4);
    lemma_holds_still(s14, client.instructions, n4);
    lemma_holds_still(s15, "              ("@, n4);
    lemma_holds_still(s16, w3, n4);
    lemma_holds_still(s17, end, n4);
    assert(s11 + n5 =~= s13);
    lemma_holds_its_end(s11, n5);
    lemma_holds_still(s13, registers, n5);
    lemma_holds_still(s14, client.instructions, n5);
    lemma_holds_still(s15, "              ("@, n5);
    lemma_holds_still(s16, w3, n5);
    lemma_holds_still(s17, end, n5);
    assert(s14 + n6 =~= s17);
    lemma_holds_its_end(s14, n6);
    lemma_holds_still(s17, end, n6);
    lemma_begins_with_its_front(s0, config);
    lemma_begins_still(s1, "\nensured directories:\n  data:  "@, s1);
    lemma_begins_still(s2, data, s1);
    lemma_begins_still(s3, "\n  state: "@, s1);
    lemma_begins_still(s4, state, s1);
    lemma_begins_still(s5, "\nadvisor lockdown in "@, s1);
    lemma_begins_still(s6, repo, s1);
    lemma_begins_still(s7, ":\n  "@, s1);
    lemma_begins_still(s8, client.dir(), s1);
    lemma_begins_still(s9, "/settings.json  ("@, s1);
    lemma_begins_still(s10, w1, s1);
    lemma_begins_still(s11, denies, s1);
    lemma_begins_still(s12, w2, s1);
    lemma_begins_still(s13, registers, s1);
    lemma_begins_still(s14, client.instructions, s1);
    lemma_begins_still(s15, "              ("@, s1);
    lemma_begins_still(s16, w3, s1);
    lemma_begins_still(s17, end, s1);
}

/// What is known of a host and of the roles is shown under these names, in this
/// order, before anything else.
pub proof fn law_known_names_come_first(k: Seq<char>)
    ensures
        probe_keys().contains(k) <==> k == "os"@ || k == "nix_flakes"@ || k == "bwrap"@ || k
            == "seatbelt"@ || k == "container_runtime"@ || k == "container_runtime_functional"@ || k
            == "max_level_available"@,
        role_order().contains(k) <==> k == "tier0"@ || k == "tier1"@ || k == "tier2"@ || k
            == "verifier_floor"@ || k == "shim"@,
        role_order()[0] == "tier0"@ && role_order()[1] == "tier1"@ && role_order()[2] == "tier2"@,
        role_order()[3] == "verifier_floor"@ && role_order()[4] == "shim"@,
{
    let p = probe_keys();
    let r = role_order();
    assert(p[0] == "os"@ && p[1] == "nix_flakes"@ && p[2] == "bwrap"@ && p[3] == "seatbelt"@);
    assert(p[4] == "container_runtime"@ && p[5] == "container_runtime_functional"@);
    assert(p[6] == "max_level_available"@);
    assert(r[0] == "tier0"@ && r[1] == "tier1"@ && r[2] == "tier2"@ && r[3] == "verifier_floor"@);
    assert(r[4] == "shim"@);
}

} // verus!
