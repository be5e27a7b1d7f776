//! Finding programs: an override, a sibling of the running program, the search
//! path.

use crate::model_auth::{self, is_executable_file};
use crate::text::{self, path_join};
use vstd::prelude::*;

verus! {

/// Where a sibling of the running program may lie: next to it, then one
/// directory up.
pub open spec fn siblings(
    dir: Option<Seq<char>>,
    above: Option<Seq<char>>,
    name: Seq<char>,
) -> Seq<Seq<char>> {
    match (dir, above) {
        (Some(d), Some(u)) => seq![text::path_joined(d, name), text::path_joined(u, name)],
        (Some(d), None) => seq![text::path_joined(d, name)],
        _ => Seq::empty(),
    }
}

/// Where a sibling of the running program may lie. `dir` is the directory of
/// the running program, `above` the one that holds it.
pub fn sibling_candidates(dir: &Option<String>, above: &Option<String>, name: &str) -> (r: Vec<
    String,
>)
    ensures
        r.deep_view() == siblings(dir.deep_view(), above.deep_view(), name@),
{
    let mut out: Vec<String> = Vec::new();
    match dir {
        Some(d) => {
            out.push(path_join(d, name));
            match above {
                Some(u) => out.push(path_join(u, name)),
                None => {},
            }
        },
        None => {},
    }
    assert(out.deep_view() =~= siblings(dir.deep_view(), above.deep_view(), name@));
    out
}

/// The first path at or after `from` that is there.
pub open spec fn first_there(
    paths: Seq<Seq<char>>,
    there: Seq<bool>,
    from: int,
) -> Option<Seq<char>>
    decreases paths.len() - from,
{
    if from < 0 || from >= paths.len() || from >= there.len() {
        None
    } else if there[from] {
        Some(paths[from])
    } else {
        first_there(paths, there, from + 1)
    }
}

/// Which program to run: the override, unless it is empty; else the first
/// sibling that is there; else the bare name, which is looked up on the search
/// path.
pub open spec fn program(
    override_path: Option<Seq<char>>,
    siblings: Seq<Seq<char>>,
    there: Seq<bool>,
    name: Seq<char>,
) -> Seq<char> {
    match override_path {
        Some(p) => if p.len() > 0 {
            p
        } else {
            sibling_or(siblings, there, name)
        },
        None => sibling_or(siblings, there, name),
    }
}

/// The first sibling that is there, or else the bare name.
pub open spec fn sibling_or(
    siblings: Seq<Seq<char>>,
    there: Seq<bool>,
    name: Seq<char>,
) -> Seq<char> {
    match first_there(siblings, there, 0) {
        Some(p) => p,
        None => name,
    }
}

/// Which program to run. `there[i]` says whether `siblings[i]` is a file.
pub fn resolve_program(
    override_path: &Option<String>,
    siblings: &Vec<String>,
    there: &Vec<bool>,
    name: &str,
) -> (r: String)
    ensures
        r@ == program(override_path.deep_view(), siblings.deep_view(), there@, name@),
{
    match override_path {
        Some(p) => {
            if !p.as_str().is_empty() {
                return p.clone();
            }
        },
        None => {},
    }
    let mut i: usize = 0;
    while i < siblings.len() && i < there.len()
        invariant
            i <= siblings@.len(),
            i <= there@.len(),
            first_there(siblings.deep_view(), there@, 0) == first_there(
                siblings.deep_view(),
                there@,
                i as int,
            ),
            sibling_or(siblings.deep_view(), there@, name@) == program(
                override_path.deep_view(),
                siblings.deep_view(),
                there@,
                name@,
            ),
        decreases siblings@.len() - i,
    {
        if there[i] {
            return siblings[i].clone();
        }
        i = i + 1;
    }
    name.to_owned()
}

/// The daemon's program.
pub const DAEMON: &'static str = "maestro-daemon";

/// The MCP server's program.
pub const MCP: &'static str = "maestro-mcp";

/// Which daemon to spawn. `there[i]` says whether `siblings[i]` is a file.
pub fn resolve_daemon_bin(
    override_path: &Option<String>,
    siblings: &Vec<String>,
    there: &Vec<bool>,
) -> (r: String)
    ensures
        r@ == program(override_path.deep_view(), siblings.deep_view(), there@, DAEMON@),
{
    resolve_program(override_path, siblings, there, DAEMON)
}

/// Which MCP server to register. `there[i]` says whether `siblings[i]` is a
/// file.
pub fn resolve_mcp_bin(
    override_path: &Option<String>,
    siblings: &Vec<String>,
    there: &Vec<bool>,
) -> (r: String)
    ensures
        r@ == program(override_path.deep_view(), siblings.deep_view(), there@, MCP@),
{
    resolve_program(override_path, siblings, there, MCP)
}

/// A path on the search path, and what is there.
#[derive(Debug)]
pub struct PathEntry {
    pub path: String,
    pub is_file: bool,
    pub mode: u32,
}

/// Whether an entry is a program.
pub open spec fn runnable(e: PathEntry) -> bool {
    e.is_file && e.mode & model_auth::RUN_BITS != 0
}

/// The first program at or after `from`.
pub open spec fn first_runnable(entries: Seq<PathEntry>, from: int) -> Option<Seq<char>>
    decreases entries.len() - from,
{
    if from < 0 || from >= entries.len() {
        None
    } else if runnable(entries[from]) {
        Some(entries[from].path@)
    } else {
        first_runnable(entries, from + 1)
    }
}

/// The first of the entries that is a program. The entries are one for each
/// directory of the search path, in its order.
pub fn resolve_exe_abs(entries: &Vec<PathEntry>) -> (r: Option<String>)
    ensures
        r.deep_view() == first_runnable(entries@, 0),
{
    let mut i: usize = 0;
    while i < entries.len()
        invariant
            i <= entries@.len(),
            first_runnable(entries@, 0) == first_runnable(entries@, i as int),
        decreases entries@.len() - i,
    {
        if is_executable_file(entries[i].is_file, entries[i].mode) {
            return Some(entries[i].path.clone());
        }
        i = i + 1;
    }
    None
}

/// The words for a missing `bwrap`.
pub const NO_BWRAP: &'static str =
    "maestro advise requires `bwrap` (bubblewrap) on Linux to enforce the read-only advisor mount, but it was not found on $PATH";

/// The `bwrap` to mount with, without which there is no advisor session.
pub fn resolve_bwrap(entries: &Vec<PathEntry>) -> (r: Result<String, String>)
    ensures
        match r {
            Ok(p) => first_runnable(entries@, 0) == Some(p@),
            Err(m) => first_runnable(entries@, 0) is None && m@ == NO_BWRAP@,
        },
{
    match resolve_exe_abs(entries) {
        Some(p) => Ok(p),
        None => Err(NO_BWRAP.to_owned()),
    }
}

/// An override that is not empty is always taken, whatever lies next to the
/// running program.
pub proof fn law_override_wins(
    path: Seq<char>,
    siblings: Seq<Seq<char>>,
    there: Seq<bool>,
    name: Seq<char>,
)
    requires
        path.len() > 0,
    ensures
        program(Some(path), siblings, there, name) == path,
{
}

/// What is found on the search path is a program among the entries, and no
/// program stands before it.
pub proof fn law_first_program_wins(entries: Seq<PathEntry>)
    ensures
        match first_runnable(entries, 0) {
            Some(p) => exists|i: int|
                #![trigger entries[i]]
                0 <= i < entries.len() && runnable(entries[i]) && entries[i].path@ == p && (forall|
                    j: int,
                |
                    0 <= j < i ==> !runnable(#[trigger] entries[j])),
            None => forall|j: int| 0 <= j < entries.len() ==> !runnable(#[trigger] entries[j]),
        },
{
    lemma_first_runnable(entries, 0);
}

proof fn lemma_first_runnable(entries: Seq<PathEntry>, from: int)
    requires
        0 <= from <= entries.len(),
        forall|j: int| 0 <= j < from ==> !runnable(#[trigger] entries[j]),
    ensures
        match first_runnable(entries, from) {
            Some(p) => exists|i: int|
                #![trigger entries[i]]
                0 <= i < entries.len() && runnable(entries[i]) && entries[i].path@ == p && (forall|
                    j: int,
                |
                    0 <= j < i ==> !runnable(#[trigger] entries[j])),
            None => forall|j: int| 0 <= j < entries.len() ==> !runnable(#[trigger] entries[j]),
        },
    decreases entries.len() - from,
{
    if from < entries.len() && !runnable(entries[from]) {
        lemma_first_runnable(entries, from + 1);
    }
}

/// A sibling is looked for next to the running program first and then one
/// directory up, and nowhere else.
pub proof fn law_siblings_lie_near(
    dir: Seq<char>,
    above: Seq<char>,
    name: Seq<char>,
)
    ensures
        siblings(Some(dir), Some(above), name) == seq![
            text::path_joined(dir, name),
            text::path_joined(above, name),
        ],
        siblings(Some(dir), None, name) == seq![text::path_joined(dir, name)],
        siblings(None, Some(above), name).len() == 0,
        siblings(None, None, name).len() == 0,
{
}

proof fn lemma_first_there(paths: Seq<Seq<char>>, there: Seq<bool>, from: int, first: int)
    requires
        0 <= from <= first <= paths.len(),
        paths.len() == there.len(),
        forall|j: int| from <= j < first ==> !#[trigger] there[j],
        first < paths.len() ==> there[first],
    ensures
        first_there(paths, there, from) == (if first < paths.len() {
            Some(paths[first])
        } else {
            None
        }),
    decreases first - from,
{
    if from < first {
        lemma_first_there(paths, there, from + 1, first);
    }
}

/// Without an override the first sibling that is there runs, and the bare name
/// where none is.
pub proof fn law_first_sibling_runs(
    override_path: Option<Seq<char>>,
    siblings: Seq<Seq<char>>,
    there: Seq<bool>,
    name: Seq<char>,
    first: int,
)
    requires
        override_path is None || override_path->0.len() == 0,
        siblings.len() == there.len(),
        0 <= first <= siblings.len(),
        forall|j: int| 0 <= j < first ==> !#[trigger] there[j],
        first < siblings.len() ==> there[first],
    ensures
        program(override_path, siblings, there, name) == (if first < siblings.len() {
            siblings[first]
        } else {
            name
        }),
{
    lemma_first_there(siblings, there, 0, first);
}

/// A program is a file that someone may run: neither a file that nobody may, nor
/// anything else that somebody may.
pub proof fn law_programs_are_files_that_run(e: PathEntry)
    ensures
        runnable(e) <==> e.is_file && e.mode & 0o111 != 0,
{
}

} // verus!
