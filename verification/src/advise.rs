//! Launching an advisor's session in a mount where the repository is read-only:
//! what runs inside, and what stays writable.

use crate::client::{Client, ClientView};
use crate::config::Config;
use crate::resolve::find;
use crate::text::{self, cat5, path_join, same};
use vstd::prelude::*;

verus! {

broadcast use vstd::string::group_string_axioms;

/// What an advisor's mount is made of.
#[derive(Debug)]
pub struct AdviseInputs {
    /// The repository, read-only inside.
    pub repo: String,
    /// The advisor's scratch directory.
    pub scratch: String,
    /// What stays writable inside the repository.
    pub writable_paths: Vec<String>,
    /// The advisor's home.
    pub home: String,
}

/// The command that runs inside the mount: the interactive client, or a shell
/// with a command.
pub fn advise_command<'a>(client: &'a Client, exec: Option<&str>) -> (r: (&'a str, Vec<String>))
    ensures
        match exec {
            Some(cmd) => r.0@ == "bash"@ && r.1.deep_view() == seq!["-lc"@, cmd@],
            None => r.0@ == client.name@ && r.1.deep_view() == Seq::<Seq<char>>::empty(),
        },
{
    let mut args: Vec<String> = Vec::new();
    match exec {
        Some(cmd) => {
            args.push("-lc".to_owned());
            args.push(cmd.to_owned());
            assert(args.deep_view() =~= seq!["-lc"@, cmd@]);
            ("bash", args)
        },
        None => {
            assert(args.deep_view() =~= Seq::<Seq<char>>::empty());
            (client.name.as_str(), args)
        },
    }
}

/// The profile an advisor's session runs under: the flag, or else the
/// environment unless it is empty, or else the configured default.
pub open spec fn session_profile(
    flag: Option<Seq<char>>,
    env: Option<Seq<char>>,
    default: Option<Seq<char>>,
) -> Option<Seq<char>> {
    match flag {
        Some(f) => Some(f),
        None => match env {
            Some(e) => if e.len() > 0 {
                Some(e)
            } else {
                default
            },
            None => default,
        },
    }
}

/// The paths that stay writable under a configuration: those of the active
/// profile, or else the default ones.
pub open spec fn writable_under(
    config: Config,
    flag: Option<Seq<char>>,
    env: Option<Seq<char>>,
) -> Seq<Seq<char>> {
    let default = config.defaults.advisor.deep_view().writable_paths;
    match session_profile(flag, env, config.default_profile.deep_view()) {
        Some(name) => match config.profile(name) {
            Some(p) => if p.advisor.writable_paths.len() > 0 {
                p.advisor.writable_paths
            } else {
                default
            },
            None => default,
        },
        None => default,
    }
}

fn active_profile<'a>(config: &'a Config, flag: Option<&'a str>, env: Option<&'a str>) -> (r: Option<
    &'a str,
>)
    ensures
        match session_profile(
            flag.deep_view(),
            env.deep_view(),
            config.default_profile.deep_view(),
        ) {
            Some(name) => r is Some && r->0@ == name,
            None => r is None,
        },
{
    match flag {
        Some(f) => return Some(f),
        None => {},
    }
    match env {
        Some(e) => {
            if !e.is_empty() {
                return Some(e);
            }
        },
        None => {},
    }
    match &config.default_profile {
        Some(d) => Some(d.as_str()),
        None => None,
    }
}

/// The paths that stay writable. Without a configuration there are none, and
/// the repository is read-only throughout.
pub fn resolve_writable_paths(
    config: Option<&Config>,
    flag: Option<&str>,
    env: Option<&str>,
) -> (r: Vec<String>)
    requires
        config is Some ==> config->0.wf(),
    ensures
        r.deep_view() == (match config {
            Some(c) => writable_under(*c, flag.deep_view(), env.deep_view()),
            None => Seq::empty(),
        }),
{
    let config = match config {
        Some(c) => c,
        None => {
            let none: Vec<String> = Vec::new();
            assert(none.deep_view() =~= Seq::<Seq<char>>::empty());
            return none;
        },
    };
    match active_profile(config, flag, env) {
        Some(name) => match find(config, name) {
            Some(p) => {
                if p.advisor.writable_paths.len() > 0 {
                    return p.advisor.writable_paths.clone();
                }
            },
            None => {},
        },
        None => {},
    }
    config.defaults.advisor.writable_paths.clone()
}

/// A path without the slashes it begins with.
pub open spec fn relative(path: Seq<char>) -> Seq<char>
    decreases path.len(),
{
    if path.len() > 0 && path[0] == '/' {
        relative(path.skip(1))
    } else {
        path
    }
}

/// Where writable paths lie under a repository; a path that is nothing but
/// slashes is dropped.
pub open spec fn under_repo(repo: Seq<char>, paths: Seq<Seq<char>>) -> Seq<Seq<char>>
    decreases paths.len(),
{
    if paths.len() == 0 {
        Seq::empty()
    } else {
        let rest = under_repo(repo, paths.drop_last());
        let rel = relative(paths.last());
        if rel.len() == 0 {
            rest
        } else {
            rest.push(text::path_joined(repo, rel))
        }
    }
}

fn make_relative(path: &str) -> (r: &str)
    ensures
        r@ == relative(path@),
{
    let cs = text::chars_of(path);
    let n: usize = cs.len();
    let mut i: usize = 0;
    assert(path@.skip(0) =~= path@);
    while i < n && cs[i] == '/'
        invariant
            cs@ == path@,
            n == path@.len(),
            i <= n,
            relative(path@) == relative(path@.skip(i as int)),
        decreases n - i,
    {
        assert(path@.skip(i as int)[0] == path@[i as int]);
        assert(path@.skip(i as int).skip(1) =~= path@.skip(i + 1));
        i = i + 1;
    }
    proof {
        if i < n {
            assert(path@.skip(i as int)[0] == path@[i as int]);
        }
        assert(path@.subrange(i as int, n as int) =~= path@.skip(i as int));
    }
    path.substring_char(i, n)
}

/// Where writable paths lie under a repository, before the file system has
/// resolved them.
pub fn writable_candidates(repo: &str, paths: &Vec<String>) -> (r: Vec<String>)
    ensures
        r.deep_view() == under_repo(repo@, paths.deep_view()),
{
    let ghost all = paths.deep_view();
    let mut out: Vec<String> = Vec::new();
    let mut i: usize = 0;
    assert(all.take(0) =~= Seq::<Seq<char>>::empty());
    assert(out.deep_view() =~= Seq::<Seq<char>>::empty());
    while i < paths.len()
        invariant
            all == paths.deep_view(),
            i <= paths@.len(),
            out.deep_view() == under_repo(repo@, all.take(i as int)),
        decreases paths@.len() - i,
    {
        proof {
            let now = all.take(i + 1);
            assert(now.drop_last() =~= all.take(i as int));
            assert(now.last() == paths@[i as int]@);
        }
        let rel = make_relative(&paths[i]);
        if !rel.is_empty() {
            let ghost before = out.deep_view();
            out.push(path_join(repo, rel));
            assert(out.deep_view() =~= before.push(text::path_joined(repo@, rel@)));
        }
        i = i + 1;
    }
    assert(all.take(i as int) =~= all);
    out
}

/// Whether a resolved path is a directory or something in it. Both are absolute
/// and without links, dots or a slash at the end.
pub open spec fn inside(dir: Seq<char>, path: Seq<char>) -> bool {
    path == dir || text::begins(
        path,
        if dir.len() > 0 && dir.last() == '/' {
            dir
        } else {
            dir.push('/')
        },
    )
}

/// The resolved paths that stay inside the repository, in their order.
pub open spec fn kept_inside(repo: Seq<char>, resolved: Seq<Option<Seq<char>>>) -> Seq<Seq<char>>
    decreases resolved.len(),
{
    if resolved.len() == 0 {
        Seq::empty()
    } else {
        let rest = kept_inside(repo, resolved.drop_last());
        match resolved.last() {
            Some(p) => if inside(repo, p) {
                rest.push(p)
            } else {
                rest
            },
            None => rest,
        }
    }
}

fn is_inside(dir: &str, path: &str) -> (r: bool)
    ensures
        r == inside(dir@, path@),
{
    if same(path, dir) {
        return true;
    }
    let n: usize = dir.unicode_len();
    let mut prefix = dir.to_owned();
    if n == 0 || dir.get_char(n - 1) != '/' {
        prefix.push('/');
    }
    text::starts_with(path, &prefix)
}

/// Keeps the writable paths that exist and stay inside the repository.
/// `resolved[i]` is what the file system made of a candidate, if it exists.
pub fn resolve_repo_writable_paths(repo: &str, resolved: &Vec<Option<String>>) -> (r: Vec<String>)
    ensures
        r.deep_view() == kept_inside(repo@, resolved.deep_view()),
{
    let ghost all = resolved.deep_view();
    let mut out: Vec<String> = Vec::new();
    let mut i: usize = 0;
    assert(all.take(0) =~= Seq::<Option<Seq<char>>>::empty());
    assert(out.deep_view() =~= Seq::<Seq<char>>::empty());
    while i < resolved.len()
        invariant
            all == resolved.deep_view(),
            i <= resolved@.len(),
            out.deep_view() == kept_inside(repo@, all.take(i as int)),
        decreases resolved@.len() - i,
    {
        proof {
            let now = all.take(i + 1);
            assert(now.drop_last() =~= all.take(i as int));
            assert(now.last() == resolved@[i as int].deep_view());
        }
        match &resolved[i] {
            Some(p) => {
                if is_inside(repo, p) {
                    let ghost before = out.deep_view();
                    out.push(p.clone());
                    assert(out.deep_view() =~= before.push(p@));
                }
            },
            None => {},
        }
        i = i + 1;
    }
    assert(all.take(i as int) =~= all);
    out
}

/// The words for a missing home.
pub open spec fn no_home(client: ClientView) -> Seq<char> {
    "resolving $HOME (needed writable for "@ + client.title + " Code's ~/"@ + client.dir() + ")"@
}

/// The advisor's home, which must be known.
pub fn home_dir(home: Option<String>, client: &Client) -> (r: Result<String, String>)
    ensures
        match r {
            Ok(h) => home.deep_view() == Some(h@) && h@.len() > 0,
            Err(m) => m@ == no_home(client.deep_view()) && (home matches Some(h) ==> h@.len()
                == 0),
        },
{
    match home {
        Some(h) => {
            if !h.as_str().is_empty() {
                return Ok(h);
            }
        },
        None => {},
    }
    Err(
        cat5(
            "resolving $HOME (needed writable for ",
            &client.title,
            " Code's ~/",
            &client.dir(),
            ")",
        ),
    )
}

// ---------------------------------------------------------------------------
// Laws
// ---------------------------------------------------------------------------

/// Nothing outside the repository ever becomes writable through it.
pub proof fn law_writable_paths_stay_inside(repo: Seq<char>, resolved: Seq<Option<Seq<char>>>)
    ensures
        forall|i: int|
            0 <= i < kept_inside(repo, resolved).len() ==> inside(
                repo,
                #[trigger] kept_inside(repo, resolved)[i],
            ),
    decreases resolved.len(),
{
    if resolved.len() > 0 {
        law_writable_paths_stay_inside(repo, resolved.drop_last());
        let rest = kept_inside(repo, resolved.drop_last());
        let all = kept_inside(repo, resolved);
        assert forall|i: int| 0 <= i < all.len() implies inside(repo, #[trigger] all[i]) by {
            if i < rest.len() {
                assert(all[i] == rest[i]);
            }
        }
    }
}

/// Every path that exists inside the repository is kept.
pub proof fn law_paths_inside_are_kept(
    repo: Seq<char>,
    resolved: Seq<Option<Seq<char>>>,
    i: int,
)
    requires
        0 <= i < resolved.len(),
        resolved[i] matches Some(p) && inside(repo, p),
    ensures
        kept_inside(repo, resolved).contains(resolved[i]->0),
    decreases resolved.len(),
{
    let rest = kept_inside(repo, resolved.drop_last());
    let all = kept_inside(repo, resolved);
    if i == resolved.len() - 1 {
        assert(all[all.len() - 1] == resolved[i]->0);
    } else {
        law_paths_inside_are_kept(repo, resolved.drop_last(), i);
        let at = choose|at: int| 0 <= at < rest.len() && rest[at] == resolved[i]->0;
        assert(all[at] == rest[at]);
    }
}

/// The session runs under the profile that the flag names; without a flag, under
/// the one that the environment names, unless that is empty; else under the
/// configured one.
pub proof fn law_session_profile_by_precedence(
    flag: Option<Seq<char>>,
    env: Option<Seq<char>>,
    default: Option<Seq<char>>,
)
    ensures
        flag is Some ==> session_profile(flag, env, default) == flag,
        flag is None && env is Some && env->0.len() > 0 ==> session_profile(flag, env, default)
            == env,
        flag is None && (env is None || env->0.len() == 0) ==> session_profile(flag, env, default)
            == default,
{
}

/// What a profile leaves writable is what is writable under it; a profile that
/// leaves nothing, or is not there, leaves the default.
pub proof fn law_writable_paths_follow_the_profile(
    config: Config,
    flag: Option<Seq<char>>,
    env: Option<Seq<char>>,
)
    ensures
        ({
            let name = session_profile(flag, env, config.default_profile.deep_view());
            let own = if name is Some && config.profile(name->0) is Some {
                config.profile(name->0)->0.advisor.writable_paths
            } else {
                Seq::empty()
            };
            &&& own.len() > 0 ==> writable_under(config, flag, env) == own
            &&& own.len() == 0 ==> writable_under(config, flag, env)
                == config.defaults.advisor.deep_view().writable_paths
        }),
{
}

/// A path made relative loses the slashes it begins with and nothing else.
pub proof fn law_relative_paths_lose_only_slashes(path: Seq<char>) -> (n: int)
    ensures
        0 <= n <= path.len(),
        relative(path) == path.skip(n),
        forall|i: int| 0 <= i < n ==> #[trigger] path[i] == '/',
        n < path.len() ==> path[n] != '/',
    decreases path.len(),
{
    if path.len() > 0 && path[0] == '/' {
        let rest = path.skip(1);
        let m = law_relative_paths_lose_only_slashes(rest);
        assert(rest.skip(m) =~= path.skip(m + 1));
        assert forall|i: int| 0 <= i < m + 1 implies #[trigger] path[i] == '/' by {
            if i > 0 {
                assert(rest[i - 1] == path[i]);
            }
        }
        if m < rest.len() {
            assert(rest[m] == path[m + 1]);
        }
        m + 1
    } else {
        assert(path.skip(0) =~= path);
        0
    }
}

/// Every writable path that names something lies under the repository, in its
/// order; one of slashes alone names nothing.
pub proof fn law_writable_paths_lie_under_the_repo(repo: Seq<char>, paths: Seq<Seq<char>>)
    ensures
        under_repo(repo, paths) == paths.map_values(|p: Seq<char>| relative(p)).filter(
            |p: Seq<char>| p.len() > 0,
        ).map_values(|p: Seq<char>| text::path_joined(repo, p)),
    decreases paths.len(),
{
    reveal(Seq::filter);
    let rel = |p: Seq<char>| relative(p);
    let some = |p: Seq<char>| p.len() > 0;
    let put = |p: Seq<char>| text::path_joined(repo, p);
    if paths.len() > 0 {
        let rest = paths.drop_last();
        law_writable_paths_lie_under_the_repo(repo, rest);
        let all = paths.map_values(rel);
        assert(all.drop_last() =~= rest.map_values(rel));
        let before = rest.map_values(rel).filter(some);
        if some(rel(paths.last())) {
            assert(before.push(rel(paths.last())).map_values(put) =~= before.map_values(put).push(
                put(rel(paths.last())),
            ));
        }
    } else {
        assert(paths.map_values(rel) =~= Seq::<Seq<char>>::empty());
        assert(Seq::<Seq<char>>::empty().filter(some).map_values(put) =~= Seq::<
            Seq<char>,
        >::empty());
    }
}

/// A path is inside a directory exactly where it is that directory or begins with
/// it and a slash: a longer name that merely begins alike is outside.
pub proof fn law_inside_means_below(dir: Seq<char>, name: Seq<char>, c: char)
    requires
        dir.len() > 0,
        dir.last() != '/',
        c != '/',
    ensures
        inside(dir, dir),
        inside(dir, dir.push('/') + name),
        !inside(dir, dir.push(c) + name),
{
    let below = dir.push('/') + name;
    assert(below.subrange(0, dir.len() as int + 1) =~= dir.push('/'));
    let beside = dir.push(c) + name;
    assert(beside[dir.len() as int] == c);
    if text::begins(beside, dir.push('/')) {
        assert(beside.subrange(0, dir.len() as int + 1)[dir.len() as int] == c);
    }
    assert(beside.len() > dir.len());
}

/// What is kept is exactly what exists inside the repository, in its order.
pub proof fn law_kept_paths_are_those_inside(repo: Seq<char>, resolved: Seq<Option<Seq<char>>>)
    ensures
        kept_inside(repo, resolved) == resolved.filter(
            |p: Option<Seq<char>>| p is Some && inside(repo, p->0),
        ).map_values(|p: Option<Seq<char>>| p->0),
    decreases resolved.len(),
{
    reveal(Seq::filter);
    let keep = |p: Option<Seq<char>>| p is Some && inside(repo, p->0);
    let get = |p: Option<Seq<char>>| p->0;
    if resolved.len() > 0 {
        let rest = resolved.drop_last();
        law_kept_paths_are_those_inside(repo, rest);
        if keep(resolved.last()) {
            assert(rest.filter(keep).push(resolved.last()).map_values(get) =~= rest.filter(
                keep,
            ).map_values(get).push(get(resolved.last())));
        }
    } else {
        assert(resolved.filter(keep).map_values(get) =~= Seq::<Seq<char>>::empty());
    }
}

/// A missing home is explained by the client that needs it.
pub proof fn law_missing_homes_name_the_client(client: ClientView)
    ensures
        text::contains_text(no_home(client), client.title),
        text::contains_text(no_home(client), client.dir()),
{
    let a = "resolving $HOME (needed writable for "@;
    let b = " Code's ~/"@;
    text::lemma_stands_inside(a, client.title, b + client.dir() + ")"@);
    assert(a + client.title + (b + client.dir() + ")"@) =~= no_home(client));
    text::lemma_stands_inside(a + client.title + b, client.dir(), ")"@);
}

} // verus!
