//! Credentials from a file: when the file is trusted, and which of its values
//! reach the environment.

use crate::table::Table;
use crate::text::{self, stands_before};
use vstd::prelude::*;

verus! {

/// The bits that let a group or the world at a file.
pub const OPEN_BITS: u32 = 0o077;

/// Whether a file's mode lets anyone but its owner at it.
pub fn perms_too_open(mode: u32) -> (r: bool)
    ensures
        r == (mode & OPEN_BITS != 0),
        r == (mode % 64 != 0),
{
    assert(mode & 0o077 == mode % 64) by (bit_vector);
    mode & OPEN_BITS != 0
}

/// Whether pairs are listed in the order of their keys, each key once.
pub open spec fn ordered(pairs: Seq<(Seq<char>, Seq<char>)>) -> bool {
    forall|i: int, j: int|
        0 <= i < j < pairs.len() ==> text::sorts_before(
            (#[trigger] pairs[i]).0,
            (#[trigger] pairs[j]).0,
        )
}

/// The values that pairs give to keys; a later pair replaces an earlier one.
pub open spec fn table_of(pairs: Seq<(Seq<char>, Seq<char>)>) -> Map<Seq<char>, Seq<char>>
    decreases pairs.len(),
{
    if pairs.len() == 0 {
        Map::empty()
    } else {
        table_of(pairs.drop_last()).insert(pairs.last().0, pairs.last().1)
    }
}

/// Whether the pair at `i` has the key `k`.
pub open spec fn keyed(pairs: Seq<(Seq<char>, Seq<char>)>, i: int, k: Seq<char>) -> bool {
    0 <= i < pairs.len() && pairs[i].0 == k
}

/// Whether pairs list what a table holds, and nothing else.
pub open spec fn lists(pairs: Seq<(Seq<char>, Seq<char>)>, table: Map<Seq<char>, Seq<char>>) -> bool {
    &&& forall|i: int|
        0 <= i < pairs.len() ==> table.contains_key((#[trigger] pairs[i]).0) && table[pairs[i].0]
            == pairs[i].1
    &&& forall|k: Seq<char>| #[trigger] table.contains_key(k) ==> exists|i: int| keyed(pairs, i, k)
}

/// What a list of pairs says.
pub open spec fn owned_view(pairs: Seq<(String, String)>) -> Seq<(Seq<char>, Seq<char>)> {
    pairs.map_values(|p: (String, String)| (p.0@, p.1@))
}

/// The values of a credentials file, in the order of their keys, each key once.
#[derive(Debug)]
pub struct Credentials {
    env: Vec<(String, String)>,
}

impl Credentials {
    #[verifier::type_invariant]
    spec fn well_formed(self) -> bool {
        ordered(self.pairs())
    }

    /// The keys and values.
    pub closed spec fn pairs(self) -> Seq<(Seq<char>, Seq<char>)> {
        owned_view(self.env@)
    }

    /// The values that pairs give to keys.
    pub fn from_pairs(pairs: Vec<(String, String)>) -> (r: Self)
        ensures
            ordered(r.pairs()),
            lists(r.pairs(), table_of(owned_view(pairs@))),
    {
        let ghost all = owned_view(pairs@);
        let mut env: Vec<(String, String)> = Vec::new();
        let mut i: usize = 0;
        assert(all.take(0) =~= Seq::<(Seq<char>, Seq<char>)>::empty());
        while i < pairs.len()
            invariant
                all == owned_view(pairs@),
                i <= pairs@.len(),
                ordered(owned_view(env@)),
                lists(owned_view(env@), table_of(all.take(i as int))),
            decreases pairs@.len() - i,
        {
            let pair = (pairs[i].0.clone(), pairs[i].1.clone());
            proof {
                let now = all.take(i + 1);
                assert(now.drop_last() =~= all.take(i as int));
                assert(now.last() == (pair.0@, pair.1@));
            }
            insert_pair(&mut env, pair, Ghost(table_of(all.take(i as int))));
            i = i + 1;
        }
        assert(all.take(i as int) =~= all);
        Credentials { env }
    }
}

fn insert_pair(
    env: &mut Vec<(String, String)>,
    pair: (String, String),
    Ghost(table): Ghost<Map<Seq<char>, Seq<char>>>,
)
    requires
        ordered(owned_view(old(env)@)),
        lists(owned_view(old(env)@), table),
    ensures
        ordered(owned_view(final(env)@)),
        lists(owned_view(final(env)@), table.insert(pair.0@, pair.1@)),
{
    let ghost before = owned_view(env@);
    let ghost key = pair.0@;
    let ghost value = pair.1@;
    let mut at: usize = 0;
    while at < env.len() && stands_before(&env[at].0, &pair.0)
        invariant
            at <= env@.len(),
            env@ == old(env)@,
            key == pair.0@,
            before == owned_view(env@),
            forall|j: int| 0 <= j < at ==> text::sorts_before((#[trigger] before[j]).0, key),
        decreases env@.len() - at,
    {
        assert(before[at as int].0 == env@[at as int].0@);
        at = at + 1;
    }
    assert(at < env@.len() ==> before[at as int].0 == env@[at as int].0@);
    if at < env.len() && text::same(&env[at].0, &pair.0) {
        env.set(at, pair);
        proof {
            let now = owned_view(env@);
            assert(now =~= before.update(at as int, (key, value)));
            assert forall|k: Seq<char>| #[trigger] table.insert(key, value).contains_key(k) implies exists|
                i: int,
            | keyed(now, i, k) by {
                if k == key {
                    assert(keyed(now, at as int, k));
                } else {
                    assert(table.contains_key(k));
                    let i = choose|i: int| keyed(before, i, k);
                    assert(keyed(now, i, k));
                }
            }
            assert forall|i: int| 0 <= i < now.len() implies table.insert(key, value).contains_key(
                (#[trigger] now[i]).0,
            ) && table.insert(key, value)[now[i].0] == now[i].1 by {
                if i != at {
                    assert(now[i] == before[i]);
                    if i < at {
                        assert(text::sorts_before(before[i].0, before[at as int].0));
                    } else {
                        assert(text::sorts_before(before[at as int].0, before[i].0));
                    }
                    text::lemma_sorting_is_an_order(key, key);
                }
            }
        }
    } else {
        env.insert(at, pair);
        proof {
            let now = owned_view(env@);
            assert(now =~= before.insert(at as int, (key, value)));
            if at < before.len() {
                text::lemma_sorting_is_an_order(before[at as int].0, key);
            }
            assert forall|j: int| at <= j < before.len() implies text::sorts_before(
                key,
                (#[trigger] before[j]).0,
            ) by {
                if j > at {
                    text::lemma_sorting_chains(key, before[at as int].0, before[j].0);
                }
            }
            assert forall|i: int, j: int| 0 <= i < j < now.len() implies text::sorts_before(
                (#[trigger] now[i]).0,
                (#[trigger] now[j]).0,
            ) by {
                if i < at {
                    assert(now[i] == before[i]);
                }
                if j < at {
                    assert(now[j] == before[j]);
                }
                if i > at {
                    assert(now[i] == before[i - 1]);
                }
                if j > at {
                    assert(now[j] == before[j - 1]);
                }
            }
            assert forall|k: Seq<char>| #[trigger] table.insert(key, value).contains_key(k) implies exists|
                i: int,
            | keyed(now, i, k) by {
                if k == key {
                    assert(keyed(now, at as int, k));
                } else {
                    assert(table.contains_key(k));
                    let i = choose|i: int| keyed(before, i, k);
                    if i < at {
                        assert(keyed(now, i, k));
                    } else {
                        assert(now[i + 1] == before[i]);
                        assert(keyed(now, i + 1, k));
                    }
                }
            }
            assert forall|i: int| 0 <= i < now.len() implies table.insert(key, value).contains_key(
                (#[trigger] now[i]).0,
            ) && table.insert(key, value)[now[i].0] == now[i].1 by {
                text::lemma_sorting_is_an_order(key, key);
                if i < at {
                    assert(now[i] == before[i]);
                } else if i > at {
                    assert(now[i] == before[i - 1]);
                }
            }
        }
    }
}

/// The pairs whose key is not set yet, in order.
pub open spec fn unset(pairs: Seq<(Seq<char>, Seq<char>)>, set_already: Seq<bool>) -> Seq<
    (Seq<char>, Seq<char>),
>
    decreases pairs.len(),
{
    if pairs.len() == 0 {
        Seq::empty()
    } else {
        let before = unset(pairs.drop_last(), set_already);
        if set_already[pairs.len() - 1] {
            before
        } else {
            before.push(pairs.last())
        }
    }
}

/// What a list of borrowed pairs says.
pub open spec fn pairs_view(r: Seq<(&str, &str)>) -> Seq<(Seq<char>, Seq<char>)> {
    r.map_values(|p: (&str, &str)| (p.0@, p.1@))
}

/// Whether `answer` is an answer to whether the variable `key` is set.
pub open spec fn answered<F: Fn(&str) -> bool>(is_set: F, key: Seq<char>, answer: bool) -> bool {
    exists|k: &str| k@ == key && #[trigger] is_set.ensures((k,), answer)
}

/// The pairs to put into the environment: those whose key `is_set` says is not
/// set yet. A value that is set is never overridden, and no other key is asked
/// about.
pub fn keys_to_inject<'a, F: Fn(&str) -> bool>(creds: &'a Credentials, is_set: F) -> (r: Vec<
    (&'a str, &'a str),
>)
    requires
        forall|i: int, k: &str|
            #![trigger creds.pairs()[i], is_set.requires((k,))]
            0 <= i < creds.pairs().len() && k@ == creds.pairs()[i].0 ==> is_set.requires((k,)),
    ensures
        exists|answers: Seq<bool>|
            {
                &&& answers.len() == creds.pairs().len()
                &&& forall|i: int|
                    0 <= i < answers.len() ==> answered(
                        is_set,
                        creds.pairs()[i].0,
                        #[trigger] answers[i],
                    )
                &&& pairs_view(r@) == #[trigger] unset(creds.pairs(), answers)
            },
        ordered(pairs_view(r@)),
{
    proof {
        use_type_invariant(creds);
    }
    let mut out: Vec<(&'a str, &'a str)> = Vec::new();
    let ghost mut answers: Seq<bool> = Seq::empty();
    let ghost all = creds.pairs();
    let mut i: usize = 0;
    assert(all.take(0) =~= Seq::<(Seq<char>, Seq<char>)>::empty());
    assert(pairs_view(out@) =~= Seq::<(Seq<char>, Seq<char>)>::empty());
    while i < creds.env.len()
        invariant
            i <= creds.env@.len(),
            all == creds.pairs(),
            answers.len() == i,
            forall|j: int, k: &str|
                #![trigger all[j], is_set.requires((k,))]
                0 <= j < all.len() && k@ == all[j].0 ==> is_set.requires((k,)),
            forall|j: int|
                0 <= j < i ==> answered(is_set, all[j].0, #[trigger] answers[j]),
            pairs_view(out@) == unset(all.take(i as int), answers),
        decreases creds.env@.len() - i,
    {
        let (key, value) = &creds.env[i];
        let key_text: &'a str = key.as_str();
        let value_text: &'a str = value.as_str();
        assert(all[i as int] == (key@, value@));
        let already = is_set(key_text);
        let ghost before = pairs_view(out@);
        let ghost earlier = answers;
        proof {
            assert(answered(is_set, all[i as int].0, already));
            answers = answers.push(already);
            let now = all.take(i + 1);
            assert(now.drop_last() =~= all.take(i as int));
            assert(now.last() == (key@, value@));
            lemma_unset_prefix(all.take(i as int), earlier, answers);
        }
        if !already {
            out.push((key_text, value_text));
            assert(pairs_view(out@) =~= before.push((key@, value@)));
        }
        i = i + 1;
    }
    proof {
        assert(all.take(creds.env@.len() as int) =~= all);
        lemma_unset_is_ordered(all, answers);
    }
    out
}

proof fn lemma_unset_is_ordered(pairs: Seq<(Seq<char>, Seq<char>)>, set_already: Seq<bool>)
    requires
        ordered(pairs),
        pairs.len() <= set_already.len(),
    ensures
        ordered(unset(pairs, set_already)),
    decreases pairs.len(),
{
    if pairs.len() > 0 {
        let rest = pairs.drop_last();
        lemma_unset_is_ordered(rest, set_already);
        lemma_unset_within(rest, set_already);
        let before = unset(rest, set_already);
        let all = unset(pairs, set_already);
        assert forall|i: int, j: int| 0 <= i < j < all.len() implies text::sorts_before(
            (#[trigger] all[i]).0,
            (#[trigger] all[j]).0,
        ) by {
            assert(all[i] == before[i]);
            if j < before.len() {
                assert(all[j] == before[j]);
            } else {
                let k = choose|k: int| 0 <= k < rest.len() && rest[k] == before[i];
                assert(pairs[k] == all[i]);
                assert(pairs[pairs.len() - 1] == all[j]);
            }
        }
    }
}

proof fn lemma_unset_prefix(
    pairs: Seq<(Seq<char>, Seq<char>)>,
    a: Seq<bool>,
    b: Seq<bool>,
)
    requires
        pairs.len() <= a.len(),
        pairs.len() <= b.len(),
        forall|i: int| 0 <= i < pairs.len() ==> a[i] == b[i],
    ensures
        unset(pairs, a) == unset(pairs, b),
    decreases pairs.len(),
{
    if pairs.len() > 0 {
        lemma_unset_prefix(pairs.drop_last(), a, b);
    }
}

/// What is known of the credentials file before it is read.
#[derive(Debug, Clone, Copy, PartialEq, Eq, Structural)]
pub enum FileFacts {
    /// It does not exist.
    Missing,
    /// Its metadata cannot be read.
    Unreadable,
    /// It has this mode.
    Mode(u32),
}

/// What to do about the credentials file.
#[derive(Debug, Clone, Copy, PartialEq, Eq, Structural)]
pub enum LoadStep {
    /// Nothing: there is no file.
    Quiet,
    /// Warn that it cannot be read, and go on without it.
    WarnUnreadable,
    /// Warn that others can read it, and go on without it.
    WarnTooOpen,
    /// Read it.
    Read,
}

/// Decides what to do about the credentials file: it is read only where its
/// owner alone can get at it.
pub fn load_credentials_into_env(facts: FileFacts) -> (r: LoadStep)
    ensures
        r == (match facts {
            FileFacts::Missing => LoadStep::Quiet,
            FileFacts::Unreadable => LoadStep::WarnUnreadable,
            FileFacts::Mode(mode) => if mode & OPEN_BITS != 0 {
                LoadStep::WarnTooOpen
            } else {
                LoadStep::Read
            },
        }),
{
    match facts {
        FileFacts::Missing => LoadStep::Quiet,
        FileFacts::Unreadable => LoadStep::WarnUnreadable,
        FileFacts::Mode(mode) => if perms_too_open(mode) {
            LoadStep::WarnTooOpen
        } else {
            LoadStep::Read
        },
    }
}

/// What came of reading the credentials file.
#[derive(Debug)]
pub enum FileContents {
    /// It could not be read, or its text makes no sense.
    Unusable,
    /// It holds these values.
    Parsed(Credentials),
}

/// Whether a variable has a value that is not empty.
pub open spec fn has_value(env: Map<Seq<char>, String>, key: Seq<char>) -> bool {
    env.contains_key(key) && env[key]@.len() > 0
}

/// The pairs whose variable has no value or an empty one, in order.
pub open spec fn lacking(pairs: Seq<(Seq<char>, Seq<char>)>, env: Map<Seq<char>, String>) -> Seq<
    (Seq<char>, Seq<char>),
> {
    unset(pairs, Seq::new(pairs.len(), |i: int| has_value(env, pairs[i].0)))
}

/// The variables that a credentials file sets: none where the file is not read
/// or of no use, else those that have no value yet, or an empty one.
pub open spec fn variables(
    facts: FileFacts,
    contents: FileContents,
    env: Map<Seq<char>, String>,
) -> Seq<(Seq<char>, Seq<char>)> {
    match (facts, contents) {
        (FileFacts::Mode(mode), FileContents::Parsed(creds)) => if mode & OPEN_BITS != 0 {
            Seq::empty()
        } else {
            lacking(creds.pairs(), env)
        },
        _ => Seq::empty(),
    }
}

/// The variables to set, from what is known of the credentials file, what came of
/// reading it, and the variables that have a value.
pub fn variables_to_set<'a>(
    facts: FileFacts,
    contents: &'a FileContents,
    env: &Table<String>,
) -> (r: Vec<(&'a str, &'a str)>)
    requires
        env.wf(),
    ensures
        pairs_view(r@) == variables(facts, *contents, env@),
        ordered(pairs_view(r@)),
{
    if load_credentials_into_env(facts) == LoadStep::Read {
        match contents {
            FileContents::Parsed(creds) => {
                let is_set = |k: &str| -> (b: bool)
                    ensures
                        b == has_value(env@, k@),
                    {
                        match env.get(k) {
                            Some(value) => value.as_str().unicode_len() > 0,
                            None => false,
                        }
                    };
                let out = keys_to_inject(creds, is_set);
                proof {
                    let pairs = creds.pairs();
                    let answers = choose|answers: Seq<bool>|
                        {
                            &&& answers.len() == pairs.len()
                            &&& forall|i: int|
                                0 <= i < answers.len() ==> answered(
                                    is_set,
                                    pairs[i].0,
                                    #[trigger] answers[i],
                                )
                            &&& pairs_view(out@) == #[trigger] unset(pairs, answers)
                        };
                    assert(answers =~= Seq::new(
                        pairs.len(),
                        |i: int| has_value(env@, pairs[i].0),
                    ));
                }
                return out;
            },
            FileContents::Unusable => {},
        }
    }
    let none: Vec<(&'a str, &'a str)> = Vec::new();
    assert(pairs_view(none@) =~= Seq::<(Seq<char>, Seq<char>)>::empty());
    none
}

/// The environment wins: a variable that has a value is never set from the file,
/// and every other variable of a file that is read is.
pub proof fn law_environment_wins(
    pairs: Seq<(Seq<char>, Seq<char>)>,
    env: Map<Seq<char>, String>,
)
    requires
        ordered(pairs),
    ensures
        forall|i: int|
            0 <= i < pairs.len() ==> (lacking(pairs, env).contains(#[trigger] pairs[i]) <==> !has_value(
                env,
                pairs[i].0,
            )),
{
    assert forall|i: int, j: int| 0 <= i < j < pairs.len() implies pairs[i].0 != pairs[j].0 by {
        text::lemma_sorting_is_an_order(pairs[i].0, pairs[i].0);
    }
    lemma_unset_leaves_out_what_is_set(
        pairs,
        Seq::new(pairs.len(), |i: int| has_value(env, pairs[i].0)),
    );
}

proof fn lemma_unset_leaves_out_what_is_set(pairs: Seq<(Seq<char>, Seq<char>)>, set_already: Seq<bool>)
    requires
        pairs.len() <= set_already.len(),
        forall|i: int, j: int| 0 <= i < j < pairs.len() ==> pairs[i].0 != pairs[j].0,
    ensures
        forall|i: int|
            0 <= i < pairs.len() ==> (unset(pairs, set_already).contains(#[trigger] pairs[i])
                <==> !set_already[i]),
    decreases pairs.len(),
{
    if pairs.len() > 0 {
        let rest = pairs.drop_last();
        let before = unset(rest, set_already);
        let all = unset(pairs, set_already);
        lemma_unset_leaves_out_what_is_set(rest, set_already);
        lemma_unset_within(rest, set_already);
        assert forall|i: int| 0 <= i < pairs.len() implies (all.contains(#[trigger] pairs[i])
            <==> !set_already[i]) by {
            if i == pairs.len() - 1 {
                if !set_already[i] {
                    assert(all[all.len() - 1] == pairs[i]);
                } else if all.contains(pairs[i]) {
                    let k = choose|k: int| 0 <= k < all.len() && all[k] == pairs[i];
                    assert(before[k] == pairs[i]);
                    let j = choose|j: int| 0 <= j < rest.len() && rest[j] == before[k];
                    assert(pairs[j].0 != pairs[i].0);
                }
            } else {
                assert(rest[i] == pairs[i]);
                if all.contains(pairs[i]) && !before.contains(pairs[i]) {
                    let k = choose|k: int| 0 <= k < all.len() && all[k] == pairs[i];
                    if k < before.len() {
                        assert(before[k] == pairs[i]);
                    } else {
                        assert(pairs[i].0 != pairs[pairs.len() - 1].0);
                    }
                }
                if before.contains(pairs[i]) {
                    let k = choose|k: int| 0 <= k < before.len() && before[k] == pairs[i];
                    assert(all[k] == pairs[i]);
                }
            }
        }
    }
}

proof fn lemma_unset_within(pairs: Seq<(Seq<char>, Seq<char>)>, set_already: Seq<bool>)
    requires
        pairs.len() <= set_already.len(),
    ensures
        forall|k: int|
            0 <= k < unset(pairs, set_already).len() ==> pairs.contains(
                #[trigger] unset(pairs, set_already)[k],
            ),
    decreases pairs.len(),
{
    if pairs.len() > 0 {
        let rest = pairs.drop_last();
        lemma_unset_within(rest, set_already);
        let before = unset(rest, set_already);
        let all = unset(pairs, set_already);
        assert forall|k: int| 0 <= k < all.len() implies pairs.contains(#[trigger] all[k]) by {
            if k < before.len() {
                assert(all[k] == before[k]);
                let j = choose|j: int| 0 <= j < rest.len() && rest[j] == before[k];
                assert(pairs[j] == before[k]);
            } else {
                assert(pairs[pairs.len() - 1] == all[k]);
            }
        }
    }
}

/// The last pair of a key gives its value, and a key that no pair has is given
/// none.
pub proof fn law_last_pair_gives_the_value(pairs: Seq<(Seq<char>, Seq<char>)>, i: int)
    requires
        0 <= i < pairs.len(),
        forall|j: int| i < j < pairs.len() ==> (#[trigger] pairs[j]).0 != pairs[i].0,
    ensures
        table_of(pairs).contains_key(pairs[i].0),
        table_of(pairs)[pairs[i].0] == pairs[i].1,
        forall|k: Seq<char>| #[trigger]
            table_of(pairs).contains_key(k) ==> exists|j: int| keyed(pairs, j, k),
    decreases pairs.len(),
{
    lemma_table_keys(pairs);
    if i < pairs.len() - 1 {
        let rest = pairs.drop_last();
        assert forall|j: int| i < j < rest.len() implies (#[trigger] rest[j]).0 != rest[i].0 by {
            assert(rest[j] == pairs[j]);
        }
        law_last_pair_gives_the_value(rest, i);
        assert(pairs[pairs.len() - 1].0 != pairs[i].0);
    }
}

proof fn lemma_table_keys(pairs: Seq<(Seq<char>, Seq<char>)>)
    ensures
        forall|k: Seq<char>| #[trigger]
            table_of(pairs).contains_key(k) ==> exists|j: int| keyed(pairs, j, k),
    decreases pairs.len(),
{
    if pairs.len() > 0 {
        let rest = pairs.drop_last();
        lemma_table_keys(rest);
        assert forall|k: Seq<char>| #[trigger] table_of(pairs).contains_key(k) implies exists|
            j: int,
        | keyed(pairs, j, k) by {
            if k == pairs.last().0 {
                assert(keyed(pairs, pairs.len() - 1, k));
            } else {
                assert(table_of(rest).contains_key(k));
                let j = choose|j: int| keyed(rest, j, k);
                assert(keyed(pairs, j, k));
            }
        }
    }
}

proof fn lemma_unset_is_filtering(
    pairs: Seq<(Seq<char>, Seq<char>)>,
    flags: Seq<bool>,
    set: spec_fn(Seq<char>) -> bool,
)
    requires
        pairs.len() <= flags.len(),
        forall|i: int| 0 <= i < pairs.len() ==> flags[i] == set((#[trigger] pairs[i]).0),
    ensures
        unset(pairs, flags) == pairs.filter(|p: (Seq<char>, Seq<char>)| !set(p.0)),
    decreases pairs.len(),
{
    reveal(Seq::filter);
    if pairs.len() > 0 {
        let rest = pairs.drop_last();
        assert forall|i: int| 0 <= i < rest.len() implies flags[i] == set((#[trigger] rest[i]).0) by {
            assert(rest[i] == pairs[i]);
        }
        lemma_unset_is_filtering(rest, flags, set);
        assert(pairs[pairs.len() - 1] == pairs.last());
    }
}

/// A file that anyone but its owner can get at sets nothing, and neither does one
/// that is missing, unreadable or of no use; any other sets exactly its variables
/// that have no value or an empty one, in its order.
pub proof fn law_only_private_files_set_variables(
    facts: FileFacts,
    contents: FileContents,
    env: Map<Seq<char>, String>,
)
    ensures
        (match facts {
            FileFacts::Mode(mode) => mode % 64 != 0,
            _ => true,
        }) ==> variables(facts, contents, env).len() == 0,
        contents is Unusable ==> variables(facts, contents, env).len() == 0,
        (facts matches FileFacts::Mode(mode) && mode % 64 == 0) ==> (contents
            matches FileContents::Parsed(creds) ==> variables(facts, contents, env)
            == creds.pairs().filter(
            |p: (Seq<char>, Seq<char>)| !(env.contains_key(p.0) && env[p.0]@.len() > 0),
        )),
{
    match (facts, contents) {
        (FileFacts::Mode(mode), FileContents::Parsed(creds)) => {
            assert(mode & 0o077 == mode % 64) by (bit_vector);
            let pairs = creds.pairs();
            let set = |k: Seq<char>| has_value(env, k);
            lemma_unset_is_filtering(
                pairs,
                Seq::new(pairs.len(), |i: int| has_value(env, pairs[i].0)),
                set,
            );
            assert((|p: (Seq<char>, Seq<char>)| !set(p.0)) =~= (|p: (Seq<char>, Seq<char>)|
                !(env.contains_key(p.0) && env[p.0]@.len() > 0)));
        },
        (FileFacts::Mode(mode), _) => {
            assert(mode & 0o077 == mode % 64) by (bit_vector);
        },
        _ => {},
    }
}

/// An answer about a variable counts only where it was given about that variable.
pub proof fn law_answers_are_about_their_key<F: Fn(&str) -> bool>(
    is_set: F,
    key: Seq<char>,
    answer: bool,
)
    ensures
        answered(is_set, key, answer) <==> exists|k: &str|
            k@ == key && #[trigger] is_set.ensures((k,), answer),
{
}

} // verus!
