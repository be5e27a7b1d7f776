//! How long and how much: turn budgets, token and wall-clock ceilings, and the
//! watchdogs of driven sessions.

use crate::clock::{self, parse_timestamp, whole_units, MINUTE};
use crate::containment::{self, tightening_active, ContainmentRecipe};
use crate::json::{self, compact, put_int, put_text, Json};
use crate::payload::{self, failure_object};
use crate::resolve::ResolvedProfile;
use crate::roles::ResolvedRole;
use crate::task::TaskSpec;
use crate::text::{self, parse_u64, trim};
use vstd::prelude::*;

verus! {

/// The turn budget of an attempt whose task sets none.
pub const DEFAULT_TURN_BUDGET: u32 = 25;

/// The turn budget a task asks for: at least one turn, at most what a `u32`
/// can hold.
pub open spec fn asked_turns(turns: Option<i64>) -> int {
    match turns {
        Some(t) => if t < 1 {
            1
        } else if t > u32::MAX {
            u32::MAX as int
        } else {
            t as int
        },
        None => DEFAULT_TURN_BUDGET as int,
    }
}

/// The turn budget a task asks for.
pub fn requested_turns(spec: &TaskSpec) -> (r: u32)
    ensures
        r == asked_turns(spec.budget.turns),
        r >= 1,
{
    match spec.budget.turns {
        Some(t) => {
            if t < 1 {
                1
            } else if t > u32::MAX as i64 {
                u32::MAX
            } else {
                t as u32
            }
        },
        None => DEFAULT_TURN_BUDGET,
    }
}

/// The turn cap of an attempt: what the task asks for, or, where the task runs
/// tightened, `scaled` (that number times the profile's factor, rounded down)
/// but at least one. Never zero.
pub fn effective_turn_cap(
    rp: &ResolvedProfile,
    recipe: &ContainmentRecipe,
    role: &ResolvedRole,
    spec: &TaskSpec,
    scaled: u32,
) -> (r: u32)
    ensures
        r == (if containment::tightened(
            recipe.downgraded,
            rp.codex_tighten,
            role.kind.deep_view(),
        ) {
            containment::larger(scaled as int, 1)
        } else {
            asked_turns(spec.budget.turns)
        }),
        r >= 1,
{
    if tightening_active(rp, recipe, role) {
        if scaled >= 1 {
            scaled
        } else {
            1
        }
    } else {
        requested_turns(spec)
    }
}

/// The token ceiling of a task's whole life: the task's own where it sets one;
/// else, where an attempt has a token budget and the profile's factor is
/// positive, `scaled` (factor times budget times ladder length, rounded), but
/// never less than one attempt's budget; else none.
pub open spec fn token_ceiling(
    own: Option<i64>,
    per_attempt: Option<i64>,
    factor_positive: bool,
    scaled: i64,
) -> Option<i64> {
    match (own, per_attempt) {
        (Some(v), _) => Some(v),
        (None, Some(p)) if factor_positive => Some(containment::larger(scaled as int, p as int) as i64),
        _ => None,
    }
}

/// The token ceiling of a task's whole life.
pub fn derive_token_ceiling(spec: &TaskSpec, factor_positive: bool, scaled: i64) -> (r: Option<i64>)
    ensures
        r == token_ceiling(
            spec.lifetime_budget.tokens,
            spec.budget.tokens,
            factor_positive,
            scaled,
        ),
{
    match spec.lifetime_budget.tokens {
        Some(v) => Some(v),
        None => match spec.budget.tokens {
            Some(p) => if !factor_positive {
                None
            } else if scaled >= p {
                Some(scaled)
            } else {
                Some(p)
            },
            None => None,
        },
    }
}

/// The wall-clock ceiling of a task in minutes: its own, or the profile's.
pub fn wall_clock_ceiling(spec: &TaskSpec, rp: &ResolvedProfile) -> (r: i64)
    ensures
        r == (match spec.lifetime_budget.wall_clock_minutes {
            Some(m) => m,
            None => rp.lifetime.wall_clock_minutes,
        }),
{
    match spec.lifetime_budget.wall_clock_minutes {
        Some(m) => m,
        None => rp.lifetime.wall_clock_minutes,
    }
}

// ---------------------------------------------------------------------------
// Stopping at a ceiling
// ---------------------------------------------------------------------------

/// The fields that record a stop at the token ceiling.
pub open spec fn token_stop(tokens_in: int, tokens_out: int, ceiling: int) -> Map<
    Seq<char>,
    Json,
> {
    payload::failure("budget_exhausted"@, "task hit its lifetime token ceiling"@).insert(
        "reason"@,
        Json::Text("lifetime_tokens"@),
    ).insert("tokens_in"@, Json::Int(tokens_in)).insert("tokens_out"@, Json::Int(tokens_out)).insert(
        "ceiling"@,
        Json::Int(ceiling),
    )
}

/// The fields that record a stop at the wall-clock ceiling.
pub open spec fn clock_stop(elapsed_minutes: int, ceiling: int) -> Map<Seq<char>, Json> {
    payload::failure("budget_exhausted"@, "task hit its lifetime wall-clock ceiling"@).insert(
        "reason"@,
        Json::Text("lifetime_wall_clock"@),
    ).insert("elapsed_minutes"@, Json::Int(elapsed_minutes)).insert(
        "ceiling_minutes"@,
        Json::Int(ceiling),
    )
}

/// What stops a task at an attempt boundary: all its tokens against its token
/// ceiling first, then the whole minutes since its first spawn against its
/// wall-clock ceiling. Nothing stops it on the clock before it has spawned.
pub open spec fn budget_stop(
    ceiling: Option<i64>,
    tokens_in: i64,
    tokens_out: i64,
    minutes: i64,
    spawned: Option<i128>,
    now: i128,
) -> Option<Map<Seq<char>, Json>> {
    if ceiling matches Some(c) && tokens_in + tokens_out >= c {
        Some(token_stop(tokens_in as int, tokens_out as int, ceiling->0 as int))
    } else if spawned matches Some(at) && clock::whole(now - at, MINUTE as int) >= minutes {
        Some(clock_stop(clock::whole(now - spawned->0, MINUTE as int), minutes as int))
    } else {
        None
    }
}

/// Whether a task has hit a ceiling, given the instant of its first spawn; the
/// payload of its terminal event where it has.
pub fn budget_verdict(
    ceiling: Option<i64>,
    tokens_in: i64,
    tokens_out: i64,
    minutes: i64,
    spawned: Option<i128>,
    now: i128,
) -> (r: Option<String>)
    requires
        ceiling is Some ==> i64::MIN <= tokens_in + tokens_out <= i64::MAX,
        clock::on_calendar(now as int),
        spawned is Some ==> clock::on_calendar(spawned->0 as int),
    ensures
        r.deep_view() == (match budget_stop(
            ceiling,
            tokens_in,
            tokens_out,
            minutes,
            spawned,
            now,
        ) {
            Some(f) => Some(json::compact_text(f)),
            None => None,
        }),
{
    match ceiling {
        Some(c) => {
            if tokens_in + tokens_out >= c {
                let mut m = failure_object(
                    "budget_exhausted",
                    "task hit its lifetime token ceiling",
                );
                put_text(&mut m, "reason", "lifetime_tokens");
                put_int(&mut m, "tokens_in", tokens_in);
                put_int(&mut m, "tokens_out", tokens_out);
                put_int(&mut m, "ceiling", c);
                return Some(compact(m));
            }
        },
        None => {},
    }
    match spawned {
        Some(at) => {
            let elapsed: i64 = whole_units(at, now, MINUTE);
            if elapsed >= minutes {
                let mut m = failure_object(
                    "budget_exhausted",
                    "task hit its lifetime wall-clock ceiling",
                );
                put_text(&mut m, "reason", "lifetime_wall_clock");
                put_int(&mut m, "elapsed_minutes", elapsed);
                put_int(&mut m, "ceiling_minutes", minutes);
                return Some(compact(m));
            }
        },
        None => {},
    }
    None
}

/// The instant of the first spawn, where there was one and its timestamp can be
/// read.
pub open spec fn spawn_instant(first_spawn: Option<Seq<char>>) -> Option<i128> {
    match first_spawn {
        Some(ts) => clock::instant(ts),
        None => None,
    }
}

/// Whether a task has hit a ceiling, given the timestamp of its first spawn; the
/// payload of its terminal event where it has.
pub fn budget_exhausted(
    ceiling: Option<i64>,
    tokens_in: i64,
    tokens_out: i64,
    minutes: i64,
    first_spawn: Option<&str>,
    now: i128,
) -> (r: Option<String>)
    requires
        ceiling is Some ==> i64::MIN <= tokens_in + tokens_out <= i64::MAX,
        clock::on_calendar(now as int),
    ensures
        r.deep_view() == (match budget_stop(
            ceiling,
            tokens_in,
            tokens_out,
            minutes,
            spawn_instant(first_spawn.deep_view()),
            now,
        ) {
            Some(f) => Some(json::compact_text(f)),
            None => None,
        }),
{
    let spawned: Option<i128> = match first_spawn {
        Some(ts) => parse_timestamp(ts),
        None => None,
    };
    budget_verdict(ceiling, tokens_in, tokens_out, minutes, spawned, now)
}

// ---------------------------------------------------------------------------
// Watchdogs
// ---------------------------------------------------------------------------

/// The seconds an override asks for: a number, at least one. Anything that is
/// not a number is ignored.
pub open spec fn override_seconds(value: Option<Seq<char>>) -> Option<int> {
    match value {
        Some(v) => match text::spelled_u64(text::trimmed(v)) {
            Some(n) => Some(containment::larger(n as int, 1)),
            None => None,
        },
        None => None,
    }
}

fn read_override(value: Option<&str>) -> (r: Option<u64>)
    ensures
        match r {
            Some(n) => override_seconds(value.deep_view()) == Some(n as int),
            None => override_seconds(value.deep_view()) is None,
        },
{
    match value {
        Some(v) => match parse_u64(trim(v)) {
            Some(n) => if n >= 1 {
                Some(n)
            } else {
                Some(1)
            },
            None => None,
        },
        None => None,
    }
}

/// The watchdog of a driven session in seconds.
pub open spec fn watchdog_seconds(minutes: u32, seconds: Option<Seq<char>>) -> int {
    match override_seconds(seconds) {
        Some(s) => s,
        None => containment::larger(minutes as int, 1) * 60,
    }
}

/// The watchdog of a driven session in seconds: the override where it spells a
/// number, else the profile's minutes, at least one.
pub fn watchdog_duration(rp: &ResolvedProfile, override_value: Option<&str>) -> (r: u64)
    ensures
        r == watchdog_seconds(rp.watchdog_minutes, override_value.deep_view()),
{
    match read_override(override_value) {
        Some(s) => s,
        None => if rp.watchdog_minutes >= 1 {
            rp.watchdog_minutes as u64 * 60
        } else {
            60
        },
    }
}

/// The ceiling of a driven session's plan phase in seconds: the override where
/// it spells a number, else five watchdogs, at least five minutes.
pub fn plan_ceiling_duration(
    rp: &ResolvedProfile,
    plan_override: Option<&str>,
    watchdog_override: Option<&str>,
) -> (r: u64)
    requires
        override_seconds(plan_override.deep_view()) is Some || watchdog_seconds(
            rp.watchdog_minutes,
            watchdog_override.deep_view(),
        ) * 5 <= u64::MAX,
    ensures
        r == (match override_seconds(plan_override.deep_view()) {
            Some(s) => s,
            None => containment::larger(
                watchdog_seconds(rp.watchdog_minutes, watchdog_override.deep_view()) * 5,
                300,
            ),
        }),
{
    match read_override(plan_override) {
        Some(s) => s,
        None => {
            let ceiling: u64 = watchdog_duration(rp, watchdog_override) * 5;
            if ceiling >= 300 {
                ceiling
            } else {
                300
            }
        },
    }
}

/// The ceiling of a driven session's plan phase in seconds, where five watchdogs
/// can be counted or an override stands in for them.
pub fn checked_plan_ceiling(
    rp: &ResolvedProfile,
    plan_override: Option<&str>,
    watchdog_override: Option<&str>,
) -> (r: Option<u64>)
    ensures
        match r {
            Some(s) => s == (match override_seconds(plan_override.deep_view()) {
                Some(s) => s,
                None => containment::larger(
                    watchdog_seconds(rp.watchdog_minutes, watchdog_override.deep_view()) * 5,
                    300,
                ),
            }),
            None => override_seconds(plan_override.deep_view()) is None && watchdog_seconds(
                rp.watchdog_minutes,
                watchdog_override.deep_view(),
            ) * 5 > u64::MAX,
        },
{
    if read_override(plan_override).is_none() && watchdog_duration(rp, watchdog_override)
        > u64::MAX / 5 {
        return None;
    }
    Some(plan_ceiling_duration(rp, plan_override, watchdog_override))
}

// ---------------------------------------------------------------------------
// Laws
// ---------------------------------------------------------------------------

/// A derived token ceiling always leaves room for one attempt.
pub proof fn law_ceiling_allows_an_attempt(per_attempt: i64, scaled: i64)
    ensures
        token_ceiling(None, Some(per_attempt), true, scaled) matches Some(c) && c >= per_attempt,
{
}

/// A task that sets its own token ceiling has exactly that one.
pub proof fn law_own_ceiling_wins(own: i64, per_attempt: Option<i64>, positive: bool, scaled: i64)
    ensures
        token_ceiling(Some(own), per_attempt, positive, scaled) == Some(own),
{
}

/// Once a task has hit its token ceiling, spending more does not let it go on.
pub proof fn law_token_stop_is_final(
    ceiling: i64,
    a: (i64, i64),
    b: (i64, i64),
    minutes: i64,
    spawned: Option<i128>,
    now: i128,
)
    requires
        a.0 <= b.0,
        a.1 <= b.1,
        a.0 + a.1 >= ceiling,
    ensures
        budget_stop(Some(ceiling), b.0, b.1, minutes, spawned, now) is Some,
{
}

/// Once the clock has stopped a task, it stays stopped.
pub proof fn law_clock_stop_is_final(
    ceiling: Option<i64>,
    tokens: (i64, i64),
    minutes: i64,
    spawned: i128,
    now: i128,
    later: i128,
)
    requires
        now <= later,
        clock::whole(now - spawned, MINUTE as int) >= minutes,
    ensures
        budget_stop(ceiling, tokens.0, tokens.1, minutes, Some(spawned), later) is Some,
{
}

/// The plan ceiling is never below the watchdog where neither is overridden.
pub proof fn law_plan_outlasts_watchdog(minutes: u32)
    ensures
        containment::larger(watchdog_seconds(minutes, None) * 5, 300) >= watchdog_seconds(minutes, None),
{
}

/// The turns a task asks for are the ones it names, but at least one and no more
/// than can be counted; a task that names none gets the default.
pub proof fn law_turns_are_as_asked(turns: i64)
    ensures
        1 <= turns <= u32::MAX ==> asked_turns(Some(turns)) == turns,
        turns < 1 ==> asked_turns(Some(turns)) == 1,
        turns > u32::MAX ==> asked_turns(Some(turns)) == u32::MAX,
        asked_turns(None) == 25,
{
}

/// A derived token ceiling is the scaled one or one attempt's budget, whichever is
/// larger; without an attempt's budget, or with a factor that is not positive,
/// there is none.
pub proof fn law_derived_ceiling_is_the_larger(per_attempt: i64, scaled: i64, positive: bool)
    ensures
        scaled >= per_attempt ==> token_ceiling(None, Some(per_attempt), true, scaled) == Some(
            scaled,
        ),
        scaled <= per_attempt ==> token_ceiling(None, Some(per_attempt), true, scaled) == Some(
            per_attempt,
        ),
        token_ceiling(None, None, positive, scaled) is None,
        token_ceiling(None, Some(per_attempt), false, scaled) is None,
{
}

/// A task is stopped exactly where it has reached one of its ceilings: all its
/// tokens together its token ceiling, or the whole minutes since its first spawn
/// its wall-clock ceiling. Without a token ceiling tokens never stop it, and
/// before its first spawn the clock does not.
pub proof fn law_ceilings_stop_when_reached(
    ceiling: Option<i64>,
    tokens_in: i64,
    tokens_out: i64,
    minutes: i64,
    spawned: Option<i128>,
    now: i128,
)
    ensures
        budget_stop(ceiling, tokens_in, tokens_out, minutes, spawned, now) is Some <==> {
            ||| ceiling matches Some(c) && tokens_in + tokens_out >= c
            ||| spawned matches Some(at) && clock::whole(now - at, 60_000_000_000) >= minutes
        },
        ceiling matches Some(c) ==> (tokens_in + tokens_out >= c ==> budget_stop(
            ceiling,
            tokens_in,
            tokens_out,
            minutes,
            spawned,
            now,
        ) == Some(
            map![
                "kind"@ => Json::Text("budget_exhausted"@),
                "message"@ => Json::Text("task hit its lifetime token ceiling"@),
                "reason"@ => Json::Text("lifetime_tokens"@),
                "tokens_in"@ => Json::Int(tokens_in as int),
                "tokens_out"@ => Json::Int(tokens_out as int),
                "ceiling"@ => Json::Int(c as int),
            ],
        )),
        ceiling is None ==> (spawned matches Some(at) ==> (clock::whole(now - at, 60_000_000_000)
            >= minutes ==> budget_stop(ceiling, tokens_in, tokens_out, minutes, spawned, now)
            == Some(
            map![
                "kind"@ => Json::Text("budget_exhausted"@),
                "message"@ => Json::Text("task hit its lifetime wall-clock ceiling"@),
                "reason"@ => Json::Text("lifetime_wall_clock"@),
                "elapsed_minutes"@ => Json::Int(clock::whole(now - at, 60_000_000_000)),
                "ceiling_minutes"@ => Json::Int(minutes as int),
            ],
        ))),
{
    let c = ceiling->0 as int;
    assert(token_stop(tokens_in as int, tokens_out as int, c) =~= map![
        "kind"@ => Json::Text("budget_exhausted"@),
        "message"@ => Json::Text("task hit its lifetime token ceiling"@),
        "reason"@ => Json::Text("lifetime_tokens"@),
        "tokens_in"@ => Json::Int(tokens_in as int),
        "tokens_out"@ => Json::Int(tokens_out as int),
        "ceiling"@ => Json::Int(c),
    ]);
    let gone = clock::whole(now - spawned->0, 60_000_000_000);
    assert(clock_stop(gone, minutes as int) =~= map![
        "kind"@ => Json::Text("budget_exhausted"@),
        "message"@ => Json::Text("task hit its lifetime wall-clock ceiling"@),
        "reason"@ => Json::Text("lifetime_wall_clock"@),
        "elapsed_minutes"@ => Json::Int(gone),
        "ceiling_minutes"@ => Json::Int(minutes as int),
    ]);
}

/// An override that spells a number is taken at its word, but never as less than a
/// second; one that does not is ignored, and then the profile's minutes count,
/// never as less than one.
pub proof fn law_overrides_are_taken_at_their_word(value: Seq<char>, minutes: u32)
    ensures
        text::spelled_u64(text::trimmed(value)) matches Some(n) ==> {
            &&& n >= 1 ==> override_seconds(Some(value)) == Some(n as int)
            &&& n == 0 ==> override_seconds(Some(value)) == Some(1int)
            &&& n >= 1 ==> watchdog_seconds(minutes, Some(value)) == n
            &&& n == 0 ==> watchdog_seconds(minutes, Some(value)) == 1
        },
        text::spelled_u64(text::trimmed(value)) is None ==> override_seconds(Some(value)) is None
            && watchdog_seconds(minutes, Some(value)) == watchdog_seconds(minutes, None),
        override_seconds(None) is None,
        minutes >= 1 ==> watchdog_seconds(minutes, None) == minutes * 60,
        watchdog_seconds(0, None) == 60,
{
}

/// The instant of a first spawn is the one its timestamp stands for, where there
/// is one.
pub proof fn law_spawns_are_dated_by_their_timestamp(timestamp: Seq<char>)
    ensures
        spawn_instant(Some(timestamp)) == clock::instant(timestamp),
        spawn_instant(None) is None,
{
}

} // verus!
