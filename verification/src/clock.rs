//! Instants and spans of time, in nanoseconds.

use time::format_description::well_known::Rfc3339;
use vstd::prelude::*;

verus! {

/// Whether an instant lies within the calendar that timestamps can name.
pub open spec fn on_calendar(nanos: int) -> bool {
    -1_000_000_000_000_000_000_000 < nanos < 1_000_000_000_000_000_000_000
}

/// The name for the instant that an RFC 3339 timestamp stands for, in
/// nanoseconds since the Unix epoch; nothing where the text is no timestamp.
pub uninterp spec fn instant(timestamp: Seq<char>) -> Option<i128>;

/// `time::OffsetDateTime::parse` with the RFC 3339 format, then
/// `unix_timestamp_nanos`: the instant of a timestamp, which depends on the text
/// alone and lies within the crate's calendar of four-digit years.
#[verifier::external_body]
pub(crate) fn parse_timestamp(timestamp: &str) -> (r: Option<i128>)
    ensures
        r == instant(timestamp@),
        r is Some ==> on_calendar(r->0 as int),
{
    time::OffsetDateTime::parse(timestamp, &Rfc3339).ok().map(|t| t.unix_timestamp_nanos())
}

/// `a` divided by `b`, rounded toward zero.
pub open spec fn whole(a: int, b: int) -> int {
    if a >= 0 {
        a / b
    } else {
        -((-a) / b)
    }
}

/// Nanoseconds in a second.
pub const SECOND: i128 = 1_000_000_000;

/// Nanoseconds in a minute.
pub const MINUTE: i128 = 60_000_000_000;

/// The second that an instant falls in, counted from the epoch.
pub fn unix_second(nanos: i128) -> (r: i64)
    requires
        on_calendar(nanos as int),
    ensures
        r == nanos as int / SECOND as int,
{
    if nanos >= 0 {
        (nanos / SECOND) as i64
    } else {
        let back: i128 = -nanos;
        let up: i128 = (back + (SECOND - 1)) / SECOND;
        proof {
            let n = nanos as int;
            let s = SECOND as int;
            assert(n / s == -((-n + (s - 1)) / s)) by (nonlinear_arith)
                requires
                    n < 0,
                    s == 1_000_000_000,
            ;
        }
        (-up) as i64
    }
}

/// The whole units of `unit` nanoseconds from `from` to `to`.
pub fn whole_units(from: i128, to: i128, unit: i128) -> (r: i64)
    requires
        on_calendar(from as int),
        on_calendar(to as int),
        unit == SECOND || unit == MINUTE,
    ensures
        r == whole(to - from, unit as int),
{
    let span: i128 = to - from;
    if span >= 0 {
        (span / unit) as i64
    } else {
        let back: i128 = -span;
        let units: i128 = back / unit;
        (-units) as i64
    }
}

// ---------------------------------------------------------------------------
// Laws
// ---------------------------------------------------------------------------

/// The whole units of a stretch of time never reach beyond it and leave less
/// than one unit over, whichever way the stretch runs.
pub proof fn law_whole_units_leave_less_than_one(span: int, unit: int)
    requires
        unit > 0,
    ensures
        span >= 0 ==> whole(span, unit) >= 0 && whole(span, unit) * unit <= span && span < (whole(
            span,
            unit,
        ) + 1) * unit,
        whole(-span, unit) == -whole(span, unit),
{
    if span >= 0 {
        assert(span / unit >= 0 && (span / unit) * unit <= span && span < (span / unit + 1) * unit)
            by (nonlinear_arith)
            requires
                span >= 0,
                unit > 0,
        ;
    }
    assert(0int / unit == 0) by (nonlinear_arith)
        requires
            unit > 0,
    ;
}

} // verus!
