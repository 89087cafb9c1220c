use vstd::prelude::*;

verus! {

/// Nanoseconds in one minute.
pub const NANOS_PER_MINUTE: i64 = 60_000_000_000;

/// An instant in UTC, as a signed count of nanoseconds since 1970-01-01T00:00:00Z.
#[derive(Clone, Copy, Debug, PartialEq, Eq, Structural)]
pub struct Timestamp {
    pub nanos: i64,
}

/// Whole minutes from `start` to `end`, truncated toward zero; negative when `end`
/// comes first.
pub open spec fn minutes_between(end: Timestamp, start: Timestamp) -> int {
    let d = end.nanos - start.nanos;
    if d >= 0 {
        d / (NANOS_PER_MINUTE as int)
    } else {
        -((-d) / (NANOS_PER_MINUTE as int))
    }
}

/// What the text `s` denotes when read as an RFC 3339 timestamp: `None` when it is not
/// one, otherwise the instant as whole seconds since the epoch and the nanoseconds past
/// that second.
pub uninterp spec fn rfc3339_instant(s: Seq<char>) -> Option<(i64, u32)>;

/// Nanoseconds since the epoch of an instant given as seconds and nanoseconds past them.
pub open spec fn instant_nanos(p: (i64, u32)) -> int {
    p.0 * 1_000_000_000 + p.1
}

/// The minutes between two timestamps stay far inside `i64`.
pub proof fn lemma_minutes_between_bounds(end: Timestamp, start: Timestamp)
    ensures
        -0x1_0000_0000_0000 <= minutes_between(end, start) <= 0x1_0000_0000_0000,
        end.nanos <= start.nanos ==> minutes_between(end, start) <= 0,
        start.nanos - end.nanos >= NANOS_PER_MINUTE ==> minutes_between(end, start) < 0,
{
    let d = end.nanos - start.nanos;
    if d >= 0 {
        assert(d / (NANOS_PER_MINUTE as int) <= 0x1_0000_0000_0000) by (nonlinear_arith)
            requires 0 <= d <= 0x1_0000_0000_0000_0000;
    } else {
        assert((-d) / (NANOS_PER_MINUTE as int) <= 0x1_0000_0000_0000) by (nonlinear_arith)
            requires 0 < -d <= 0x1_0000_0000_0000_0000;
        assert(-d >= NANOS_PER_MINUTE ==> (-d) / (NANOS_PER_MINUTE as int) >= 1) by (nonlinear_arith)
            requires 0 < -d;
    }
}

impl Timestamp {
    /// The instant `nanos` nanoseconds after the epoch.
    pub fn from_nanos(nanos: i64) -> (r: Timestamp)
        ensures
            r.nanos == nanos,
    {
        Timestamp { nanos }
    }

    /// Whether `self` lies in the closed interval from `lo` to `hi`.
    pub fn within(&self, lo: &Timestamp, hi: &Timestamp) -> (r: bool)
        ensures
            r == (lo.nanos <= self.nanos && self.nanos <= hi.nanos),
    {
        lo.nanos <= self.nanos && self.nanos <= hi.nanos
    }
}

/// Relies on chrono's `DateTime::signed_duration_since` and `TimeDelta::num_minutes`:
/// the exact span from `start` to `end` in whole minutes, truncated toward zero.
/// `DateTime::from_timestamp_nanos` accepts every `i64`.
#[verifier::external_body]
pub(crate) fn minutes_since(end: Timestamp, start: Timestamp) -> (r: i64)
    ensures
        r == minutes_between(end, start),
{
    let e = chrono::DateTime::from_timestamp_nanos(end.nanos);
    let s = chrono::DateTime::from_timestamp_nanos(start.nanos);
    e.signed_duration_since(s).num_minutes()
}

/// Relies on chrono's `Utc::now` and `DateTime::timestamp_nanos_opt`: the current time,
/// or `None` where it has no `i64` count of nanoseconds. Nothing is promised of the value.
/// `Utc::now` panics when the system clock reads a time before 1970.
#[verifier::external_body]
pub(crate) fn current_time() -> (r: Option<Timestamp>) {
    chrono::Utc::now().timestamp_nanos_opt().map(Timestamp::from_nanos)
}

/// Relies on chrono's `DateTime::parse_from_rfc3339`, `DateTime::timestamp` and
/// `DateTime::timestamp_subsec_nanos`: the instant that the text names, as seconds since
/// the epoch and nanoseconds past them, or chrono's message when the text is not an
/// RFC 3339 timestamp. That message is never empty.
#[verifier::external_body]
pub(crate) fn read_rfc3339(s: &str) -> (r: Result<(i64, u32), String>)
    ensures
        r is Ok <==> rfc3339_instant(s@) is Some,
        r is Ok ==> rfc3339_instant(s@) == Some(r->Ok_0),
        r is Err ==> r->Err_0@.len() > 0,
{
    match chrono::DateTime::parse_from_rfc3339(s) {
        Ok(t) => Ok((t.timestamp(), t.timestamp_subsec_nanos())),
        Err(e) => Err(e.to_string()),
    }
}

} // verus!
