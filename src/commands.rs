use vstd::prelude::*;

use crate::database::{
    active_count, close_session_at, closed, create_work_session, find_active, first_active_at, get_active_session,
    get_work_sessions_by_date_range, has_active, in_range, is_hyphenated_id, lemma_active_count, lemma_close_count,
    summary_of, WorkSessionStore,
};
use crate::error::TimerError;
use crate::models::{ExportRequest, WorkSession, WorkSessionCreate, WorkSessionSummary};
use crate::timestamp::{current_time, instant_nanos, read_rfc3339, rfc3339_instant, Timestamp};

verus! {

/// What a start leads to: a refusal when a session is running; otherwise one new running
/// session appended, or, when the clock cannot be read, an error and no change.
pub open spec fn started(s0: Seq<WorkSession>, s1: Seq<WorkSession>, r: Result<WorkSession, TimerError>) -> bool {
    if has_active(s0) {
        r == Err::<WorkSession, TimerError>(TimerError::AlreadyRunning) && s1 == s0
    } else {
        (r == Err::<WorkSession, TimerError>(TimerError::ClockOutOfRange) && s1 == s0) || (r is Ok
            && s1 == s0.push(r->Ok_0) && r->Ok_0.is_active() && r->Ok_0.duration_minutes is None
            && is_hyphenated_id(r->Ok_0.id@))
    }
}

/// What a stop leads to: a refusal when no session is running; otherwise the first
/// running session closed in place at some instant and returned, or, when the clock
/// cannot be read, an error and no change.
pub open spec fn stopped(s0: Seq<WorkSession>, s1: Seq<WorkSession>, r: Result<WorkSession, TimerError>) -> bool {
    if !has_active(s0) {
        r == Err::<WorkSession, TimerError>(TimerError::NoActiveTimer) && s1 == s0
    } else {
        (r == Err::<WorkSession, TimerError>(TimerError::ClockOutOfRange) && s1 == s0) || exists|i: int, end: Timestamp|
            first_active_at(s0, i) && r == Ok::<WorkSession, TimerError>(#[trigger] closed(s0[i], end))
                && s1 == s0.update(i, closed(s0[i], end))
    }
}

/// The instant that the text names, in nanoseconds since the epoch, when it is an
/// RFC 3339 timestamp.
pub open spec fn instant_of(s: Seq<char>) -> Option<int> {
    match rfc3339_instant(s) {
        Some(p) => Some(instant_nanos(p)),
        None => None,
    }
}

/// Whether `e` is the error for text that is not an RFC 3339 timestamp: the parser's
/// message, which is never empty.
pub open spec fn parse_error(e: TimerError) -> bool {
    e is InvalidTimestamp && e->InvalidTimestamp_0@.len() > 0
}

/// Whether `v` is a value of `i64`.
pub open spec fn in_i64(v: int) -> bool {
    i64::MIN <= v && v <= i64::MAX
}

/// `v` brought into the range of `i64`.
pub open spec fn clamp_i64(v: int) -> int {
    if v < i64::MIN {
        i64::MIN as int
    } else if v > i64::MAX {
        i64::MAX as int
    } else {
        v
    }
}

/// The request whose range holds a stored start time exactly when that start time lies
/// between `lo` and `hi` nanoseconds, both included, wherever `lo` and `hi` lie.
pub open spec fn request_for(lo: int, hi: int) -> ExportRequest {
    if lo > i64::MAX || hi < i64::MIN {
        ExportRequest { start_date: Timestamp { nanos: i64::MAX }, end_date: Timestamp { nanos: i64::MIN } }
    } else {
        ExportRequest {
            start_date: Timestamp { nanos: clamp_i64(lo) as i64 },
            end_date: Timestamp { nanos: clamp_i64(hi) as i64 },
        }
    }
}

/// Reads an RFC 3339 timestamp, with any offset, as nanoseconds since the epoch.
pub fn parse_instant(text: &str) -> (r: Result<i128, TimerError>)
    ensures
        instant_of(text@) is Some ==> r == Ok::<i128, TimerError>(instant_of(text@)->Some_0 as i128)
            && r->Ok_0 == instant_of(text@)->Some_0,
        instant_of(text@) is None ==> r is Err && parse_error(r->Err_0),
{
    match read_rfc3339(text) {
        Ok(p) => {
            let n: i128 = p.0 as i128 * 1_000_000_000i128 + p.1 as i128;
            Ok(n)
        },
        Err(m) => Err(TimerError::InvalidTimestamp(m)),
    }
}

/// Reads an RFC 3339 timestamp, with any offset, as an instant the store can hold.
pub fn parse_timestamp(text: &str) -> (r: Result<Timestamp, TimerError>)
    ensures
        instant_of(text@) is None ==> r is Err && parse_error(r->Err_0),
        instant_of(text@) is Some && in_i64(instant_of(text@)->Some_0) ==> r is Ok && r->Ok_0.nanos
            == instant_of(text@)->Some_0,
        instant_of(text@) is Some && !in_i64(instant_of(text@)->Some_0) ==> r == Err::<Timestamp, TimerError>(
            TimerError::TimestampOutOfRange,
        ),
{
    let n = match parse_instant(text) {
        Ok(n) => n,
        Err(e) => {
            return Err(e);
        },
    };
    if n < -0x8000_0000_0000_0000i128 || n > 0x7fff_ffff_ffff_ffffi128 {
        Err(TimerError::TimestampOutOfRange)
    } else {
        Ok(Timestamp::from_nanos(n as i64))
    }
}

/// The request for start times from `lo` to `hi` nanoseconds since the epoch, both
/// included; bounds beyond what the store can hold are brought in without changing which
/// stored sessions match.
pub fn request_between(lo: i128, hi: i128) -> (r: ExportRequest)
    ensures
        r == request_for(lo as int, hi as int),
{
    let max: i128 = 0x7fff_ffff_ffff_ffff;
    let min: i128 = -0x8000_0000_0000_0000;
    if lo > max || hi < min {
        return ExportRequest {
            start_date: Timestamp::from_nanos(0x7fff_ffff_ffff_ffff),
            end_date: Timestamp::from_nanos(-0x8000_0000_0000_0000),
        };
    }
    let a: i64 = if lo < min {
        -0x8000_0000_0000_0000
    } else {
        lo as i64
    };
    let b: i64 = if hi > max {
        0x7fff_ffff_ffff_ffff
    } else {
        hi as i64
    };
    ExportRequest { start_date: Timestamp::from_nanos(a), end_date: Timestamp::from_nanos(b) }
}

/// Starts a session now, unless one is already running.
pub fn start_timer(store: &mut WorkSessionStore) -> (r: Result<WorkSession, TimerError>)
    ensures
        started(old(store)@, final(store)@, r),
{
    if get_active_session(store).is_some() {
        return Err(TimerError::AlreadyRunning);
    }
    match current_time() {
        Some(now) => create_work_session(store, WorkSessionCreate { start_time: now }),
        None => Err(TimerError::ClockOutOfRange),
    }
}

/// Closes the running session now, if there is one.
pub fn stop_timer(store: &mut WorkSessionStore) -> (r: Result<WorkSession, TimerError>)
    ensures
        stopped(old(store)@, final(store)@, r),
{
    let i = match find_active(&store.sessions) {
        Some(i) => i,
        None => {
            return Err(TimerError::NoActiveTimer);
        },
    };
    match current_time() {
        Some(now) => {
            let done = close_session_at(store, i, now);
            assert(first_active_at(old(store)@, i as int) && Ok::<WorkSession, TimerError>(done) == Ok::<
                WorkSession,
                TimerError,
            >(closed(old(store)@[i as int], now)));
            Ok(done)
        },
        None => Err(TimerError::ClockOutOfRange),
    }
}

/// Summarises the sessions that start between two RFC 3339 timestamps, both included.
pub fn export_work_sessions(store: &WorkSessionStore, start_date: &str, end_date: &str) -> (r: Result<WorkSessionSummary, TimerError>)
    ensures
        instant_of(start_date@) is None ==> r is Err && parse_error(r->Err_0),
        instant_of(start_date@) is Some && instant_of(end_date@) is None ==> r is Err && parse_error(r->Err_0),
        instant_of(start_date@) is Some && instant_of(end_date@) is Some ==> summary_of(
            store@,
            request_for(instant_of(start_date@)->Some_0, instant_of(end_date@)->Some_0),
            r,
        ),
{
    let lo = match parse_instant(start_date) {
        Ok(n) => n,
        Err(e) => {
            return Err(e);
        },
    };
    let hi = match parse_instant(end_date) {
        Ok(n) => n,
        Err(e) => {
            return Err(e);
        },
    };
    get_work_sessions_by_date_range(store, request_between(lo, hi))
}

/// The request built from two bounds holds a session exactly when its start time lies
/// between them, both included, wherever the bounds lie; for bounds the store can hold,
/// it is the request of those two instants.
pub proof fn lemma_request_for(lo: int, hi: int, w: WorkSession)
    ensures
        in_range(w, request_for(lo, hi)) <==> lo <= w.start_time.nanos <= hi,
        in_i64(lo) && in_i64(hi) ==> request_for(lo, hi) == (ExportRequest {
            start_date: Timestamp { nanos: lo as i64 },
            end_date: Timestamp { nanos: hi as i64 },
        }),
{
}

/// Stopping right after a start that succeeded, from a store with no session running,
/// closes the session that the start made, and leaves none running.
pub proof fn lemma_stop_closes_started(
    s0: Seq<WorkSession>,
    s1: Seq<WorkSession>,
    s2: Seq<WorkSession>,
    r1: Result<WorkSession, TimerError>,
    r2: Result<WorkSession, TimerError>,
)
    requires
        !has_active(s0),
        started(s0, s1, r1),
        r1 is Ok,
        stopped(s1, s2, r2),
        r2 != Err::<WorkSession, TimerError>(TimerError::ClockOutOfRange),
    ensures
        r2 is Ok,
        r2->Ok_0.id == r1->Ok_0.id,
        r2->Ok_0.start_time == r1->Ok_0.start_time,
        r2->Ok_0.end_time is Some,
        s2.len() == s1.len(),
        !has_active(s2),
{
    let n = s0.len() as int;
    assert(s1[n] == r1->Ok_0);
    assert(has_active(s1));
    let (i, end) = choose|i: int, end: Timestamp|
        first_active_at(s1, i) && r2 == Ok::<WorkSession, TimerError>(#[trigger] closed(s1[i], end))
            && s2 == s1.update(i, closed(s1[i], end));
    if i < n {
        assert(s0[i] == s1[i]);
        assert(false);
    }
    assert(i == n);
    if has_active(s2) {
        let k = choose|k: int| 0 <= k < s2.len() && (#[trigger] s2[k]).is_active();
        if k < n {
            assert(s0[k] == s2[k]);
        }
    }
}

/// Starting twice with no stop between, where the first start did not fail on the clock
/// and at most one session was running before: the second start is refused and changes
/// nothing, and exactly one session is running afterwards.
pub proof fn lemma_second_start_refused(
    s0: Seq<WorkSession>,
    s1: Seq<WorkSession>,
    s2: Seq<WorkSession>,
    r1: Result<WorkSession, TimerError>,
    r2: Result<WorkSession, TimerError>,
)
    requires
        active_count(s0) <= 1,
        started(s0, s1, r1),
        r1 != Err::<WorkSession, TimerError>(TimerError::ClockOutOfRange),
        started(s1, s2, r2),
    ensures
        r2 == Err::<WorkSession, TimerError>(TimerError::AlreadyRunning),
        s2 == s1,
        active_count(s2) == 1,
{
    lemma_active_count(s0);
    if !has_active(s0) {
        let w = r1->Ok_0;
        assert(s1.drop_last() =~= s0);
        assert(s1[s1.len() - 1] == w);
    }
    lemma_active_count(s1);
}

/// Starting and stopping keep at most one session running.
pub proof fn lemma_one_running_kept(s0: Seq<WorkSession>, s1: Seq<WorkSession>, r: Result<WorkSession, TimerError>)
    requires
        active_count(s0) <= 1,
        started(s0, s1, r) || stopped(s0, s1, r),
    ensures
        active_count(s1) <= 1,
{
    lemma_active_count(s0);
    if started(s0, s1, r) && !has_active(s0) && r is Ok {
        assert(s1.drop_last() =~= s0);
    }
    if stopped(s0, s1, r) && has_active(s0) && r is Ok {
        let (i, end) = choose|i: int, end: Timestamp|
            first_active_at(s0, i) && r == Ok::<WorkSession, TimerError>(#[trigger] closed(s0[i], end))
                && s1 == s0.update(i, closed(s0[i], end));
        lemma_close_count(s0, i, closed(s0[i], end));
    }
}

/// Stopping while no session is running is refused and changes nothing.
pub proof fn lemma_stop_without_start(s0: Seq<WorkSession>, s1: Seq<WorkSession>, r: Result<WorkSession, TimerError>)
    requires
        !has_active(s0),
        stopped(s0, s1, r),
    ensures
        r == Err::<WorkSession, TimerError>(TimerError::NoActiveTimer),
        s1 == s0,
{
}

} // verus!
