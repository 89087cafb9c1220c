use vstd::prelude::*;

use crate::error::TimerError;
use crate::models::{ExportRequest, WorkSession, WorkSessionCreate, WorkSessionSummary, WorkSessionUpdate};
use crate::timestamp::{current_time, lemma_minutes_between_bounds, minutes_between, minutes_since, Timestamp, NANOS_PER_MINUTE};

verus! {

/// All sessions, in the order they were created.
pub struct WorkSessionStore {
    pub sessions: Vec<WorkSession>,
}

impl View for WorkSessionStore {
    type V = Seq<WorkSession>;

    open spec fn view(&self) -> Seq<WorkSession> {
        self.sessions@
    }
}

/// Whether a session's start time falls in the request's closed range.
pub open spec fn in_range(w: WorkSession, req: ExportRequest) -> bool {
    req.start_date.nanos <= w.start_time.nanos && w.start_time.nanos <= req.end_date.nanos
}

/// The sessions of `ss` that start within the range, in their order.
pub open spec fn sessions_in_range(ss: Seq<WorkSession>, req: ExportRequest) -> Seq<WorkSession>
    decreases ss.len(),
{
    if ss.len() == 0 {
        ss
    } else {
        let rest = sessions_in_range(ss.drop_last(), req);
        if in_range(ss.last(), req) {
            rest.push(ss.last())
        } else {
            rest
        }
    }
}

/// What a session adds to a total: its stored duration, else the span to its end time,
/// else nothing.
pub open spec fn contribution(w: WorkSession) -> int {
    match w.duration_minutes {
        Some(d) => d as int,
        None => match w.end_time {
            Some(e) => minutes_between(e, w.start_time),
            None => 0,
        },
    }
}

/// The sum of the contributions of the sessions of `ss`.
pub open spec fn total_minutes(ss: Seq<WorkSession>) -> int
    decreases ss.len(),
{
    if ss.len() == 0 {
        0
    } else {
        total_minutes(ss.drop_last()) + contribution(ss.last())
    }
}

/// Whether `v` is a value of `i64`.
pub open spec fn fits_i64(v: int) -> bool {
    i64::MIN <= v && v <= i64::MAX
}

/// The summary of `ss` over `req`, when its count and total fit in `i64`.
pub open spec fn summary_of(ss: Seq<WorkSession>, req: ExportRequest, r: Result<WorkSessionSummary, TimerError>) -> bool {
    let m = sessions_in_range(ss, req);
    if fits_i64(m.len() as int) && fits_i64(total_minutes(m)) {
        r is Ok && r->Ok_0.sessions@ == m && r->Ok_0.total_sessions == m.len()
            && r->Ok_0.total_duration_minutes == total_minutes(m)
    } else {
        r == Err::<WorkSessionSummary, TimerError>(TimerError::TotalOverflow)
    }
}

/// How much a session's contribution can be, either way.
proof fn lemma_contribution_bound(w: WorkSession)
    ensures
        -0x8000_0000_0000_0000 <= contribution(w) <= 0x8000_0000_0000_0000,
{
}

/// The sessions that start within `request`'s range, in store order, with their count and
/// the sum of their contributions.
pub fn get_work_sessions_by_date_range(store: &WorkSessionStore, request: ExportRequest) -> (r: Result<WorkSessionSummary, TimerError>)
    ensures
        summary_of(store@, request, r),
{
    let mut out: Vec<WorkSession> = Vec::new();
    let mut total: i128 = 0;
    let mut i: usize = 0;
    while i < store.sessions.len()
        invariant
            i <= store@.len(),
            out@ == sessions_in_range(store@.take(i as int), request),
            total == total_minutes(out@),
            out@.len() <= i,
            -0x8000_0000_0000_0000 * (out@.len() as int) <= total <= 0x8000_0000_0000_0000 * (out@.len() as int),
        decreases store@.len() - i,
    {
        let w = &store.sessions[i];
        assert(store@.take(i + 1).drop_last() =~= store@.take(i as int));
        if w.start_time.within(&request.start_date, &request.end_date) {
            let add: i64 = match w.duration_minutes {
                Some(d) => d,
                None => match w.end_time {
                    Some(e) => minutes_since(e, w.start_time),
                    None => 0,
                },
            };
            proof {
                lemma_contribution_bound(*w);
            }
            let ghost before = out@;
            out.push(w.duplicate());
            assert(out@.drop_last() =~= before);
            total = total + add as i128;
        }
        i = i + 1;
    }
    assert(store@.take(i as int) =~= store@);
    if out.len() as u64 > 0x7fff_ffff_ffff_ffffu64 || total < -0x8000_0000_0000_0000i128
        || total > 0x7fff_ffff_ffff_ffffi128 {
        return Err(TimerError::TotalOverflow);
    }
    let n: i64 = out.len() as i64;
    Ok(WorkSessionSummary { total_sessions: n, total_duration_minutes: total as i64, sessions: out })
}


/// The session at `i` is the first in `ss` that is still running.
pub open spec fn first_active_at(ss: Seq<WorkSession>, i: int) -> bool {
    0 <= i < ss.len() && ss[i].is_active() && forall|j: int| 0 <= j < i ==> !(#[trigger] ss[j]).is_active()
}

/// Whether some session of `ss` is still running.
pub open spec fn has_active(ss: Seq<WorkSession>) -> bool {
    exists|i: int| 0 <= i < ss.len() && (#[trigger] ss[i]).is_active()
}

/// How many sessions of `ss` are still running.
pub open spec fn active_count(ss: Seq<WorkSession>) -> nat
    decreases ss.len(),
{
    if ss.len() == 0 {
        0
    } else {
        active_count(ss.drop_last()) + if ss.last().is_active() { 1nat } else { 0nat }
    }
}

/// The session at `i` is the first in `ss` with identifier `id`.
pub open spec fn first_with_id_at(ss: Seq<WorkSession>, id: Seq<char>, i: int) -> bool {
    0 <= i < ss.len() && ss[i].id@ == id && forall|j: int| 0 <= j < i ==> (#[trigger] ss[j]).id@ != id
}

/// Whether some session of `ss` has identifier `id`.
pub open spec fn has_id(ss: Seq<WorkSession>, id: Seq<char>) -> bool {
    exists|i: int| 0 <= i < ss.len() && (#[trigger] ss[i]).id@ == id
}

/// `w` closed at `end`: the end time set, and the whole minutes from its start stored.
pub open spec fn closed(w: WorkSession, end: Timestamp) -> WorkSession {
    WorkSession {
        id: w.id,
        start_time: w.start_time,
        end_time: Some(end),
        duration_minutes: Some(minutes_between(end, w.start_time) as i64),
        created_at: w.created_at,
    }
}

/// A running session that has just been made.
pub open spec fn fresh_session(id: String, start_time: Timestamp, created_at: Timestamp) -> WorkSession {
    WorkSession { id, start_time, end_time: None, duration_minutes: None, created_at }
}

/// What closing the first session with identifier `id` at `end` leads to: that session
/// closed in place and returned, or, when no session has the identifier, an error and no
/// change.
pub open spec fn updated(s0: Seq<WorkSession>, id: Seq<char>, end: Timestamp, s1: Seq<WorkSession>, r: Result<WorkSession, TimerError>) -> bool {
    if has_id(s0, id) {
        r is Ok && exists|i: int|
            first_with_id_at(s0, id, i) && r->Ok_0 == closed(s0[i], end) && s1 == s0.update(i, r->Ok_0)
    } else {
        r == Err::<WorkSession, TimerError>(TimerError::SessionNotFound) && s1 == s0
    }
}

/// Whether `s` is a random (version 4) 128-bit identifier in its hyphenated form: 36
/// characters, lower-case hexadecimal digits with a hyphen at 8, 13, 18 and 23, the
/// version digit `4` at 14 and one of `8`, `9`, `a`, `b` at 19.
pub open spec fn is_hyphenated_id(s: Seq<char>) -> bool {
    &&& s.len() == 36
    &&& forall|k: int|
        0 <= k < 36 ==> if k == 8 || k == 13 || k == 18 || k == 23 {
            s[k] == '-'
        } else {
            ('0' <= #[trigger] s[k] <= '9') || ('a' <= s[k] <= 'f')
        }
    &&& s[14] == '4'
    &&& (s[19] == '8' || s[19] == '9' || s[19] == 'a' || s[19] == 'b')
}

/// Relies on uuid's `Uuid::new_v4`, which sets the version and variant bits of a random
/// value, and its `Display`, which writes the hyphenated lower-case form. The rest of the
/// value is random; `new_v4` panics when the system's random source fails.
#[verifier::external_body]
fn new_session_id() -> (r: String)
    ensures
        is_hyphenated_id(r@),
{
    uuid::Uuid::new_v4().to_string()
}

/// The index of the first running session, if any.
pub(crate) fn find_active(ss: &Vec<WorkSession>) -> (r: Option<usize>)
    ensures
        r is None <==> !has_active(ss@),
        r is Some ==> first_active_at(ss@, r->Some_0 as int),
{
    let mut i: usize = 0;
    while i < ss.len()
        invariant
            i <= ss@.len(),
            forall|j: int| 0 <= j < i ==> !(#[trigger] ss@[j]).is_active(),
        decreases ss@.len() - i,
    {
        if ss[i].end_time.is_none() {
            return Some(i);
        }
        i = i + 1;
    }
    None
}

/// The index of the first session with identifier `id`, if any.
fn find_by_id(ss: &Vec<WorkSession>, id: &String) -> (r: Option<usize>)
    ensures
        r is None <==> !has_id(ss@, id@),
        r is Some ==> first_with_id_at(ss@, id@, r->Some_0 as int),
{
    let mut i: usize = 0;
    while i < ss.len()
        invariant
            i <= ss@.len(),
            forall|j: int| 0 <= j < i ==> (#[trigger] ss@[j]).id@ != id@,
        decreases ss@.len() - i,
    {
        if ss[i].id == *id {
            return Some(i);
        }
        i = i + 1;
    }
    None
}

impl WorkSessionStore {
    /// A store with no sessions.
    pub fn new() -> (r: WorkSessionStore)
        ensures
            r@ == Seq::<WorkSession>::empty(),
    {
        WorkSessionStore { sessions: Vec::new() }
    }
}

/// Appends a running session with the given identifier and times, and returns it.
pub fn insert_session(store: &mut WorkSessionStore, id: String, start_time: Timestamp, created_at: Timestamp) -> (r: WorkSession)
    ensures
        r == fresh_session(id, start_time, created_at),
        final(store)@ == old(store)@.push(r),
{
    let w = WorkSession { id, start_time, end_time: None, duration_minutes: None, created_at };
    store.sessions.push(w.duplicate());
    w
}

/// Appends a new running session that starts at the given time, under a fresh random
/// identifier and with the current time as its creation time.
pub fn create_work_session(store: &mut WorkSessionStore, session: WorkSessionCreate) -> (r: Result<WorkSession, TimerError>)
    ensures
        r is Err ==> r == Err::<WorkSession, TimerError>(TimerError::ClockOutOfRange) && final(store)@ == old(store)@,
        r is Ok ==> final(store)@ == old(store)@.push(r->Ok_0)
            && r->Ok_0 == fresh_session(r->Ok_0.id, session.start_time, r->Ok_0.created_at)
            && is_hyphenated_id(r->Ok_0.id@),
{
    let id = new_session_id();
    match current_time() {
        Some(now) => Ok(insert_session(store, id, session.start_time, now)),
        None => Err(TimerError::ClockOutOfRange),
    }
}

/// Closes the first session with identifier `id` at the update's end time, storing the
/// whole minutes since its start, and returns it; an error when no session has that
/// identifier.
pub fn update_work_session(store: &mut WorkSessionStore, id: &str, update: WorkSessionUpdate) -> (r: Result<WorkSession, TimerError>)
    ensures
        updated(old(store)@, id@, update.end_time, final(store)@, r),
{
    let key = id.to_owned();
    match find_by_id(&store.sessions, &key) {
        None => Err(TimerError::SessionNotFound),
        Some(i) => {
            let done = close_session_at(store, i, update.end_time);
            assert(first_with_id_at(old(store)@, id@, i as int));
            Ok(done)
        },
    }
}

/// Closes the session at `i` at `end`, storing the whole minutes since its start, and
/// returns it.
pub(crate) fn close_session_at(store: &mut WorkSessionStore, i: usize, end: Timestamp) -> (r: WorkSession)
    requires
        i < old(store)@.len(),
    ensures
        r == closed(old(store)@[i as int], end),
        final(store)@ == old(store)@.update(i as int, r),
{
    let w = &store.sessions[i];
    let duration = minutes_since(end, w.start_time);
    let done = WorkSession {
        id: w.id.clone(),
        start_time: w.start_time,
        end_time: Some(end),
        duration_minutes: Some(duration),
        created_at: w.created_at,
    };
    store.sessions.set(i, done.duplicate());
    done
}

/// The first session that is still running, if any.
pub fn get_active_session(store: &WorkSessionStore) -> (r: Option<WorkSession>)
    ensures
        r is None <==> !has_active(store@),
        r is Some ==> exists|i: int| first_active_at(store@, i) && r->Some_0 == store@[i],
{
    match find_active(&store.sessions) {
        None => None,
        Some(i) => Some(store.sessions[i].duplicate()),
    }
}

/// A store has a running session exactly when it counts one or more.
pub proof fn lemma_active_count(ss: Seq<WorkSession>)
    ensures
        has_active(ss) <==> active_count(ss) > 0,
    decreases ss.len(),
{
    if ss.len() > 0 {
        let rest = ss.drop_last();
        lemma_active_count(rest);
        if has_active(rest) {
            let i = choose|i: int| 0 <= i < rest.len() && (#[trigger] rest[i]).is_active();
            assert(ss[i] == rest[i]);
        }
        if has_active(ss) && !ss.last().is_active() {
            let i = choose|i: int| 0 <= i < ss.len() && (#[trigger] ss[i]).is_active();
            assert(rest[i] == ss[i]);
        }
    }
}

/// Putting a finished session in place of another never adds to the running count.
pub proof fn lemma_close_count(ss: Seq<WorkSession>, k: int, v: WorkSession)
    requires
        0 <= k < ss.len(),
        !v.is_active(),
    ensures
        active_count(ss.update(k, v)) <= active_count(ss),
    decreases ss.len(),
{
    let t = ss.update(k, v);
    if k == ss.len() - 1 {
        assert(t.drop_last() =~= ss.drop_last());
    } else {
        assert(t.drop_last() =~= ss.drop_last().update(k, v));
        lemma_close_count(ss.drop_last(), k, v);
    }
}

/// Closing a session at an instant that does not come after its start succeeds, with a
/// stored duration of zero or less; less than zero once the end lies a whole minute or
/// more before the start.
pub proof fn lemma_close_before_start(
    s0: Seq<WorkSession>,
    id: Seq<char>,
    i: int,
    end: Timestamp,
    s1: Seq<WorkSession>,
    r: Result<WorkSession, TimerError>,
)
    requires
        first_with_id_at(s0, id, i),
        end.nanos <= s0[i].start_time.nanos,
        updated(s0, id, end, s1, r),
    ensures
        r is Ok,
        r->Ok_0.end_time == Some(end),
        r->Ok_0.duration_minutes is Some,
        r->Ok_0.duration_minutes->Some_0 <= 0,
        s0[i].start_time.nanos - end.nanos >= NANOS_PER_MINUTE ==> r->Ok_0.duration_minutes->Some_0 < 0,
{
    assert(has_id(s0, id)) by {
        assert(s0[i].id@ == id);
    }
    let j = choose|j: int| first_with_id_at(s0, id, j) && r->Ok_0 == closed(s0[j], end) && s1 == s0.update(j, r->Ok_0);
    if j < i {
        assert(s0[j].id@ != id);
    } else if i < j {
        assert(s0[i].id@ != id);
    }
    lemma_minutes_between_bounds(end, s0[i].start_time);
}

/// A session is among those in range exactly when it is in the store and starts within
/// the range.
pub proof fn lemma_in_range_contains(ss: Seq<WorkSession>, req: ExportRequest, w: WorkSession)
    ensures
        sessions_in_range(ss, req).contains(w) <==> ss.contains(w) && in_range(w, req),
    decreases ss.len(),
{
    if ss.len() > 0 {
        let rest = ss.drop_last();
        lemma_in_range_contains(rest, req, w);
        if rest.contains(w) {
            let k = choose|k: int| 0 <= k < rest.len() && rest[k] == w;
            assert(ss[k] == w);
        }
        if ss.contains(w) && ss.last() != w {
            let k = choose|k: int| 0 <= k < ss.len() && ss[k] == w;
            assert(rest[k] == w);
        }
        if in_range(ss.last(), req) {
            let m = sessions_in_range(ss, req);
            assert(m.last() == ss.last());
            if sessions_in_range(rest, req).contains(w) {
                let k = choose|k: int| 0 <= k < sessions_in_range(rest, req).len() && sessions_in_range(rest, req)[k] == w;
                assert(m[k] == w);
            }
            if m.contains(w) && ss.last() != w {
                let k = choose|k: int| 0 <= k < m.len() && m[k] == w;
                assert(sessions_in_range(rest, req)[k] == w);
            }
        }
        if ss.last() == w {
            assert(ss[ss.len() - 1] == w);
        }
    }
}

/// Both bounds of a range are inclusive: a stored session that starts exactly at either
/// bound is in the summary, and one that starts a second before the range or a second
/// after it is not.
pub proof fn lemma_range_boundaries(
    ss: Seq<WorkSession>,
    req: ExportRequest,
    r: Result<WorkSessionSummary, TimerError>,
    w: WorkSession,
)
    requires
        summary_of(ss, req, r),
        r is Ok,
        ss.contains(w),
        req.start_date.nanos <= req.end_date.nanos,
    ensures
        w.start_time == req.start_date ==> r->Ok_0.sessions@.contains(w),
        w.start_time == req.end_date ==> r->Ok_0.sessions@.contains(w),
        w.start_time.nanos == req.start_date.nanos - 1_000_000_000 ==> !r->Ok_0.sessions@.contains(w),
        w.start_time.nanos == req.end_date.nanos + 1_000_000_000 ==> !r->Ok_0.sessions@.contains(w),
{
    lemma_in_range_contains(ss, req, w);
}

/// In a store of one session that starts within the range and has no stored duration, the
/// total is the whole minutes from its start to its end time where it has one, and zero
/// where it is still running.
pub proof fn lemma_summary_fallback(w: WorkSession, req: ExportRequest, r: Result<WorkSessionSummary, TimerError>)
    requires
        in_range(w, req),
        w.duration_minutes is None,
        summary_of(seq![w], req, r),
    ensures
        r is Ok,
        r->Ok_0.total_sessions == 1,
        r->Ok_0.total_duration_minutes == match w.end_time {
            Some(e) => minutes_between(e, w.start_time),
            None => 0,
        },
{
    let ss = seq![w];
    assert(ss.drop_last() =~= Seq::<WorkSession>::empty());
    assert(sessions_in_range(ss.drop_last(), req) == Seq::<WorkSession>::empty());
    let m = sessions_in_range(ss, req);
    assert(m =~= seq![w]);
    assert(m.drop_last() =~= Seq::<WorkSession>::empty());
    assert(total_minutes(m.drop_last()) == 0);
    if let Some(e) = w.end_time {
        lemma_minutes_between_bounds(e, w.start_time);
    }
}

} // verus!
