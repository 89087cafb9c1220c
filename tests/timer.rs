use gktimer::commands::{export_work_sessions, parse_instant, parse_timestamp, request_between, start_timer, stop_timer};
use gktimer::database::{
    create_work_session, get_active_session, get_work_sessions_by_date_range, insert_session, update_work_session,
    WorkSessionStore,
};
use gktimer::error::TimerError;
use gktimer::models::{ExportRequest, WorkSession, WorkSessionCreate, WorkSessionUpdate};
use gktimer::timestamp::Timestamp;

fn at(text: &str) -> Timestamp {
    parse_timestamp(text).unwrap()
}

fn session(id: &str, start: &str, end: Option<&str>, duration: Option<i64>) -> WorkSession {
    WorkSession {
        id: id.to_string(),
        start_time: at(start),
        end_time: end.map(at),
        duration_minutes: duration,
        created_at: at(start),
    }
}

fn store_of(sessions: Vec<WorkSession>) -> WorkSessionStore {
    WorkSessionStore { sessions }
}

#[test]
fn parse_utc_timestamp() {
    assert_eq!(at("2024-01-01T00:00:00Z").nanos, 1_704_067_200_000_000_000);
    assert_eq!(at("2024-01-01T10:00:00Z").nanos, 1_704_103_200_000_000_000);
}

#[test]
fn parse_timestamp_with_offset() {
    assert_eq!(at("2024-01-01T12:00:00+02:00"), at("2024-01-01T10:00:00Z"));
    assert_eq!(at("1970-01-01T00:00:00.5Z").nanos, 500_000_000);
}

#[test]
fn parse_malformed_timestamp() {
    match parse_timestamp("2024-13-45 not a date") {
        Err(TimerError::InvalidTimestamp(m)) => assert!(!m.is_empty()),
        other => panic!("unexpected {:?}", other),
    }
}

#[test]
fn parse_timestamp_out_of_range() {
    assert_eq!(parse_timestamp("1500-01-01T00:00:00Z"), Err(TimerError::TimestampOutOfRange));
}

#[test]
fn duration_ninety_minutes() {
    let mut store = WorkSessionStore::new();
    let w = insert_session(&mut store, "a".to_string(), at("2024-01-01T10:00:00Z"), at("2024-01-01T10:00:00Z"));
    assert_eq!(w.end_time, None);
    let r = update_work_session(&mut store, "a", WorkSessionUpdate { end_time: at("2024-01-01T11:30:00Z") }).unwrap();
    assert_eq!(r.duration_minutes, Some(90));
    assert_eq!(r.end_time, Some(at("2024-01-01T11:30:00Z")));
    assert_eq!(store.sessions[0], r);
}

#[test]
fn duration_truncates_partial_minutes() {
    let mut store = store_of(vec![session("a", "2024-01-01T10:00:00Z", None, None)]);
    let r = update_work_session(&mut store, "a", WorkSessionUpdate { end_time: at("2024-01-01T10:01:59Z") }).unwrap();
    assert_eq!(r.duration_minutes, Some(1));
}

#[test]
fn negative_duration_is_stored() {
    let mut store = store_of(vec![session("a", "2024-01-01T10:00:00Z", None, None)]);
    let r = update_work_session(&mut store, "a", WorkSessionUpdate { end_time: at("2024-01-01T09:00:00Z") }).unwrap();
    assert_eq!(r.duration_minutes, Some(-60));
    let r = update_work_session(&mut store, "a", WorkSessionUpdate { end_time: at("2024-01-01T09:59:30Z") }).unwrap();
    assert_eq!(r.duration_minutes, Some(0));
    let r = update_work_session(&mut store, "a", WorkSessionUpdate { end_time: at("2024-01-01T09:58:30Z") }).unwrap();
    assert_eq!(r.duration_minutes, Some(-1));
}

#[test]
fn update_unknown_session() {
    let mut store = store_of(vec![session("a", "2024-01-01T10:00:00Z", None, None)]);
    let before = store.sessions.clone();
    let r = update_work_session(&mut store, "b", WorkSessionUpdate { end_time: at("2024-01-01T11:00:00Z") });
    assert_eq!(r, Err(TimerError::SessionNotFound));
    assert_eq!(store.sessions, before);
}

#[test]
fn update_closes_first_matching_id() {
    let mut store = store_of(vec![
        session("x", "2024-01-01T08:00:00Z", Some("2024-01-01T08:30:00Z"), Some(30)),
        session("a", "2024-01-01T10:00:00Z", None, None),
        session("a", "2024-01-01T12:00:00Z", None, None),
    ]);
    update_work_session(&mut store, "a", WorkSessionUpdate { end_time: at("2024-01-01T10:20:00Z") }).unwrap();
    assert_eq!(store.sessions[1].duration_minutes, Some(20));
    assert_eq!(store.sessions[2].end_time, None);
    assert_eq!(store.sessions[0].duration_minutes, Some(30));
}

#[test]
fn active_session_is_first_running() {
    let store = store_of(vec![
        session("a", "2024-01-01T08:00:00Z", Some("2024-01-01T09:00:00Z"), Some(60)),
        session("b", "2024-01-01T10:00:00Z", None, None),
        session("c", "2024-01-01T11:00:00Z", None, None),
    ]);
    assert_eq!(get_active_session(&store).unwrap().id, "b");
    assert_eq!(get_active_session(&WorkSessionStore::new()), None);
}

#[test]
fn create_appends_running_session() {
    let mut store = store_of(vec![session("a", "2024-01-01T08:00:00Z", Some("2024-01-01T09:00:00Z"), Some(60))]);
    let w = create_work_session(&mut store, WorkSessionCreate { start_time: at("2024-02-01T08:00:00Z") }).unwrap();
    assert_eq!(store.sessions.len(), 2);
    assert_eq!(store.sessions[1], w);
    assert_eq!(w.start_time, at("2024-02-01T08:00:00Z"));
    assert_eq!(w.end_time, None);
    assert_eq!(w.duration_minutes, None);
    assert_eq!(w.id.len(), 36);
    for (k, c) in w.id.chars().enumerate() {
        if k == 8 || k == 13 || k == 18 || k == 23 {
            assert_eq!(c, '-');
        } else {
            assert!(c.is_ascii_digit() || ('a'..='f').contains(&c));
        }
    }
    assert_eq!(w.id.as_bytes()[14], b'4');
    assert!(matches!(w.id.as_bytes()[19], b'8' | b'9' | b'a' | b'b'));
}

#[test]
fn created_ids_differ() {
    let mut store = WorkSessionStore::new();
    let a = create_work_session(&mut store, WorkSessionCreate { start_time: at("2024-02-01T08:00:00Z") }).unwrap();
    let b = create_work_session(&mut store, WorkSessionCreate { start_time: at("2024-02-01T08:00:00Z") }).unwrap();
    assert_ne!(a.id, b.id);
}

#[test]
fn start_twice_conflicts() {
    let mut store = WorkSessionStore::new();
    let first = start_timer(&mut store).unwrap();
    assert_eq!(first.end_time, None);
    assert_eq!(start_timer(&mut store), Err(TimerError::AlreadyRunning));
    assert_eq!(store.sessions.len(), 1);
    assert_eq!(store.sessions.iter().filter(|w| w.end_time.is_none()).count(), 1);
}

#[test]
fn stop_without_start() {
    let mut store = store_of(vec![session("a", "2024-01-01T08:00:00Z", Some("2024-01-01T09:00:00Z"), Some(60))]);
    let before = store.sessions.clone();
    assert_eq!(stop_timer(&mut store), Err(TimerError::NoActiveTimer));
    assert_eq!(store.sessions, before);
}

#[test]
fn start_then_stop() {
    let mut store = WorkSessionStore::new();
    let started = start_timer(&mut store).unwrap();
    let stopped = stop_timer(&mut store).unwrap();
    assert_eq!(stopped.id, started.id);
    assert!(stopped.end_time.is_some());
    assert_eq!(stopped.duration_minutes, Some(0));
    assert_eq!(get_active_session(&store), None);
    assert_eq!(stop_timer(&mut store), Err(TimerError::NoActiveTimer));
}

#[test]
fn range_bounds_are_inclusive() {
    let store = store_of(vec![
        session("before", "2024-01-14T23:59:59Z", None, None),
        session("lo", "2024-01-15T00:00:00Z", Some("2024-01-15T01:00:00Z"), Some(60)),
        session("hi", "2024-01-16T00:00:00Z", Some("2024-01-16T00:10:00Z"), Some(10)),
        session("after", "2024-01-16T00:00:01Z", Some("2024-01-16T02:00:00Z"), Some(120)),
    ]);
    let req = ExportRequest { start_date: at("2024-01-15T00:00:00Z"), end_date: at("2024-01-16T00:00:00Z") };
    let s = get_work_sessions_by_date_range(&store, req).unwrap();
    let ids: Vec<&str> = s.sessions.iter().map(|w| w.id.as_str()).collect();
    assert_eq!(ids, vec!["lo", "hi"]);
    assert_eq!(s.total_sessions, 2);
    assert_eq!(s.total_duration_minutes, 70);
}

#[test]
fn range_filters_on_start_only() {
    let store = store_of(vec![
        session("inside", "2024-01-15T23:00:00Z", Some("2024-01-17T00:00:00Z"), Some(1500)),
        session("outside", "2024-01-14T23:00:00Z", Some("2024-01-15T01:00:00Z"), Some(120)),
    ]);
    let req = ExportRequest { start_date: at("2024-01-15T00:00:00Z"), end_date: at("2024-01-16T00:00:00Z") };
    let s = get_work_sessions_by_date_range(&store, req).unwrap();
    assert_eq!(s.total_sessions, 1);
    assert_eq!(s.sessions[0].id, "inside");
    assert_eq!(s.total_duration_minutes, 1500);
}

#[test]
fn summary_fallback_computation() {
    let store = store_of(vec![
        session("partial", "2024-01-15T10:00:00Z", Some("2024-01-15T10:45:30Z"), None),
        session("running", "2024-01-15T11:00:00Z", None, None),
        session("stored", "2024-01-15T12:00:00Z", Some("2024-01-15T13:00:00Z"), Some(7)),
    ]);
    let req = ExportRequest { start_date: at("2024-01-15T00:00:00Z"), end_date: at("2024-01-16T00:00:00Z") };
    let s = get_work_sessions_by_date_range(&store, req).unwrap();
    assert_eq!(s.total_sessions, 3);
    assert_eq!(s.total_duration_minutes, 45 + 0 + 7);
    assert_eq!(s.sessions, store.sessions);
}

#[test]
fn summary_of_empty_store() {
    let req = ExportRequest { start_date: at("2024-01-15T00:00:00Z"), end_date: at("2024-01-16T00:00:00Z") };
    let s = get_work_sessions_by_date_range(&WorkSessionStore::new(), req).unwrap();
    assert_eq!(s.total_sessions, 0);
    assert_eq!(s.total_duration_minutes, 0);
    assert!(s.sessions.is_empty());
}

#[test]
fn summary_total_overflow() {
    let store = store_of(vec![
        session("a", "2024-01-15T10:00:00Z", None, Some(i64::MAX)),
        session("b", "2024-01-15T11:00:00Z", None, Some(1)),
    ]);
    let req = ExportRequest { start_date: at("2024-01-15T00:00:00Z"), end_date: at("2024-01-16T00:00:00Z") };
    assert_eq!(get_work_sessions_by_date_range(&store, req), Err(TimerError::TotalOverflow));
    let store = store_of(vec![
        session("a", "2024-01-15T10:00:00Z", None, Some(i64::MAX)),
        session("b", "2024-01-15T11:00:00Z", None, Some(1)),
        session("c", "2024-01-15T12:00:00Z", None, Some(-1)),
    ]);
    assert_eq!(get_work_sessions_by_date_range(&store, req).unwrap().total_duration_minutes, i64::MAX);
}

#[test]
fn export_parses_both_dates() {
    let store = store_of(vec![session("a", "2024-01-15T10:00:00Z", Some("2024-01-15T11:30:00Z"), Some(90))]);
    let s = export_work_sessions(&store, "2024-01-15T00:00:00Z", "2024-01-16T00:00:00+00:00").unwrap();
    assert_eq!(s.total_sessions, 1);
    assert_eq!(s.total_duration_minutes, 90);
}

#[test]
fn export_rejects_bad_dates() {
    let store = WorkSessionStore::new();
    assert!(matches!(export_work_sessions(&store, "yesterday", "2024-01-16T00:00:00Z"), Err(TimerError::InvalidTimestamp(_))));
    assert!(matches!(export_work_sessions(&store, "2024-01-15T00:00:00Z", "2024-01-16"), Err(TimerError::InvalidTimestamp(_))));
    match export_work_sessions(&store, "2024-01-15", "2024-01-16T00:00:00Z") {
        Err(TimerError::InvalidTimestamp(m)) => assert!(!m.is_empty()),
        other => panic!("unexpected {:?}", other),
    }
}

#[test]
fn export_accepts_far_dates() {
    let store = store_of(vec![
        session("a", "2024-01-15T10:00:00Z", Some("2024-01-15T11:30:00Z"), Some(90)),
        session("b", "1969-12-31T23:00:00Z", Some("1970-01-01T00:00:00Z"), Some(60)),
    ]);
    let s = export_work_sessions(&store, "1970-01-01T00:00:00Z", "9999-12-31T23:59:59Z").unwrap();
    assert_eq!(s.total_sessions, 1);
    assert_eq!(s.sessions[0].id, "a");
    assert_eq!(s.total_duration_minutes, 90);
    let s = export_work_sessions(&store, "0001-01-01T00:00:00Z", "9999-12-31T23:59:59Z").unwrap();
    assert_eq!(s.total_sessions, 2);
    assert_eq!(s.total_duration_minutes, 150);
    let s = export_work_sessions(&store, "3000-01-01T00:00:00Z", "9999-12-31T23:59:59Z").unwrap();
    assert_eq!(s.total_sessions, 0);
    let s = export_work_sessions(&store, "0001-01-01T00:00:00Z", "1500-01-01T00:00:00Z").unwrap();
    assert_eq!(s.total_sessions, 0);
}

#[test]
fn far_bounds_match_no_edge_session() {
    let edge = WorkSession {
        id: "edge".to_string(),
        start_time: Timestamp::from_nanos(i64::MAX),
        end_time: None,
        duration_minutes: None,
        created_at: Timestamp::from_nanos(i64::MAX),
    };
    let store = store_of(vec![edge]);
    let req = request_between(i64::MAX as i128 + 1, i64::MAX as i128 + 5);
    assert_eq!(get_work_sessions_by_date_range(&store, req).unwrap().total_sessions, 0);
    let req = request_between(0, i64::MAX as i128 + 5);
    assert_eq!(get_work_sessions_by_date_range(&store, req).unwrap().total_sessions, 1);
}

#[test]
fn parse_far_instant() {
    assert_eq!(parse_instant("9999-12-31T23:59:59Z").unwrap(), 253_402_300_799_000_000_000);
    assert_eq!(parse_instant("1500-01-01T00:00:00Z").unwrap(), -14_831_769_600_000_000_000);
    assert_eq!(parse_timestamp("3000-01-01T00:00:00Z"), Err(TimerError::TimestampOutOfRange));
}

#[test]
fn error_messages() {
    assert_eq!(TimerError::SessionNotFound.message(), "Session not found");
    assert_eq!(TimerError::NoActiveTimer.message(), "No active timer found");
    assert_eq!(TimerError::AlreadyRunning.message(), "Timer is already running");
    assert_eq!(TimerError::InvalidTimestamp("bad".to_string()).message(), "bad");
}
