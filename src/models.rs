use vstd::prelude::*;

use crate::timestamp::Timestamp;

verus! {

/// One timed interval of work.
#[derive(Clone, Debug, PartialEq, Eq)]
pub struct WorkSession {
    pub id: String,
    pub start_time: Timestamp,
    pub end_time: Option<Timestamp>,
    pub duration_minutes: Option<i64>,
    pub created_at: Timestamp,
}

/// What a new session is made from.
#[derive(Clone, Copy, Debug, PartialEq, Eq, Structural)]
pub struct WorkSessionCreate {
    pub start_time: Timestamp,
}

/// What closes a session.
#[derive(Clone, Copy, Debug, PartialEq, Eq, Structural)]
pub struct WorkSessionUpdate {
    pub end_time: Timestamp,
}

/// The sessions that started within a range, with their count and total minutes.
#[derive(Clone, Debug, PartialEq, Eq)]
pub struct WorkSessionSummary {
    pub total_sessions: i64,
    pub total_duration_minutes: i64,
    pub sessions: Vec<WorkSession>,
}

/// A closed range of start times.
#[derive(Clone, Copy, Debug, PartialEq, Eq, Structural)]
pub struct ExportRequest {
    pub start_date: Timestamp,
    pub end_date: Timestamp,
}

impl WorkSession {
    /// Whether the session is still running.
    pub open spec fn is_active(self) -> bool {
        self.end_time is None
    }

    /// A field-for-field copy.
    pub fn duplicate(&self) -> (r: WorkSession)
        ensures
            r == *self,
    {
        WorkSession {
            id: self.id.clone(),
            start_time: self.start_time,
            end_time: self.end_time,
            duration_minutes: self.duration_minutes,
            created_at: self.created_at,
        }
    }
}

} // verus!
