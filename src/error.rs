use vstd::prelude::*;

verus! {

/// What can go wrong in the timer's own logic.
#[derive(Clone, Debug, PartialEq, Eq)]
pub enum TimerError {
    /// No session carries the identifier asked for.
    SessionNotFound,
    /// A stop was asked for while no session is running.
    NoActiveTimer,
    /// A start was asked for while a session is already running.
    AlreadyRunning,
    /// Text that should hold an RFC 3339 timestamp does not; the parser's message.
    InvalidTimestamp(String),
    /// A timestamp names an instant outside the years that the store can hold.
    TimestampOutOfRange,
    /// The system clock reads a time outside the years that the store can hold.
    ClockOutOfRange,
    /// A count or a total of minutes does not fit in an `i64`.
    TotalOverflow,
}

/// The text shown to the user for each error.
pub open spec fn error_text(e: TimerError) -> Seq<char> {
    match e {
        TimerError::SessionNotFound => "Session not found"@,
        TimerError::NoActiveTimer => "No active timer found"@,
        TimerError::AlreadyRunning => "Timer is already running"@,
        TimerError::InvalidTimestamp(m) => m@,
        TimerError::TimestampOutOfRange => "Timestamp out of range"@,
        TimerError::ClockOutOfRange => "System clock out of range"@,
        TimerError::TotalOverflow => "Total out of range"@,
    }
}

impl TimerError {
    /// The message for this error, as the user sees it.
    pub fn message(&self) -> (r: String)
        ensures
            r@ == error_text(*self),
    {
        match self {
            TimerError::SessionNotFound => "Session not found".to_string(),
            TimerError::NoActiveTimer => "No active timer found".to_string(),
            TimerError::AlreadyRunning => "Timer is already running".to_string(),
            TimerError::InvalidTimestamp(m) => m.clone(),
            TimerError::TimestampOutOfRange => "Timestamp out of range".to_string(),
            TimerError::ClockOutOfRange => "System clock out of range".to_string(),
            TimerError::TotalOverflow => "Total out of range".to_string(),
        }
    }
}

} // verus!
