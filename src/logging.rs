//! Log records: every message is filed under the job it concerns, or under
//! the service itself.

use vstd::prelude::*;

verus! {

#[derive(Clone, Copy, Debug, PartialEq, Eq, Structural)]
pub enum LogLevel {
    Error,
    Warn,
    Info,
    Debug,
    Trace,
}

/// A message ready to be logged.
pub struct LogRecord {
    pub level: LogLevel,
    pub target: String,
    pub message: String,
}

/// The target a message is filed under: `job-<id>` for a job, the service's
/// name otherwise.
pub open spec fn log_target(job_id: Option<Seq<char>>) -> Seq<char> {
    match job_id {
        None => "gitmotion_api"@,
        Some(id) => "job-"@ + id,
    }
}

/// The record for `message` at `level`, concerning job `job_id` if given.
pub fn log_message(level: LogLevel, message: &str, job_id: Option<&str>) -> (r: LogRecord)
    ensures
        r.level == level,
        r.target@ == log_target(job_id.deep_view()),
        r.message@ == message@,
{
    let target = match job_id {
        None => String::from_str("gitmotion_api"),
        Some(id) => String::from_str("job-").concat(id),
    };
    LogRecord { level, target, message: String::from_str(message) }
}

} // verus!
