//! The status of agent tasks and the error answer of the agent API.

use vstd::prelude::*;
use crate::text::owned;
use crate::api_keys::{is_uuid_v4_text};

verus! {

/// The current status of a task.
#[derive(Debug, Clone, Copy, PartialEq, Eq, Structural)]
pub enum TaskStatus {
    /// Task has been received but not yet started
    Pending,
    /// Task is currently being processed
    Running,
    /// Task has been completed successfully
    Completed,
    /// Task encountered an error
    Failed,
    /// Task was cancelled by the user or system
    Cancelled,
    /// Task timed out before completion
    TimedOut,
}

/// The text of a task status.
pub open spec fn spec_task_status_text(s: TaskStatus) -> Seq<char> {
    match s {
        TaskStatus::Pending => "pending"@,
        TaskStatus::Running => "running"@,
        TaskStatus::Completed => "completed"@,
        TaskStatus::Failed => "failed"@,
        TaskStatus::Cancelled => "cancelled"@,
        TaskStatus::TimedOut => "timed_out"@,
    }
}

impl TaskStatus {
    /// The text of the status.
    pub fn as_text(&self) -> (r: &'static str)
        ensures
            r@ == spec_task_status_text(*self),
    {
        match self {
            TaskStatus::Pending => "pending",
            TaskStatus::Running => "running",
            TaskStatus::Completed => "completed",
            TaskStatus::Failed => "failed",
            TaskStatus::Cancelled => "cancelled",
            TaskStatus::TimedOut => "timed_out",
        }
    }
}

/// An error answer of the agent API; `details` is JSON text.
#[derive(Debug, Clone)]
pub struct ApiError {
    /// Error code for programmatic handling
    pub code: String,
    /// Human-readable error message
    pub message: String,
    /// Optional detailed error information (JSON)
    pub details: Option<String>,
    /// HTTP status code associated with this error
    pub status_code: u16,
    /// Request ID for tracking this error
    pub request_id: String,
    /// Path that triggered the error
    pub path: String,
    /// When the error occurred, in milliseconds since the Unix epoch
    pub timestamp: u64,
}

impl ApiError {
    /// Create a new API error with a fresh request ID, stamped now, with no
    /// path and no details.
    pub fn new(code: &str, message: &str, status_code: u16) -> (r: Self)
        ensures
            r.code@ == code@,
            r.message@ == message@,
            r.details is None,
            r.status_code == status_code,
            is_uuid_v4_text(r.request_id@),
            r.path@ == Seq::<char>::empty(),
    {
        let now = crate::clock::unix_time_millis();
        let path = owned("");
        proof {
            reveal_strlit("");
        }
        ApiError {
            code: owned(code),
            message: owned(message),
            details: None,
            status_code,
            request_id: crate::api_keys::new_uuid_v4(),
            path,
            timestamp: now,
        }
    }

    /// Set the request path.
    pub fn with_path(self, path: &str) -> (r: Self)
        ensures
            r.path@ == path@,
            r.code == self.code && r.message == self.message && r.details == self.details,
            r.status_code == self.status_code && r.request_id == self.request_id && r.timestamp == self.timestamp,
    {
        ApiError { path: owned(path), ..self }
    }

    /// Add detailed error information (JSON text).
    pub fn with_details(self, details: String) -> (r: Self)
        ensures
            r.details == Some(details),
            r.code == self.code && r.message == self.message && r.path == self.path,
            r.status_code == self.status_code && r.request_id == self.request_id && r.timestamp == self.timestamp,
    {
        ApiError { details: Some(details), ..self }
    }

    /// Set the request ID.
    pub fn with_request_id(self, request_id: &str) -> (r: Self)
        ensures
            r.request_id@ == request_id@,
            r.code == self.code && r.message == self.message && r.details == self.details,
            r.status_code == self.status_code && r.path == self.path && r.timestamp == self.timestamp,
    {
        ApiError { request_id: owned(request_id), ..self }
    }
}

} // verus!
