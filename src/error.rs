//! The library's errors and how callers should react to them.
use crate::text::{concat2, decimal, decimal_string};
use vstd::prelude::*;

verus! {

/// How the pipeline reacts to an error.
#[derive(Debug, Clone, Copy, PartialEq, Eq, Structural)]
pub enum ErrorSeverity {
    /// Treated as a miss or skipped; the operation goes on.
    Recoverable,
    /// May be attempted again.
    Retryable,
    /// Permanent for the item concerned.
    Fatal,
}

/// An error of the pipeline.
#[derive(Debug, Clone)]
pub enum PipelineError {
    Database(String),
    Serialization(String),
    Api { message: String, status_code: Option<u16> },
    RateLimit { retry_after: u64 },
    Cache(String),
    Validation(String),
    PythonInterop(String),
    Queue(String),
    Io(String),
    Configuration(String),
    Timeout { seconds: u64 },
    Quarantined { attempts: u32, reason: String },
}

/// The severity of an error: rate limits, timeouts, store and I/O errors and
/// provider errors other than 4xx (429 excepted) are retryable; validation,
/// configuration, quarantine and 4xx provider errors are fatal; the rest are
/// recoverable.
pub open spec fn severity_of(e: PipelineError) -> ErrorSeverity {
    match e {
        PipelineError::RateLimit { .. } => ErrorSeverity::Retryable,
        PipelineError::Api { status_code, .. } => match status_code {
            Some(c) => if c == 429 || c == 502 || c == 503 {
                ErrorSeverity::Retryable
            } else if 400 <= c && c <= 499 {
                ErrorSeverity::Fatal
            } else {
                ErrorSeverity::Retryable
            },
            None => ErrorSeverity::Retryable,
        },
        PipelineError::Timeout { .. } => ErrorSeverity::Retryable,
        PipelineError::Database(_) => ErrorSeverity::Retryable,
        PipelineError::Io(_) => ErrorSeverity::Retryable,
        PipelineError::Validation(_) => ErrorSeverity::Fatal,
        PipelineError::Configuration(_) => ErrorSeverity::Fatal,
        PipelineError::Quarantined { .. } => ErrorSeverity::Fatal,
        _ => ErrorSeverity::Recoverable,
    }
}

/// The human-readable message of an error.
pub open spec fn message_of(e: PipelineError) -> Seq<char> {
    match e {
        PipelineError::Database(m) => "Database error: "@ + m@,
        PipelineError::Serialization(m) => "Serialization error: "@ + m@,
        PipelineError::Api { message, .. } => "API error: "@ + message@,
        PipelineError::RateLimit { retry_after } => "Rate limit exceeded: retry after "@ + decimal(
            retry_after as nat,
        ) + " seconds"@,
        PipelineError::Cache(m) => "Cache error: "@ + m@,
        PipelineError::Validation(m) => "Validation error: "@ + m@,
        PipelineError::PythonInterop(m) => "Python interop error: "@ + m@,
        PipelineError::Queue(m) => "Queue error: "@ + m@,
        PipelineError::Io(m) => "IO error: "@ + m@,
        PipelineError::Configuration(m) => "Configuration error: "@ + m@,
        PipelineError::Timeout { seconds } => "Processing timeout after "@ + decimal(seconds as nat)
            + " seconds"@,
        PipelineError::Quarantined { attempts, reason } => "Item quarantined after "@ + decimal(
            attempts as nat,
        ) + " attempts: "@ + reason@,
    }
}

impl PipelineError {
    /// How the pipeline should react to this error.
    pub fn severity(&self) -> (r: ErrorSeverity)
        ensures
            r == severity_of(*self),
    {
        match self {
            PipelineError::RateLimit { .. } => ErrorSeverity::Retryable,
            PipelineError::Api { status_code, .. } => match status_code {
                Some(c) => if *c == 429 || *c == 502 || *c == 503 {
                    ErrorSeverity::Retryable
                } else if 400 <= *c && *c <= 499 {
                    ErrorSeverity::Fatal
                } else {
                    ErrorSeverity::Retryable
                },
                None => ErrorSeverity::Retryable,
            },
            PipelineError::Timeout { .. } => ErrorSeverity::Retryable,
            PipelineError::Database(_) => ErrorSeverity::Retryable,
            PipelineError::Io(_) => ErrorSeverity::Retryable,
            PipelineError::Validation(_) => ErrorSeverity::Fatal,
            PipelineError::Configuration(_) => ErrorSeverity::Fatal,
            PipelineError::Quarantined { .. } => ErrorSeverity::Fatal,
            _ => ErrorSeverity::Recoverable,
        }
    }

    /// Whether the failed operation may be attempted again.
    pub fn is_retryable(&self) -> (r: bool)
        ensures
            r == (severity_of(*self) == ErrorSeverity::Retryable),
    {
        let s = self.severity();
        s == ErrorSeverity::Retryable
    }

    /// The human-readable message of this error.
    pub fn message(&self) -> (r: String)
        ensures
            r@ == message_of(*self),
    {
        match self {
            PipelineError::Database(m) => concat2("Database error: ", m.as_str()),
            PipelineError::Serialization(m) => concat2("Serialization error: ", m.as_str()),
            PipelineError::Api { message, .. } => concat2("API error: ", message.as_str()),
            PipelineError::RateLimit { retry_after } => {
                let mut r = String::from_str("Rate limit exceeded: retry after ");
                r.append(decimal_string(*retry_after).as_str());
                r.append(" seconds");
                r
            },
            PipelineError::Cache(m) => concat2("Cache error: ", m.as_str()),
            PipelineError::Validation(m) => concat2("Validation error: ", m.as_str()),
            PipelineError::PythonInterop(m) => concat2("Python interop error: ", m.as_str()),
            PipelineError::Queue(m) => concat2("Queue error: ", m.as_str()),
            PipelineError::Io(m) => concat2("IO error: ", m.as_str()),
            PipelineError::Configuration(m) => concat2("Configuration error: ", m.as_str()),
            PipelineError::Timeout { seconds } => {
                let mut r = String::from_str("Processing timeout after ");
                r.append(decimal_string(*seconds).as_str());
                r.append(" seconds");
                r
            },
            PipelineError::Quarantined { attempts, reason } => {
                let mut r = String::from_str("Item quarantined after ");
                r.append(decimal_string(*attempts as u64).as_str());
                r.append(" attempts: ");
                r.append(reason.as_str());
                r
            },
        }
    }
}

} // verus!
