//! Request tracing: the layer that wraps a service, and what is logged when
//! a request completes.

use vstd::prelude::*;

use crate::text::{decimal, decimal_string};

verus! {

/// Wraps services in `Trace`.
#[derive(Clone, Copy)]
pub struct TraceLayer;

/// A service whose requests are traced.
#[derive(Clone)]
pub struct Trace<S> {
    pub inner: S,
}

impl TraceLayer {
    /// Wraps `inner`, which keeps doing the work.
    pub fn layer<S>(&self, inner: S) -> (t: Trace<S>)
        ensures
            t.inner == inner,
    {
        Trace { inner }
    }
}

/// The levels at which request events are logged.
#[derive(Debug, Clone, Copy, PartialEq, Eq, Structural)]
pub enum LogLevel {
    Info,
    Error,
}

/// A status in the 5xx class, as `http::StatusCode::is_server_error` tells it.
pub open spec fn is_server_error(code: u16) -> bool {
    500 <= code < 600
}

/// What is logged when a request completes.
pub struct CompletionLog {
    pub level: LogLevel,
    pub message: String,
    /// `{micros}μs elapsed`.
    pub latency: String,
}

pub open spec fn latency_text(elapsed_micros: nat) -> Seq<char> {
    decimal(elapsed_micros) + "μs elapsed"@
}

/// Whether a completion is logged as a failure: the service failed, or it
/// answered with a server error.
pub open spec fn completion_failed(status: Option<u16>) -> bool {
    match status {
        Some(code) => is_server_error(code),
        None => true,
    }
}

/// A completion counts as failed exactly for a service failure and for the
/// statuses 500 to 599, both included.
pub proof fn failed_completions_are_the_5xx_class(status: Option<u16>)
    ensures
        completion_failed(status) <==> match status {
            Some(c) => 500 <= c <= 599,
            None => true,
        },
{
}

/// The log entry for a request that completed after `elapsed_micros`
/// microseconds, with the response's status code, or `None` where the
/// service itself failed: an error "response failed" for a failure or a
/// server error, else an info "finished processing request".
pub fn completion_log(status: Option<u16>, elapsed_micros: u128) -> (log: CompletionLog)
    ensures
        completion_failed(status) ==> log.level == LogLevel::Error && log.message@
            == "response failed"@,
        !completion_failed(status) ==> log.level == LogLevel::Info && log.message@
            == "finished processing request"@,
        log.latency@ == latency_text(elapsed_micros as nat),
        log.latency@ == decimal(elapsed_micros as nat) + "μs elapsed"@,
        match status {
            Some(c) => if 500 <= c <= 599 {
                log.level == LogLevel::Error && log.message@ == "response failed"@
            } else {
                log.level == LogLevel::Info && log.message@ == "finished processing request"@
            },
            None => log.level == LogLevel::Error && log.message@ == "response failed"@,
        },
{
    let failed = match status {
        Some(code) => 500 <= code && code < 600,
        None => true,
    };
    let mut latency = decimal_string(elapsed_micros);
    latency.append("μs elapsed");
    if failed {
        CompletionLog {
            level: LogLevel::Error,
            message: String::from_str("response failed"),
            latency,
        }
    } else {
        CompletionLog {
            level: LogLevel::Info,
            message: String::from_str("finished processing request"),
            latency,
        }
    }
}

} // verus!
