//! Request spans and the structured observations handed to the log sink.

use vstd::prelude::*;

verus! {

/// A structured record scoped to one request. Its outcome fields are unset
/// when the span is opened and are recorded exactly once, after the
/// downstream handler completes.
pub struct RequestSpan {
    pub correlation_id: Vec<u8>,
    pub method: Vec<u8>,
    pub path: Vec<u8>,
    pub status_code: Option<u16>,
    pub latency_ms: Option<u64>,
}

impl RequestSpan {
    /// A span as it is opened: outcome fields not yet recorded.
    pub open spec fn is_open(self) -> bool {
        self.status_code is None && self.latency_ms is None
    }

    /// A span whose outcome has been recorded.
    pub open spec fn is_closed(self) -> bool {
        self.status_code is Some && self.latency_ms is Some
    }

    /// Opens a span for one request.
    pub fn new(correlation_id: Vec<u8>, method: Vec<u8>, path: Vec<u8>) -> (s: Self)
        ensures
            s.correlation_id == correlation_id,
            s.method == method,
            s.path == path,
            s.is_open(),
    {
        RequestSpan { correlation_id, method, path, status_code: None, latency_ms: None }
    }

    /// Records the final status code and latency onto the span, exactly
    /// once: the span must still be open.
    pub fn record_outcome(&mut self, status_code: u16, latency_ms: u64)
        requires
            old(self).is_open(),
        ensures
            final(self).status_code == Some(status_code),
            final(self).latency_ms == Some(latency_ms),
            final(self).correlation_id == old(self).correlation_id,
            final(self).method == old(self).method,
            final(self).path == old(self).path,
    {
        self.status_code = Some(status_code);
        self.latency_ms = Some(latency_ms);
    }
}

/// One structured log line for the process-wide sink: the entry observation
/// carries the request's identity, the exit observation its outcome.
pub enum Observation {
    OnRequest { request_id: Vec<u8>, method: Vec<u8>, path: Vec<u8> },
    OnResponse { request_id: Vec<u8>, status_code: u16, latency_ms: u64 },
}

} // verus!
