//! The per-request middleware pipeline as a state machine.
//!
//! One `Pipeline` value accompanies one request from ingress to the outbound
//! response: `Received` → `IdAssigned` → `SpanOpened` → `SpanClosed` →
//! `ResponseSent`. The step into `SpanClosed` takes the routed work's
//! outcome — the handler's (or fallback's) response, or a timeout — so the
//! two alternative paths of the design meet there. The caller performs the
//! I/O between steps and reads `observations` for the log sink.

use crate::correlation::{chosen_id, id_view, uuid_text, WithRequestId};
use crate::span::{Observation, RequestSpan};
use crate::valid_correlation_id;
use vstd::prelude::*;

verus! {

/// Upper bound on total handler execution, in seconds.
pub const TIMEOUT_SECS: u64 = 30;

/// Status of the fixed fallback response for an unmatched route.
pub const NOT_FOUND_STATUS: u16 = 404;

/// Status of the synthesized response for a timed-out handler.
pub const TIMEOUT_STATUS: u16 = 408;

/// Status of the demonstrative route handler's response.
pub const OK_STATUS: u16 = 200;

/// An outbound response, reduced to what the pipeline decides on: its
/// status, its correlation-id header if one is already set, and its body.
pub struct HttpResponse {
    pub status: u16,
    pub request_id: Option<Vec<u8>>,
    pub body: String,
}

/// How the routed work ended: a response was produced (by a matched handler
/// or by the fallback), or the timeout guard cancelled it.
pub enum Outcome {
    Completed { response: HttpResponse },
    TimedOut,
}

/// The status the pipeline records for an outcome: a produced response's own
/// status; the timeout status for cancelled work.
pub open spec fn outcome_status(o: Outcome) -> u16 {
    match o {
        Outcome::Completed { response } => response.status,
        Outcome::TimedOut => TIMEOUT_STATUS,
    }
}

/// The pipeline's position between ingress and the outbound response.
pub enum Phase {
    Received,
    IdAssigned,
    SpanOpened,
    SpanClosed,
    ResponseSent,
}

/// The per-request pipeline state. No value of this type outlives its
/// request; nothing here is shared across requests.
pub struct Pipeline {
    pub phase: Phase,
    pub method: Vec<u8>,
    pub path: Vec<u8>,
    /// The inbound correlation-id header value, if the request carried one.
    pub inbound_id: Option<Vec<u8>>,
    /// The identifier settled on at `IdAssigned`.
    pub correlation_id: Option<Vec<u8>>,
    /// The request's span, opened at `SpanOpened`.
    pub span: Option<RequestSpan>,
    /// The ledger of observations emitted so far, in emission order.
    pub observations: Vec<Observation>,
    /// The response awaiting propagation, present exactly at `SpanClosed`.
    pub response: Option<HttpResponse>,
}

impl Pipeline {
    /// The settled correlation identifier (meaningful from `IdAssigned` on).
    pub open spec fn cid(self) -> Seq<u8> {
        match self.correlation_id {
            Some(c) => c@,
            None => Seq::empty(),
        }
    }

    /// The inbound header value (meaningful only when one is present).
    pub open spec fn inbound_seq(self) -> Seq<u8> {
        match self.inbound_id {
            Some(v) => v@,
            None => Seq::empty(),
        }
    }

    /// Whether the request carried a reusable correlation identifier.
    pub open spec fn has_valid_inbound(self) -> bool {
        self.inbound_id is Some && valid_correlation_id(self.inbound_seq())
    }

    /// The settled identifier is valid, reuses a valid inbound value exactly,
    /// and is a freshly minted identifier otherwise.
    pub open spec fn id_ok(self) -> bool {
        &&& self.correlation_id is Some
        &&& valid_correlation_id(self.cid())
        &&& (self.has_valid_inbound() ==> self.cid() == self.inbound_seq())
        &&& (!self.has_valid_inbound() ==> uuid_text(self.cid()))
    }

    /// The span carries this request's identity.
    pub open spec fn span_fields_ok(self) -> bool {
        match self.span {
            Some(s) => s.correlation_id@ == self.cid() && s.method@ == self.method@ && s.path@
                == self.path@,
            None => false,
        }
    }

    /// The status recorded on the span (meaningful once the span is closed).
    pub open spec fn span_status(self) -> u16 {
        match self.span {
            Some(s) => match s.status_code {
                Some(st) => st,
                None => 0,
            },
            None => 0,
        }
    }

    /// The latency recorded on the span (meaningful once the span is closed).
    pub open spec fn span_latency(self) -> u64 {
        match self.span {
            Some(s) => match s.latency_ms {
                Some(l) => l,
                None => 0,
            },
            None => 0,
        }
    }

    /// The span's outcome fields have been recorded.
    pub open spec fn span_closed(self) -> bool {
        match self.span {
            Some(s) => s.is_closed(),
            None => false,
        }
    }

    /// The first observation is the entry observation, carrying the settled
    /// identifier, the method and the path.
    pub open spec fn obs_request_ok(self) -> bool {
        &&& self.observations@.len() >= 1
        &&& (self.observations@[0] matches Observation::OnRequest { request_id, method, path }
            && request_id@ == self.cid() && method@ == self.method@ && path@ == self.path@)
    }

    /// The second observation is the exit observation, carrying the settled
    /// identifier and exactly the status and latency recorded on the span.
    pub open spec fn obs_response_ok(self) -> bool {
        &&& self.observations@.len() == 2
        &&& (self.observations@[1] matches Observation::OnResponse {
            request_id,
            status_code,
            latency_ms,
        } && request_id@ == self.cid() && status_code == self.span_status() && latency_ms
            == self.span_latency())
    }

    /// The pending response reports the same status as the span records.
    pub open spec fn response_matches_span(self) -> bool {
        match self.response {
            Some(r) => r.status == self.span_status(),
            None => false,
        }
    }

    /// The pipeline's invariant, phase by phase. Every step establishes it
    /// and every step requires it.
    pub open spec fn wf(self) -> bool {
        match self.phase {
            Phase::Received => {
                &&& self.correlation_id is None
                &&& self.span is None
                &&& self.observations@.len() == 0
                &&& self.response is None
            },
            Phase::IdAssigned => {
                &&& self.id_ok()
                &&& self.span is None
                &&& self.observations@.len() == 0
                &&& self.response is None
            },
            Phase::SpanOpened => {
                &&& self.id_ok()
                &&& self.span_fields_ok()
                &&& (self.span matches Some(s) && s.is_open())
                &&& self.observations@.len() == 1
                &&& self.obs_request_ok()
                &&& self.response is None
            },
            Phase::SpanClosed => {
                &&& self.id_ok()
                &&& self.span_fields_ok()
                &&& self.span_closed()
                &&& self.obs_request_ok()
                &&& self.obs_response_ok()
                &&& self.response_matches_span()
            },
            Phase::ResponseSent => {
                &&& self.id_ok()
                &&& self.span_fields_ok()
                &&& self.span_closed()
                &&& self.obs_request_ok()
                &&& self.obs_response_ok()
                &&& self.response is None
            },
        }
    }

    /// Ingress: records the request's method, path and inbound
    /// correlation-id header value, before anything is decided.
    pub fn receive(method: Vec<u8>, path: Vec<u8>, inbound_id: Option<Vec<u8>>) -> (p: Pipeline)
        ensures
            p.wf(),
            p.phase is Received,
            p.method == method,
            p.path == path,
            p.inbound_id == inbound_id,
    {
        Pipeline {
            phase: Phase::Received,
            method,
            path,
            inbound_id,
            correlation_id: None,
            span: None,
            observations: Vec::new(),
            response: None,
        }
    }

    /// Settles the correlation identifier: a valid inbound value is reused
    /// verbatim; otherwise a fresh identifier is minted.
    pub fn assign_id(&mut self)
        requires
            old(self).phase is Received,
            old(self).wf(),
        ensures
            final(self).wf(),
            final(self).phase is IdAssigned,
            final(self).method == old(self).method,
            final(self).path == old(self).path,
            final(self).inbound_id == old(self).inbound_id,
            old(self).has_valid_inbound() ==> final(self).cid() == old(self).inbound_seq(),
            !old(self).has_valid_inbound() ==> uuid_text(final(self).cid()),
    {
        let provider = WithRequestId;
        let inbound: Option<&Vec<u8>> = match &self.inbound_id {
            Some(v) => Some(v),
            None => None,
        };
        let id = provider.make_request_id(inbound);
        self.correlation_id = Some(id);
        self.phase = Phase::IdAssigned;
    }

    /// Opens the request's span and emits the entry observation, strictly
    /// before any downstream work runs.
    pub fn open_span(&mut self)
        requires
            old(self).phase is IdAssigned,
            old(self).wf(),
        ensures
            final(self).wf(),
            final(self).phase is SpanOpened,
            final(self).method == old(self).method,
            final(self).path == old(self).path,
            final(self).inbound_id == old(self).inbound_id,
            final(self).correlation_id == old(self).correlation_id,
            final(self).observations@.len() == 1,
    {
        let cid = self.correlation_id_bytes();
        let cid_for_span = self.correlation_id_bytes();
        let method = self.method.clone();
        let path = self.path.clone();
        let method_for_span = self.method.clone();
        let path_for_span = self.path.clone();
        self.span = Some(RequestSpan::new(cid_for_span, method_for_span, path_for_span));
        self.observations.push(
            Observation::OnRequest { request_id: cid, method, path },
        );
        self.phase = Phase::SpanOpened;
    }

    /// Closes the span on the routed work's outcome: records the final
    /// status and latency onto the span, emits the exit observation, and
    /// stores the response to send — the outcome's own response, or the
    /// synthesized timeout response for cancelled work. The exit observation
    /// is emitted whatever the outcome was.
    pub fn close_span(&mut self, outcome: Outcome, latency_ms: u64)
        requires
            old(self).phase is SpanOpened,
            old(self).wf(),
        ensures
            final(self).wf(),
            final(self).phase is SpanClosed,
            final(self).method == old(self).method,
            final(self).path == old(self).path,
            final(self).inbound_id == old(self).inbound_id,
            final(self).correlation_id == old(self).correlation_id,
            final(self).observations@.len() == 2,
            final(self).observations@[0] == old(self).observations@[0],
            final(self).span_status() == outcome_status(outcome),
            final(self).span_latency() == latency_ms,
            (outcome matches Outcome::Completed { response } ==> final(self).response
                == Some(response)),
            (outcome is TimedOut ==> (final(self).response matches Some(r) && r.status
                == TIMEOUT_STATUS && r.request_id is None && r.body@ == timeout_body())),
    {
        let response = match outcome {
            Outcome::Completed { response } => response,
            Outcome::TimedOut => timeout_response(),
        };
        let status = response.status;
        let cid = self.correlation_id_bytes();
        let mut s = match self.span.take() {
            Some(s) => s,
            None => unreached(),
        };
        s.record_outcome(status, latency_ms);
        self.span = Some(s);
        self.observations.push(
            Observation::OnResponse { request_id: cid, status_code: status, latency_ms },
        );
        self.response = Some(response);
        self.phase = Phase::SpanClosed;
    }

    /// Sends the response: sets the correlation-id header to the settled
    /// identifier unless the downstream handler already set one — a value
    /// set downstream is never overwritten — and leaves the pipeline in its
    /// terminal phase. The returned response always carries the header.
    pub fn send_response(&mut self) -> (r: HttpResponse)
        requires
            old(self).phase is SpanClosed,
            old(self).wf(),
        ensures
            final(self).wf(),
            final(self).phase is ResponseSent,
            final(self).method == old(self).method,
            final(self).path == old(self).path,
            final(self).inbound_id == old(self).inbound_id,
            final(self).correlation_id == old(self).correlation_id,
            final(self).observations == old(self).observations,
            final(self).span == old(self).span,
            r.status == old(self).span_status(),
            (old(self).response matches Some(p) ==> r.body == p.body),
            (old(self).response matches Some(p) && p.request_id matches Some(v) ==> (r.request_id
                matches Some(w) && w@ == v@)),
            (old(self).response matches Some(p) && p.request_id is None ==> (r.request_id
                matches Some(w) && w@ == old(self).cid())),
    {
        let taken = self.response.take();
        let mut r = match taken {
            Some(p) => p,
            None => unreached(),
        };
        let already_set = match &r.request_id {
            Some(_) => true,
            None => false,
        };
        if !already_set {
            r.request_id = Some(self.correlation_id_bytes());
        }
        self.phase = Phase::ResponseSent;
        r
    }

    /// A copy of the settled correlation identifier's bytes.
    fn correlation_id_bytes(&self) -> (r: Vec<u8>)
        requires
            self.correlation_id is Some,
        ensures
            r@ == self.cid(),
    {
        match &self.correlation_id {
            Some(c) => c.clone(),
            None => unreached(),
        }
    }
}

/// Body of the fixed fallback response.
pub open spec fn not_found_body() -> Seq<char> {
    "Not Found"@
}

/// The FallbackHandler's response, returned exactly when no registered
/// route matches: a fixed not-found response with no side effects.
pub fn not_found_response() -> (r: HttpResponse)
    ensures
        r.status == NOT_FOUND_STATUS,
        r.request_id is None,
        r.body@ == not_found_body(),
{
    HttpResponse { status: NOT_FOUND_STATUS, request_id: None, body: "Not Found".to_owned() }
}

/// Body of the synthesized timeout response: empty.
pub open spec fn timeout_body() -> Seq<char> {
    ""@
}

/// The response synthesized when the timeout guard cancels in-flight work.
pub fn timeout_response() -> (r: HttpResponse)
    ensures
        r.status == TIMEOUT_STATUS,
        r.request_id is None,
        r.body@ == timeout_body(),
{
    HttpResponse { status: TIMEOUT_STATUS, request_id: None, body: "".to_owned() }
}

/// Body of the demonstrative route handler's response.
pub open spec fn home_body() -> Seq<char> {
    "<h1>Hello, World!</h1>"@
}

/// The demonstrative route handler's response: a fixed greeting page.
pub fn home_response() -> (r: HttpResponse)
    ensures
        r.status == OK_STATUS,
        r.request_id is None,
        r.body@ == home_body(),
{
    HttpResponse { status: OK_STATUS, request_id: None, body: "<h1>Hello, World!</h1>".to_owned() }
}

} // verus!
