//! The pipeline's cross-cutting guarantees, stated and proved once.

use crate::correlation::{chosen_id, lemma_uuid_text_is_valid_id, uuid_text};
use crate::pipeline::{Phase, Pipeline};
use crate::span::Observation;
use crate::valid_correlation_id;
use vstd::prelude::*;

verus! {

/// Propagation is identity-preserving: whatever fresh identifier stood
/// ready, the provider settles on a valid inbound identifier exactly.
pub proof fn lemma_valid_inbound_id_reused(inbound: Seq<u8>, fresh: Seq<u8>)
    requires
        valid_correlation_id(inbound),
    ensures
        chosen_id(Some(inbound), fresh) == inbound,
{
}

/// Once a request's identifier is assigned, a valid inbound identifier is
/// the settled identifier — the value every later stage, the span, both
/// observations and the outbound header, carries.
pub proof fn lemma_inbound_id_propagated(p: Pipeline)
    requires
        p.wf(),
        !(p.phase is Received),
        p.has_valid_inbound(),
    ensures
        p.cid() == p.inbound_seq(),
{
}

/// A request without a reusable inbound identifier is settled on a freshly
/// minted identifier: a well-formed, non-empty token.
pub proof fn lemma_minted_id_well_formed(p: Pipeline)
    requires
        p.wf(),
        !(p.phase is Received),
        !p.has_valid_inbound(),
    ensures
        uuid_text(p.cid()),
        valid_correlation_id(p.cid()),
{
    lemma_uuid_text_is_valid_id(p.cid());
}

/// Once the span is closed, exactly one entry and one exit observation have
/// been emitted, in that order, both carrying the settled identifier.
pub proof fn lemma_observation_protocol(p: Pipeline)
    requires
        p.wf(),
        p.phase is SpanClosed || p.phase is ResponseSent,
    ensures
        p.observations@.len() == 2,
        p.observations@[0] is OnRequest,
        p.observations@[1] is OnResponse,
        (p.observations@[0] matches Observation::OnRequest { request_id, .. } && request_id@
            == p.cid()),
        (p.observations@[1] matches Observation::OnResponse { request_id, .. } && request_id@
            == p.cid()),
{
}

/// Whatever way the routed work ended — a handler's response, the fallback's
/// not-found response, or a timeout — the status of the response about to be
/// sent is the status recorded on the span and on the exit observation.
pub proof fn lemma_status_recorded(p: Pipeline)
    requires
        p.wf(),
        p.phase is SpanClosed,
    ensures
        p.response is Some,
        (p.response matches Some(r) ==> (p.span matches Some(s) && s.status_code == Some(
            r.status,
        ))),
        (p.response matches Some(r) ==> (p.observations@[1] matches Observation::OnResponse {
            status_code,
            ..
        } && status_code == r.status)),
{
}

} // verus!
