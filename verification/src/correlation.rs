//! Correlation identifiers: minting, validation and the reuse decision.
//!
//! The provider reuses a valid inbound identifier verbatim and otherwise
//! mints a fresh one. A malformed or empty inbound value falls back to a
//! fresh identifier — the fixed recovery policy for this library; a request
//! is never failed over its correlation-id header.

use crate::{readable_header_value, valid_correlation_id, valid_id_byte};
use vstd::prelude::*;

verus! {

/// The textual shape of a freshly minted identifier: the hyphenated
/// rendering of a 128-bit identifier, 36 bytes of lowercase hexadecimal
/// digits with hyphens at positions 8, 13, 18 and 23.
pub open spec fn lower_hex_byte(b: u8) -> bool {
    (48 <= b && b <= 57) || (97 <= b && b <= 102)
}

/// Positions of the hyphens in the hyphenated rendering.
pub open spec fn uuid_hyphen_position(i: int) -> bool {
    i == 8 || i == 13 || i == 18 || i == 23
}

/// Bytes in the hyphenated textual form of a 128-bit identifier.
pub open spec fn uuid_text(s: Seq<u8>) -> bool {
    &&& s.len() == 36
    &&& forall|i: int|
        0 <= i < s.len() ==> (if uuid_hyphen_position(i) {
            s[i] == 45
        } else {
            lower_hex_byte(s[i])
        })
}

/// A minted identifier is a valid correlation identifier: it is non-empty
/// and all of its bytes are visible ASCII.
pub proof fn lemma_uuid_text_is_valid_id(s: Seq<u8>)
    requires
        uuid_text(s),
    ensures
        valid_correlation_id(s),
{
    assert forall|i: int| 0 <= i < s.len() implies valid_id_byte(s[i]) by {
        if uuid_hyphen_position(i) {
        } else {
            assert(lower_hex_byte(s[i]));
        }
    }
}

/// Relies on uuid::Uuid::new_v4 and its Display rendering: a fresh random
/// version-4 identifier, written in the hyphenated form — 36 bytes,
/// lowercase hexadecimal with hyphens at positions 8, 13, 18 and 23.
/// The value itself is random, so nothing more is stated of it.
#[verifier::external_body]
fn mint_request_id_bytes() -> (r: Vec<u8>)
    ensures
        uuid_text(r@),
{
    uuid::Uuid::new_v4().to_string().into_bytes()
}

/// The view of an optional borrowed header value.
pub open spec fn id_view(o: Option<&Vec<u8>>) -> Option<Seq<u8>> {
    match o {
        Some(v) => Some(v@),
        None => None,
    }
}

/// The identifier the provider settles on: a valid inbound identifier is
/// reused exactly; anything else — absent, empty or malformed — is replaced
/// by the fresh one.
pub open spec fn chosen_id(inbound: Option<Seq<u8>>, fresh: Seq<u8>) -> Seq<u8> {
    match inbound {
        Some(v) => if valid_correlation_id(v) {
            v
        } else {
            fresh
        },
        None => fresh,
    }
}

/// Settles the correlation identifier given the inbound header value and a
/// freshly minted identifier.
pub fn choose_request_id(inbound: Option<&Vec<u8>>, fresh: Vec<u8>) -> (r: Vec<u8>)
    requires
        valid_correlation_id(fresh@),
    ensures
        r@ == chosen_id(id_view(inbound), fresh@),
        valid_correlation_id(r@),
{
    match inbound {
        Some(v) => {
            if crate::is_valid_correlation_id(v) {
                v.clone()
            } else {
                fresh
            }
        },
        None => fresh,
    }
}

/// The CorrelationIdProvider: decides each request's identifier.
pub struct WithRequestId;

impl WithRequestId {
    /// Returns the correlation identifier for a request whose inbound
    /// correlation-id header value, if any, is `inbound`: a valid inbound
    /// value is reused verbatim, otherwise a fresh identifier is minted.
    pub fn make_request_id(&self, inbound: Option<&Vec<u8>>) -> (r: Vec<u8>)
        ensures
            valid_correlation_id(r@),
            match id_view(inbound) {
                Some(v) => if valid_correlation_id(v) {
                    r@ == v
                } else {
                    uuid_text(r@)
                },
                None => uuid_text(r@),
            },
    {
        let fresh = mint_request_id_bytes();
        proof {
            lemma_uuid_text_is_valid_id(fresh@);
        }
        choose_request_id(inbound, fresh)
    }
}

/// The placeholder identifier logged when a request or response carries no
/// readable correlation-id header.
pub open spec fn unknown_id() -> Seq<u8> {
    seq![117u8, 110u8, 107u8, 110u8, 111u8, 119u8, 110u8]
}

/// The identifier to log for a message whose correlation-id header value,
/// if any, is `value`: the readable value itself, or a fixed placeholder.
pub fn find_request_id(value: Option<&Vec<u8>>) -> (r: Vec<u8>)
    ensures
        match id_view(value) {
            Some(v) => if readable_header_value(v) {
                r@ == v
            } else {
                r@ == unknown_id()
            },
            None => r@ == unknown_id(),
        },
{
    match value {
        Some(v) => {
            if crate::is_readable_header_value(v) {
                v.clone()
            } else {
                vec![117u8, 110u8, 107u8, 110u8, 111u8, 119u8, 110u8]
            }
        },
        None => vec![117u8, 110u8, 107u8, 110u8, 111u8, 119u8, 110u8],
    }
}

} // verus!
