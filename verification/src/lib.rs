//! Request-observability middleware pipeline, modelled over plain values.
//!
//! Every inbound request is assigned a correlation identifier, wrapped in a
//! structured trace span recording method, path, status and latency, bounded
//! by a timeout, and routed to a handler or to a not-found fallback. The
//! modules here hold the decisions of that pipeline; the server glue that
//! performs I/O lives outside the library and hands it plain values: header
//! values, methods and paths arrive as their raw bytes.

pub mod correlation;
pub mod laws;
pub mod pipeline;
pub mod span;

use vstd::prelude::*;

verus! {

/// A byte a header value may hold and still be readable as a string:
/// visible ASCII or horizontal tab, so no control characters and no
/// newlines.
pub open spec fn valid_id_byte(b: u8) -> bool {
    b == 9 || (32 <= b && b <= 126)
}

/// A header value readable as a string: every byte visible ASCII or tab.
pub open spec fn readable_header_value(s: Seq<u8>) -> bool {
    forall|i: int| 0 <= i < s.len() ==> valid_id_byte(s[i])
}

/// A correlation identifier must be non-empty and representable as a single
/// readable HTTP header value.
pub open spec fn valid_correlation_id(s: Seq<u8>) -> bool {
    s.len() > 0 && readable_header_value(s)
}

/// Decides whether the raw bytes of a header value are readable as a string.
pub fn is_readable_header_value(s: &Vec<u8>) -> (r: bool)
    ensures
        r == readable_header_value(s@),
{
    let mut i: usize = 0;
    while i < s.len()
        invariant
            0 <= i <= s@.len(),
            forall|j: int| 0 <= j < i ==> valid_id_byte(s@[j]),
        decreases s@.len() - i,
    {
        let b = s[i];
        if !(b == 9 || (32 <= b && b <= 126)) {
            return false;
        }
        i = i + 1;
    }
    true
}

/// Decides whether `s` can serve as a correlation identifier.
pub fn is_valid_correlation_id(s: &Vec<u8>) -> (r: bool)
    ensures
        r == valid_correlation_id(s@),
{
    s.len() > 0 && is_readable_header_value(s)
}

} // verus!
