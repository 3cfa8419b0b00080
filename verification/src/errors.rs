//! Correlated protocol error envelope answered for malformed known commands.

use crate::text::copy_string;
use vstd::prelude::*;

verus! {

/// Correlated protocol error for one malformed frame.
#[derive(Debug)]
pub struct ProtocolErrorEnvelope {
    /// Stable error code.
    pub code: String,
    /// Scrubbed human-readable detail.
    pub message: String,
    /// Correlation identifier of the rejected frame, when it carried one.
    pub request_id: Option<String>,
}

impl ProtocolErrorEnvelope {
    /// Builds one envelope.
    pub fn new(code: &str, message: &str, request_id: Option<String>) -> (r: Self)
        ensures
            r.code@ == code@,
            r.message@ == message@,
            r.request_id == request_id,
    {
        ProtocolErrorEnvelope { code: copy_string(code), message: copy_string(message), request_id }
    }
}

} // verus!
