//! Logic of the HTTP-transport backend.
//!
//! The backend polls a REST endpoint with an accept/reject finish
//! handshake: a finish call answered `202` means no request is ready
//! yet and the call is retried; `200` carries a JSON request envelope
//! whose byte fields are `0x`-prefixed hexadecimal strings; any other
//! status is a protocol error. The session captures the rollups
//! contract address from the first request (epoch `0`, input `0`) as a
//! handshake, then accepts or rejects based on the handler's outcome.
//!
//! The HTTP round trips themselves stay with the caller; everything
//! here interprets status codes and already-parsed envelope fields.

use crate::codec;
use crate::linux::spec_payload_decodes;
use vstd::prelude::*;

verus! {

/// Status code meaning no request is pending yet: retry the finish.
pub const STATUS_ACCEPTED: u16 = 202;

/// Status code meaning the response body carries a request envelope.
pub const STATUS_OK: u16 = 200;

/// The tag of a request envelope: authoritative for dispatch.
#[derive(Debug, Clone, Copy, PartialEq, Eq, Structural)]
pub enum RequestType {
    AdvanceState,
    InspectState,
}

/// Metadata nested in a request envelope.
#[derive(Debug, Clone, PartialEq, Eq)]
pub struct RollupsMetadata {
    pub msg_sender: String,
    pub epoch_index: u64,
    pub input_index: u64,
    pub block_number: u64,
    pub timestamp: u64,
}

/// The data of a request envelope: metadata and the `0x`-prefixed
/// hexadecimal payload string.
#[derive(Debug, Clone, PartialEq, Eq)]
pub struct RollupsMessage {
    pub metadata: RollupsMetadata,
    pub payload: String,
}

/// Request sent from the rollups server over the HTTP transport,
/// decoded from its JSON envelope.
#[derive(Debug, Clone, PartialEq, Eq)]
pub struct RollupsRequest {
    pub request_type: RequestType,
    pub data: RollupsMessage,
}

/// The plain fields of a request envelope as the transport parsed
/// them, before the closed-variant decode.
#[derive(Debug, Clone, PartialEq, Eq)]
pub struct Envelope {
    /// The raw discriminant string.
    pub request_type: String,
    pub msg_sender: String,
    pub epoch_index: u64,
    pub input_index: u64,
    pub block_number: u64,
    pub timestamp: u64,
    /// The `0x`-prefixed hexadecimal payload string.
    pub payload: String,
}

/// Error decoding a request envelope.
#[derive(Debug, Clone, Copy, PartialEq, Eq, Structural)]
pub enum EnvelopeError {
    /// The discriminant is neither `advance_state` nor `inspect_state`.
    UnknownRequestType,
    /// The payload string is not well-formed hexadecimal.
    MalformedPayload,
}

/// The request type a discriminant string names, if any.
pub open spec fn spec_parse_request_type(s: Seq<char>) -> Option<RequestType> {
    if s == "advance_state"@ {
        Some(RequestType::AdvanceState)
    } else if s == "inspect_state"@ {
        Some(RequestType::InspectState)
    } else {
        None
    }
}

/// Whether an envelope decodes: a known discriminant and a well-formed
/// hexadecimal payload.
pub open spec fn spec_envelope_decodes(env: Envelope) -> bool {
    spec_parse_request_type(env.request_type@) is Some && spec_payload_decodes(env.payload@)
}

/// Whether `req` is the decoding of `env`, field for field.
pub open spec fn spec_matches_envelope(req: RollupsRequest, env: Envelope) -> bool {
    &&& Some(req.request_type) == spec_parse_request_type(env.request_type@)
    &&& req.data.metadata.msg_sender@ == env.msg_sender@
    &&& req.data.metadata.epoch_index == env.epoch_index
    &&& req.data.metadata.input_index == env.input_index
    &&& req.data.metadata.block_number == env.block_number
    &&& req.data.metadata.timestamp == env.timestamp
    &&& req.data.payload@ == env.payload@
}

/// Everything [`decode_envelope`] promises of its result for `env`.
pub open spec fn spec_decode_post(r: Result<RollupsRequest, EnvelopeError>, env: Envelope) -> bool {
    match r {
        Ok(req) => spec_envelope_decodes(env) && spec_matches_envelope(req, env),
        Err(EnvelopeError::UnknownRequestType) => spec_parse_request_type(env.request_type@)
            is None,
        Err(EnvelopeError::MalformedPayload) => spec_parse_request_type(env.request_type@) is Some
            && !spec_payload_decodes(env.payload@),
    }
}

/// Decodes the discriminant string through a single exhaustive match,
/// rejecting unknown discriminants as a decode error.
pub fn parse_request_type(s: &str) -> (r: Result<RequestType, EnvelopeError>)
    ensures
        match r {
            Ok(t) => Some(t) == spec_parse_request_type(s@),
            Err(e) => e == EnvelopeError::UnknownRequestType && spec_parse_request_type(s@)
                is None,
        },
{
    if codec::str_eq(s, "advance_state") {
        Ok(RequestType::AdvanceState)
    } else if codec::str_eq(s, "inspect_state") {
        Ok(RequestType::InspectState)
    } else {
        Err(EnvelopeError::UnknownRequestType)
    }
}

/// Decodes a parsed envelope into the closed request model: the
/// discriminant through an exhaustive match, and the payload checked
/// to be well-formed hexadecimal. Malformed input is a decode error,
/// not a panic, and is never coerced to a default request.
pub fn decode_envelope(env: &Envelope) -> (r: Result<RollupsRequest, EnvelopeError>)
    ensures
        spec_decode_post(r, *env),
{
    let request_type = match parse_request_type(env.request_type.as_str()) {
        Ok(t) => t,
        Err(e) => {
            return Err(e);
        },
    };
    match codec::hex_decode(codec::strip_hex_prefix(env.payload.as_str())) {
        Ok(_) => {},
        Err(_) => {
            return Err(EnvelopeError::MalformedPayload);
        },
    }
    Ok(
        RollupsRequest {
            request_type,
            data: RollupsMessage {
                metadata: RollupsMetadata {
                    msg_sender: env.msg_sender.clone(),
                    epoch_index: env.epoch_index,
                    input_index: env.input_index,
                    block_number: env.block_number,
                    timestamp: env.timestamp,
                },
                payload: env.payload.clone(),
            },
        },
    )
}

/// Session state of the HTTP backend: the captured rollups contract
/// address, and whether the next finish call reports `accept` or
/// `reject` for the previous cycle.
#[derive(Debug, Clone, PartialEq, Eq)]
pub struct HttpSession {
    /// The contract address captured from the session's first request.
    pub rollups_address: Option<String>,
    /// `true` to send `accept` on the next finish call; the very first
    /// call always accepts.
    pub accept: bool,
}

impl HttpSession {
    /// A fresh session: no address captured, first finish accepts.
    pub fn new() -> (r: Self)
        ensures
            r.rollups_address is None,
            r.accept == true,
    {
        Self { rollups_address: None, accept: true }
    }

    /// Whether a decoded request is the session handshake: the very
    /// first request of the session, at epoch `0` and input `0`.
    pub open spec fn spec_is_handshake(request: RollupsRequest) -> bool {
        request.data.metadata.epoch_index == 0 && request.data.metadata.input_index == 0
    }

    /// Digests a decoded request. The handshake captures `msg_sender`
    /// as the session's rollups contract address and is not forwarded;
    /// any other request is handed back for dispatch to the handler,
    /// leaving the session unchanged.
    pub fn on_request(&mut self, request: RollupsRequest) -> (r: Option<RollupsRequest>)
        ensures
            Self::spec_is_handshake(request) ==> {
                &&& final(self).rollups_address == Some(request.data.metadata.msg_sender)
                &&& final(self).accept == old(self).accept
                &&& r is None
            },
            !Self::spec_is_handshake(request) ==> *final(self) == *old(self) && r == Some(request),
    {
        if request.data.metadata.epoch_index == 0 && request.data.metadata.input_index == 0 {
            self.rollups_address = Some(request.data.metadata.msg_sender);
            None
        } else {
            Some(request)
        }
    }

    /// Records the handler's outcome for the cycle just handled: it
    /// becomes the accept/reject status of the next finish call.
    pub fn set_outcome(&mut self, success: bool)
        ensures
            final(self).accept == success,
            final(self).rollups_address == old(self).rollups_address,
    {
        self.accept = success;
    }
}

/// What one finish response's status code means for the loop.
#[derive(Debug, Clone, Copy, PartialEq, Eq, Structural)]
pub enum FinishStep {
    /// `202`: no request is pending yet; retry the finish call.
    NotReady,
    /// `200`: the response body carries a request envelope to decode.
    Ready,
    /// Any other status: a protocol error.
    Unexpected,
}

/// Interprets the status code of a finish response: `202` means retry,
/// `200` means the body carries the request envelope, anything else is
/// a protocol error.
pub fn interpret_finish_status(status: u16) -> (r: FinishStep)
    ensures
        r == FinishStep::NotReady <==> status == STATUS_ACCEPTED,
        r == FinishStep::Ready <==> status == STATUS_OK,
        r == FinishStep::Unexpected <==> status != STATUS_ACCEPTED && status != STATUS_OK,
{
    if status == STATUS_ACCEPTED {
        FinishStep::NotReady
    } else if status == STATUS_OK {
        FinishStep::Ready
    } else {
        FinishStep::Unexpected
    }
}

/// One pre-recorded answer to a finish call: the HTTP status code and,
/// for a `200`, the parsed envelope of the response body.
#[derive(Debug, Clone, PartialEq, Eq)]
pub struct FinishResponse {
    pub status: u16,
    pub envelope: Option<Envelope>,
}

/// How a run of the finish loop ended.
#[derive(Debug, PartialEq, Eq)]
pub enum FinishLoopOutcome {
    /// A `200` arrived; its body was decoded exactly once.
    Decoded(Result<RollupsRequest, EnvelopeError>),
    /// A status other than `202` and `200` arrived: a protocol error.
    Protocol(u16),
    /// Every recorded response said `202`: no request became ready.
    Exhausted,
}

/// Drives the finish loop against pre-recorded responses, the
/// in-memory double of the rollups server. Responses are consumed in
/// order, one per finish call issued: each `202` is retried, the first
/// other status ends the loop — a `200` by decoding its body exactly
/// once, anything else as a protocol error. Returns the number of
/// finish calls issued and the outcome.
pub fn run_finish_loop(responses: &Vec<FinishResponse>) -> (r: (usize, FinishLoopOutcome))
    requires
        forall|j: int|
            0 <= j < responses@.len() && (#[trigger] responses@[j]).status == STATUS_OK
                ==> responses@[j].envelope is Some,
    ensures
        r.0 <= responses@.len(),
        forall|j: int| 0 <= j < r.0 - 1 ==> (#[trigger] responses@[j]).status == STATUS_ACCEPTED,
        match r.1 {
            FinishLoopOutcome::Exhausted => r.0 == responses@.len() && (forall|j: int|
                0 <= j < responses@.len() ==> (#[trigger] responses@[j]).status
                    == STATUS_ACCEPTED),
            FinishLoopOutcome::Protocol(code) => {
                &&& 1 <= r.0 <= responses@.len()
                &&& responses@[r.0 - 1].status == code
                &&& code != STATUS_ACCEPTED
                &&& code != STATUS_OK
            },
            FinishLoopOutcome::Decoded(result) => {
                &&& 1 <= r.0 <= responses@.len()
                &&& responses@[r.0 - 1].status == STATUS_OK
                &&& match responses@[r.0 - 1].envelope {
                    Some(env) => spec_decode_post(result, env),
                    None => false,
                }
            },
        },
{
    let mut issued: usize = 0;
    while issued < responses.len()
        invariant
            issued <= responses@.len(),
            forall|j: int|
                0 <= j < issued ==> (#[trigger] responses@[j]).status == STATUS_ACCEPTED,
            forall|j: int|
                0 <= j < responses@.len() && (#[trigger] responses@[j]).status == STATUS_OK
                    ==> responses@[j].envelope is Some,
        decreases responses@.len() - issued,
    {
        let response = &responses[issued];
        issued = issued + 1;
        if response.status == STATUS_ACCEPTED {
            continue ;
        }
        if response.status == STATUS_OK {
            let decoded = match &response.envelope {
                Some(env) => decode_envelope(env),
                None => {
                    proof {
                        assert(false);
                    }
                    return (issued, FinishLoopOutcome::Protocol(response.status));
                },
            };
            return (issued, FinishLoopOutcome::Decoded(decoded));
        }
        return (issued, FinishLoopOutcome::Protocol(response.status));
    }
    (issued, FinishLoopOutcome::Exhausted)
}

} // verus!
