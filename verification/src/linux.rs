//! Logic of the device-transport backend.
//!
//! Payload and address bytes cross the device boundary as raw bytes,
//! never hex-encoded; the record types here carry the `0x`-prefixed
//! hexadecimal form used at the logical-model boundary. The functions
//! convert between the two, exactly and without panicking: malformed
//! hex and a wrong address length are decode errors.
//!
//! The ioctl exchange itself stays with the caller that owns the device
//! file descriptor; everything here computes from plain values.

use crate::bindings;
use crate::codec;
use crate::rollups::RollupsMetadata;
use crate::rollups::RollupsRequest;
use vstd::prelude::*;

verus! {

/// Rollup device driver path.
pub const ROLLUP_DEVICE_NAME: &'static str = "/dev/rollup";

/// Message attached to a notice whose payload is not well-formed hex.
pub const NOTICE_PAYLOAD_DECODE_ERROR: &'static str =
    "Error decoding notice payload, payload must be in Ethereum hex binary format";

/// Message attached to a voucher whose payload is not well-formed hex.
pub const VOUCHER_PAYLOAD_DECODE_ERROR: &'static str =
    "Error decoding voucher payload, payload must be in Ethereum hex binary format";

/// Message attached to a report whose payload is not well-formed hex.
pub const REPORT_PAYLOAD_DECODE_ERROR: &'static str =
    "Error decoding report payload, payload must be in Ethereum hex binary format";

/// Message attached to an exception whose payload is not well-formed hex.
pub const EXCEPTION_PAYLOAD_DECODE_ERROR: &'static str =
    "Error decoding exception payload, payload must be in Ethereum hex binary format";

/// Message attached to a request whose payload is not well-formed hex.
pub const REQUEST_PAYLOAD_DECODE_ERROR: &'static str =
    "Error decoding request payload, payload must be in Ethereum hex binary format";

/// Message attached to a voucher whose address does not decode to
/// exactly twenty bytes.
pub const ADDRESS_NOT_VALID_ERROR: &'static str = "address not valid";

/// Message attached to a finish exchange announcing an unknown request
/// type.
pub const REQUEST_TYPE_UNSUPPORTED_ERROR: &'static str = "request type unsupported";

/// An error of the rollup device exchange, carrying a descriptive
/// message.
#[derive(Debug, Default, Clone, PartialEq, Eq)]
pub struct RollupError {
    pub message: String,
}

impl RollupError {
    /// An error carrying `message`.
    pub fn new(message: &str) -> (r: Self)
        ensures
            r.message@ == message@,
    {
        Self { message: message.to_owned() }
    }
}

/// State produced by the device on every finish call, describing the
/// next pending request. Consumed immediately to size the next read;
/// never persisted beyond one request cycle.
#[derive(Debug, Default, Clone, PartialEq, Eq, Copy, Structural)]
pub struct RollupFinish {
    pub accept_previous_request: bool,
    pub next_request_type: i32,
    pub next_request_payload_length: i32,
}

/// Whether a `0x`-prefixed (or bare) hexadecimal payload string is
/// well-formed.
pub open spec fn spec_payload_decodes(s: Seq<char>) -> bool {
    codec::spec_hex_decode_ok(codec::spec_strip_hex_prefix(s))
}

/// The bytes a well-formed payload string encodes.
pub open spec fn spec_payload_bytes(s: Seq<char>) -> Seq<u8> {
    codec::spec_hex_decode(codec::spec_strip_hex_prefix(s))
}

/// Metadata exactly describing the input order, with the sender address
/// as a `0x`-prefixed hexadecimal string.
#[derive(Debug, Clone, PartialEq, Eq)]
pub struct AdvanceMetadata {
    pub msg_sender: String,
    pub epoch_index: u64,
    pub input_index: u64,
    pub block_number: u64,
    pub timestamp: u64,
}

impl AdvanceMetadata {
    /// Returns the address with the `0x` prefix stripped if present.
    pub fn msg_sender_without_prefix(&self) -> (r: &str)
        ensures
            r@ == codec::spec_strip_hex_prefix(self.msg_sender@),
    {
        codec::strip_hex_prefix(self.msg_sender.as_str())
    }

    /// Builds the metadata from its raw device form, hex-encoding the
    /// sender address.
    pub fn from_raw(other: bindings::rollup_input_metadata) -> (r: Self)
        ensures
            r.msg_sender@ == codec::spec_hex_prefixed(other.msg_sender@),
            r.epoch_index == other.epoch_index,
            r.input_index == other.input_index,
            r.block_number == other.block_number,
            r.timestamp == other.timestamp,
    {
        Self {
            msg_sender: codec::hex_encode_prefixed(other.msg_sender.as_slice()),
            epoch_index: other.epoch_index,
            input_index: other.input_index,
            block_number: other.block_number,
            timestamp: other.timestamp,
        }
    }
}

/// A state-advancing request in its human-readable form.
#[derive(Debug, Clone, PartialEq, Eq)]
pub struct AdvanceRequest {
    pub metadata: AdvanceMetadata,
    pub payload: String,
}

/// A read-only inspection request in its human-readable form.
#[derive(Debug, Clone, PartialEq, Eq)]
pub struct InspectRequest {
    pub payload: String,
}

/// A request read from the device, classified by the finish exchange.
#[derive(Debug, Clone, PartialEq, Eq)]
pub enum RollupRequest {
    Inspect(InspectRequest),
    Advance(AdvanceRequest),
}

/// A report as it is written back by an inspection.
#[derive(Debug, Clone, PartialEq, Eq)]
pub struct Report {
    pub payload: String,
}

/// The collected answer to an inspection request.
#[derive(Debug, Clone, PartialEq, Eq)]
pub struct InspectReport {
    pub reports: Vec<Report>,
}

/// A notice in its human-readable form: `0x`-prefixed hex payload.
#[derive(Debug, Clone, PartialEq, Eq)]
pub struct Notice {
    pub payload: String,
}

/// A voucher in its human-readable form: `0x`-prefixed hex destination
/// address and payload.
#[derive(Debug, Clone, PartialEq, Eq)]
pub struct Voucher {
    pub address: String,
    pub payload: String,
}

/// An exception in its human-readable form.
#[derive(Debug, Clone, PartialEq, Eq)]
pub struct Exception {
    pub payload: String,
}

impl Notice {
    /// The record of a notice carrying `payload` bytes.
    pub fn from_payload(payload: &[u8]) -> (r: Self)
        ensures
            r.payload@ == codec::spec_hex_prefixed(payload@),
    {
        Self { payload: codec::hex_encode_prefixed(payload) }
    }
}

impl Voucher {
    /// The record of a voucher carrying `payload` bytes for `address`.
    pub fn from_parts(address: &[u8; 20], payload: &[u8]) -> (r: Self)
        ensures
            r.address@ == codec::spec_hex_prefixed(address@),
            r.payload@ == codec::spec_hex_prefixed(payload@),
    {
        Self {
            address: codec::hex_encode_prefixed(address.as_slice()),
            payload: codec::hex_encode_prefixed(payload),
        }
    }

    /// Returns the address with the `0x` prefix stripped if present.
    pub fn address_without_prefix(&self) -> (r: &str)
        ensures
            r@ == codec::spec_strip_hex_prefix(self.address@),
    {
        codec::strip_hex_prefix(self.address.as_str())
    }
}

impl Report {
    /// The record of a report carrying `payload` bytes.
    pub fn from_payload(payload: &[u8]) -> (r: Self)
        ensures
            r.payload@ == codec::spec_hex_prefixed(payload@),
    {
        Self { payload: codec::hex_encode_prefixed(payload) }
    }
}

impl Exception {
    /// The record of an exception carrying `payload` bytes.
    pub fn from_payload(payload: &[u8]) -> (r: Self)
        ensures
            r.payload@ == codec::spec_hex_prefixed(payload@),
    {
        Self { payload: codec::hex_encode_prefixed(payload) }
    }
}

/// Decodes the raw bytes a notice's payload string encodes, or reports
/// a decode error for malformed hex.
pub fn notice_payload_bytes(notice: &Notice) -> (r: Result<Vec<u8>, RollupError>)
    ensures
        match r {
            Ok(bytes) => spec_payload_decodes(notice.payload@) && bytes@ == spec_payload_bytes(
                notice.payload@,
            ),
            Err(e) => !spec_payload_decodes(notice.payload@) && e.message@
                == NOTICE_PAYLOAD_DECODE_ERROR@,
        },
{
    match codec::hex_decode(codec::strip_hex_prefix(notice.payload.as_str())) {
        Ok(bytes) => Ok(bytes),
        Err(_) => Err(RollupError::new(NOTICE_PAYLOAD_DECODE_ERROR)),
    }
}

/// Decodes the raw bytes a report's payload string encodes, or reports
/// a decode error for malformed hex.
pub fn report_payload_bytes(report: &Report) -> (r: Result<Vec<u8>, RollupError>)
    ensures
        match r {
            Ok(bytes) => spec_payload_decodes(report.payload@) && bytes@ == spec_payload_bytes(
                report.payload@,
            ),
            Err(e) => !spec_payload_decodes(report.payload@) && e.message@
                == REPORT_PAYLOAD_DECODE_ERROR@,
        },
{
    match codec::hex_decode(codec::strip_hex_prefix(report.payload.as_str())) {
        Ok(bytes) => Ok(bytes),
        Err(_) => Err(RollupError::new(REPORT_PAYLOAD_DECODE_ERROR)),
    }
}

/// Decodes the raw bytes an exception's payload string encodes, or
/// reports a decode error for malformed hex.
pub fn exception_payload_bytes(exception: &Exception) -> (r: Result<Vec<u8>, RollupError>)
    ensures
        match r {
            Ok(bytes) => spec_payload_decodes(exception.payload@) && bytes@ == spec_payload_bytes(
                exception.payload@,
            ),
            Err(e) => !spec_payload_decodes(exception.payload@) && e.message@
                == EXCEPTION_PAYLOAD_DECODE_ERROR@,
        },
{
    match codec::hex_decode(codec::strip_hex_prefix(exception.payload.as_str())) {
        Ok(bytes) => Ok(bytes),
        Err(_) => Err(RollupError::new(EXCEPTION_PAYLOAD_DECODE_ERROR)),
    }
}

/// Decodes a voucher into its wire parts: the twenty-byte destination
/// address and the payload bytes. The payload is decoded first; a
/// malformed payload, a malformed address, and an address of any other
/// length are decode errors, never panics.
pub fn voucher_wire_parts(voucher: &Voucher) -> (r: Result<
    (bindings::rollup_address, Vec<u8>),
    RollupError,
>)
    ensures
        match r {
            Ok((addr, bytes)) => {
                &&& spec_payload_decodes(voucher.payload@)
                &&& bytes@ == spec_payload_bytes(voucher.payload@)
                &&& spec_payload_decodes(voucher.address@)
                &&& spec_payload_bytes(voucher.address@).len()
                    == bindings::CARTESI_ROLLUP_ADDRESS_SIZE
                &&& addr@ == spec_payload_bytes(voucher.address@)
            },
            Err(e) => if !spec_payload_decodes(voucher.payload@) {
                e.message@ == VOUCHER_PAYLOAD_DECODE_ERROR@
            } else {
                (!spec_payload_decodes(voucher.address@) || spec_payload_bytes(voucher.address@).len()
                    != bindings::CARTESI_ROLLUP_ADDRESS_SIZE) && e.message@
                    == ADDRESS_NOT_VALID_ERROR@
            },
        },
{
    let bytes = match codec::hex_decode(codec::strip_hex_prefix(voucher.payload.as_str())) {
        Ok(bytes) => bytes,
        Err(_) => {
            return Err(RollupError::new(VOUCHER_PAYLOAD_DECODE_ERROR));
        },
    };
    let addr_bytes = match codec::hex_decode(codec::strip_hex_prefix(voucher.address.as_str())) {
        Ok(addr_bytes) => addr_bytes,
        Err(_) => {
            return Err(RollupError::new(ADDRESS_NOT_VALID_ERROR));
        },
    };
    if addr_bytes.len() != bindings::CARTESI_ROLLUP_ADDRESS_SIZE {
        return Err(RollupError::new(ADDRESS_NOT_VALID_ERROR));
    }
    let mut addr: bindings::rollup_address = [0u8; 20];
    let mut i: usize = 0;
    while i < bindings::CARTESI_ROLLUP_ADDRESS_SIZE
        invariant
            i <= bindings::CARTESI_ROLLUP_ADDRESS_SIZE,
            addr_bytes@.len() == bindings::CARTESI_ROLLUP_ADDRESS_SIZE,
            forall|j: int| 0 <= j < i ==> addr@[j] == addr_bytes@[j],
        decreases bindings::CARTESI_ROLLUP_ADDRESS_SIZE - i,
    {
        addr[i] = addr_bytes[i];
        i = i + 1;
    }
    proof {
        assert(addr@ =~= addr_bytes@);
    }
    Ok((addr, bytes))
}

/// The kind of request a finish exchange announced.
#[derive(Debug, Clone, Copy, PartialEq, Eq, Structural)]
pub enum RequestKind {
    Advance,
    Inspect,
}

/// Classifies the next pending request by the type code the finish
/// exchange returned; any code other than advance or inspect is an
/// unsupported-request error.
pub fn classify_request(finish: &RollupFinish) -> (r: Result<RequestKind, RollupError>)
    ensures
        match r {
            Ok(kind) => (kind == RequestKind::Advance <==> finish.next_request_type
                == bindings::CARTESI_ROLLUP_ADVANCE_STATE as i32) && (kind == RequestKind::Inspect
                <==> finish.next_request_type == bindings::CARTESI_ROLLUP_INSPECT_STATE as i32),
            Err(e) => finish.next_request_type != bindings::CARTESI_ROLLUP_ADVANCE_STATE as i32
                && finish.next_request_type != bindings::CARTESI_ROLLUP_INSPECT_STATE as i32
                && e.message@ == REQUEST_TYPE_UNSUPPORTED_ERROR@,
        },
{
    if finish.next_request_type == 0 {
        Ok(RequestKind::Advance)
    } else if finish.next_request_type == 1 {
        Ok(RequestKind::Inspect)
    } else {
        Err(RollupError::new(REQUEST_TYPE_UNSUPPORTED_ERROR))
    }
}

/// The compute half of reading an advance request: raw metadata and a
/// right-sized payload already copied out of the receive buffer become
/// the human-readable request.
pub fn advance_request_from_raw(
    metadata: bindings::rollup_input_metadata,
    payload: &[u8],
) -> (r: AdvanceRequest)
    ensures
        r.metadata.msg_sender@ == codec::spec_hex_prefixed(metadata.msg_sender@),
        r.metadata.epoch_index == metadata.epoch_index,
        r.metadata.input_index == metadata.input_index,
        r.metadata.block_number == metadata.block_number,
        r.metadata.timestamp == metadata.timestamp,
        r.payload@ == codec::spec_hex_prefixed(payload@),
{
    AdvanceRequest {
        metadata: AdvanceMetadata::from_raw(metadata),
        payload: codec::hex_encode_prefixed(payload),
    }
}

/// The compute half of reading an inspect request: a right-sized
/// payload already copied out of the receive buffer becomes the
/// human-readable request.
pub fn inspect_request_from_raw(payload: &[u8]) -> (r: InspectRequest)
    ensures
        r.payload@ == codec::spec_hex_prefixed(payload@),
{
    InspectRequest { payload: codec::hex_encode_prefixed(payload) }
}

impl RollupRequest {
    /// Whether both hex payload strings of the request are well-formed.
    pub open spec fn spec_decodes(self) -> bool {
        match self {
            RollupRequest::Advance(a) => spec_payload_decodes(a.payload@),
            RollupRequest::Inspect(i) => spec_payload_decodes(i.payload@),
        }
    }

    /// Converts the human-readable request into the transport-
    /// independent model, hex-decoding the payload into raw bytes.
    /// Malformed hex is a decode error, not a panic.
    pub fn into_rollups_request(self) -> (r: Result<RollupsRequest, RollupError>)
        ensures
            match r {
                Ok(req) => self.spec_decodes() && match (self, req) {
                    (
                        RollupRequest::Advance(a),
                        RollupsRequest::AdvanceState { metadata, payload },
                    ) => {
                        &&& metadata.msg_sender == a.metadata.msg_sender
                        &&& metadata.epoch_index == a.metadata.epoch_index
                        &&& metadata.input_index == a.metadata.input_index
                        &&& metadata.block_number == a.metadata.block_number
                        &&& metadata.timestamp == a.metadata.timestamp
                        &&& payload@ == spec_payload_bytes(a.payload@)
                    },
                    (
                        RollupRequest::Inspect(i),
                        RollupsRequest::InspectState { payload },
                    ) => payload@ == spec_payload_bytes(i.payload@),
                    _ => false,
                },
                Err(e) => !self.spec_decodes() && e.message@ == REQUEST_PAYLOAD_DECODE_ERROR@,
            },
    {
        match self {
            RollupRequest::Advance(a) => {
                let bytes = match codec::hex_decode(codec::strip_hex_prefix(a.payload.as_str())) {
                    Ok(bytes) => bytes,
                    Err(_) => {
                        return Err(RollupError::new(REQUEST_PAYLOAD_DECODE_ERROR));
                    },
                };
                Ok(
                    RollupsRequest::AdvanceState {
                        metadata: RollupsMetadata {
                            msg_sender: a.metadata.msg_sender,
                            epoch_index: a.metadata.epoch_index,
                            input_index: a.metadata.input_index,
                            block_number: a.metadata.block_number,
                            timestamp: a.metadata.timestamp,
                        },
                        payload: bytes,
                    },
                )
            },
            RollupRequest::Inspect(i) => {
                let bytes = match codec::hex_decode(codec::strip_hex_prefix(i.payload.as_str())) {
                    Ok(bytes) => bytes,
                    Err(_) => {
                        return Err(RollupError::new(REQUEST_PAYLOAD_DECODE_ERROR));
                    },
                };
                Ok(RollupsRequest::InspectState { payload: bytes })
            },
        }
    }
}

} // verus!
