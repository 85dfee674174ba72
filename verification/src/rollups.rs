//! The transport-independent message model and the machine I/O port.
//!
//! A backend implements [`MachineIo`]; handler code depends only on that
//! trait. Exactly one request is outstanding between two consecutive
//! [`MachineIo::submit`] calls: the handler obtains a request, issues its
//! writes, and the next `submit` both finishes the old cycle and fetches
//! the new one.

use vstd::prelude::*;

verus! {

/// Metadata exactly describing the input order accompanying a
/// [`RollupsRequest`]. Immutable once constructed; accompanies every
/// advance request.
#[derive(Clone, Debug, PartialEq, Eq)]
pub struct RollupsMetadata {
    /// Sender address as a `0x`-prefixed hexadecimal string.
    pub msg_sender: String,
    pub epoch_index: u64,
    pub input_index: u64,
    pub block_number: u64,
    pub timestamp: u64,
}

/// Request sent from the rollups server.
///
/// The tag is authoritative for dispatch; the payload is an opaque byte
/// sequence, and length zero is valid.
#[derive(Clone, Debug, PartialEq)]
pub enum RollupsRequest {
    /// The handler should advance the state of the dapp using the
    /// `payload` and `metadata`.
    AdvanceState { metadata: RollupsMetadata, payload: Vec<u8> },
    /// The handler should inspect the current state using the `payload`
    /// and answer only with reports.
    InspectState { payload: Vec<u8> },
}

/// The implementor of this trait handles communication with the rollup
/// device. All backends are synchronous from the handler's point of
/// view: `submit` blocks until a new request is ready.
pub trait MachineIo {
    /// Transport-specific error type.
    type Error;

    /// Writes a notice with `payload`; returns the backend-assigned
    /// index.
    fn write_notice(&mut self, payload: &[u8]) -> Result<usize, Self::Error>;

    /// Writes a voucher with `payload` for `address`; returns the
    /// backend-assigned index.
    fn write_voucher(&mut self, address: &[u8; 20], payload: &[u8]) -> Result<
        usize,
        Self::Error,
    >;

    /// Writes a report with `payload`; fire-and-forget.
    fn write_report(&mut self, payload: &[u8]) -> Result<(), Self::Error>;

    /// Submits all writes since the last submit and retrieves the next
    /// [`RollupsRequest`] to handle. Needs to be called once before the
    /// first write call.
    fn submit(&mut self) -> Result<RollupsRequest, Self::Error>;

    /// Rolls back the current input and records an exception with
    /// `payload`; terminal for the current cycle.
    fn throw_exception(&mut self, payload: &[u8]) -> Result<(), Self::Error>;
}

/// Echo handler: answers every advance request with one notice carrying
/// the request's payload, and every inspect request with one report
/// carrying the request's payload, until the backend reports an error
/// or `fuel` cycles have been handled.
pub fn run<M: MachineIo>(machine: &mut M, fuel: usize) -> (r: Result<(), M::Error>) {
    let mut cycles: usize = 0;
    while cycles < fuel
        decreases fuel - cycles,
    {
        let request = match machine.submit() {
            Ok(request) => request,
            Err(e) => {
                return Err(e);
            },
        };

        let outcome = match request {
            RollupsRequest::AdvanceState { payload, .. } => match machine.write_notice(
                payload.as_slice(),
            ) {
                Ok(_) => Ok(()),
                Err(e) => Err(e),
            },
            RollupsRequest::InspectState { payload } => machine.write_report(payload.as_slice()),
        };

        if let Err(e) = outcome {
            return Err(e);
        }
        cycles = cycles + 1;
    }
    Ok(())
}

} // verus!
