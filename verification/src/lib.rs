//! Communication core for a guest program running inside a deterministic
//! RISC-V machine that exchanges structured messages with a host
//! orchestrator.
//!
//! The crate models the request/response protocol: the guest repeatedly
//! asks for the next request over a transport (a character device or an
//! HTTP server), receives either a state-advancing input or a stateless
//! inspection query, and answers with notices, vouchers, reports, or a
//! terminal exception.

pub mod bindings;
pub mod cli;
pub mod codec;
pub mod commands;
pub mod dapp;
pub mod faker;
pub mod http;
pub mod linux;
pub mod rollups;
pub mod services;
pub mod tester;

pub use codec::HexDecodeError;
pub use rollups::MachineIo;
pub use rollups::RollupsMetadata;
pub use rollups::RollupsRequest;
