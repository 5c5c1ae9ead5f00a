//! Userspace protocol driver for a proprietary SCSI-like camera command set
//! carried over raw USB bulk transfers.
//!
//! The crate covers the protocol layer itself: command header construction,
//! response framing and status-trailer detection, chunked transfer
//! reassembly, the retry/recovery policy, the higher-level device operations
//! expressed as command builders and response parsers, and the fixed 48-byte
//! settings record. The raw transport (bulk reads and writes, timeouts) is
//! left to the embedding program, which drives the state machines defined
//! here.

pub mod codec;
pub mod commands;
pub mod protocol;
pub mod retry;
pub mod settings;
pub mod transfer;

use vstd::prelude::*;

verus! {

/// Error values surfaced by the protocol layer. Transport-level failures
/// (`Transport`, `Timeout`, `NoDeviceFound`) are reported by the embedding
/// program that owns the USB device; the remaining variants are produced by
/// the verified protocol logic itself.
#[derive(Debug, Clone, Copy, PartialEq, Eq, Structural)]
pub enum CamError {
    /// Failure at the bulk/control transfer layer.
    Transport,
    /// A transfer did not complete within its timeout.
    Timeout,
    /// An enumeration byte or response framing did not parse.
    InvalidFormat,
    /// A response was shorter than a decode step required.
    InvalidLength { expected: u64, received: u64 },
    /// Accumulated response data would exceed the configured maximum.
    OversizedResponse { limit: u64, received: u64 },
    /// The connection-open handshake failed or exhausted its retries.
    ConnInit { tries: u32, status_code: u32 },
    /// A command exhausted its retry budget.
    SendCommand { tries: u32, status_code: u32 },
    /// The keepalive exchange returned a non-zero status.
    Keepalive { status_code: u32 },
    /// A write exchange was not acknowledged with a status trailer.
    Write,
    /// No USB device with the requested vendor/product pair was found.
    NoDeviceFound { vid: u16, pid: u16 },
}

} // verus!
