//! Failures of a serial session.

use vstd::prelude::*;
use crate::codec::HexError;

verus! {

/// Every way a session can fail; each carries what an operator needs to act.
#[derive(Debug, PartialEq, Eq)]
pub enum SessionError {
    /// The device is not among those the host lists; `available` is that list.
    PortNotFound { port: String, available: Vec<String> },
    /// The device is listed but could not be opened.
    OpenFailure { port: String, cause: String },
    /// The message to send is not valid hex text.
    InvalidHexInput(HexError),
    /// The transport did not accept the whole payload.
    WriteFailure(String),
    /// The transport could not confirm delivery of the written bytes.
    FlushFailure(String),
    /// A read failed for a reason other than a timeout.
    ReadFailure(String),
}

} // verus!
