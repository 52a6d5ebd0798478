//! Error taxonomy for the link driver.
//!
//! Codec failures (`MalformedFrame`, `UnknownMessageType`) are reported and
//! the offending frame is dropped; transport failures are split into
//! retryable (`TransferTimeout`) and fatal (`TransferError`) kinds.

use vstd::prelude::*;

verus! {

/// Every way the driver can fail, from device discovery to frame decoding.
#[derive(Clone, Copy, Debug, PartialEq, Eq, Structural)]
pub enum LinkError {
    /// No attached USB device matched the expected vendor/product pair.
    DeviceNotFound,
    /// The matching device's interface could not be claimed.
    ClaimFailed,
    /// The claimed interface exposes no bulk endpoint of a required direction.
    EndpointNotFound,
    /// A bulk transfer did not complete within its deadline; retryable.
    TransferTimeout,
    /// A bulk transfer failed outright (for example, device removed); fatal.
    TransferError,
    /// A received frame failed the magic, parity, or length check.
    MalformedFrame,
    /// A received frame carried a type code absent from the registry.
    UnknownMessageType,
}

} // verus!
