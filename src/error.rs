use vstd::prelude::*;

verus! {

/// Every way in which an operation of the session can fail.
#[derive(Debug, PartialEq, Eq)]
pub enum NsmError {
    /// The device path given at construction does not exist.
    DeviceMissing(String),
    /// The session has been closed.
    SessionClosed,
    /// A request for zero random bytes.
    InvalidRandomLength(usize),
    /// A register slot outside `0..count`; holds the slot and the count.
    InvalidPcrSlot(u32, usize),
    /// An extension of a locked register.
    PcrLocked(u32),
    /// A certificate slot outside `0..count`; holds the slot and the count.
    InvalidCertificateSlot(u32, usize),
    /// A certificate slot that holds nothing.
    CertificateNotFound(u32),
    /// Reserved for the signing layer.
    AttestationFailure(String),
    /// The operating system's entropy source failed.
    RandomFailure(String),
    /// A caller-supplied value could not be read as bytes.
    InvalidArgument(String),
}

} // verus!
