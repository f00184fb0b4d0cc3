//! Error taxonomy shared by the device manager, the device sessions and the
//! recording manager. Every mailbox answer is `Ok` or an error of one of
//! these kinds together with a human-readable detail string.

use vstd::prelude::*;

verus! {

/// The kind of a failure, as seen by a caller of any mailbox operation.
#[derive(Clone, Copy, Debug, PartialEq, Eq, Structural)]
pub enum ErrorKind {
    /// Transport or file read/write failure.
    Io,
    /// No reply arrived within the request window.
    Timeout,
    /// A frame decoded but its message id or shape was unexpected.
    ProtocolMismatch,
    /// The device id is absent from the registry.
    NotFound,
    /// The transport is already bound to a registered device.
    Duplicate,
    /// The operation is invalid for the device kind.
    UnsupportedKind,
    /// A recording is already active for the device.
    Busy,
    /// An error surfaced from a forwarded mailbox call.
    Upstream,
}

/// An error answer: a kind plus a human-readable detail.
#[derive(Clone, Debug)]
pub struct ManagerError {
    pub kind: ErrorKind,
    pub detail: String,
}

impl ManagerError {
    pub fn new(kind: ErrorKind, detail: String) -> (r: ManagerError)
        ensures
            r.kind == kind,
            r.detail == detail,
    {
        ManagerError { kind, detail }
    }

    pub fn kind(&self) -> (k: ErrorKind)
        ensures
            k == self.kind,
    {
        self.kind
    }
}

} // verus!
