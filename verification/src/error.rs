//! Status values shared by every part of the crate.

use vstd::prelude::*;

verus! {

/// Why a step of the protocol did not succeed.
#[derive(Clone, Copy, Debug, PartialEq, Eq, Structural)]
pub enum SpdmStatus {
    /// A received message could not be read, or holds a value that does not fit.
    InvalidMsgField,
    /// The local state does not allow the step.
    InvalidStateLocal,
    /// A parameter names something that does not exist here.
    InvalidParameter,
    /// The peer answered with a message that was not asked for.
    ErrorPeer,
    /// A buffer has no room left.
    BufferFull,
    /// The key schedule could not derive a secret.
    CryptoError,
    /// A status that comes from the transport or from a handler outside this crate.
    Other(u32),
}

/// The result of a step of the protocol.
pub type SpdmResult<T = ()> = Result<T, SpdmStatus>;

} // verus!
