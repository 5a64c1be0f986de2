//! The error taxonomy shared by the session, dispatch and transport layers.

use vstd::prelude::*;

verus! {

/// Every failure the library reports to its callers. Failures of the
/// cryptographic provider are folded into the variant of the operation that
/// invoked it; the payload-free variants keep the type independent of the
/// provider's own error types.
#[derive(Debug, PartialEq, Eq, Structural, Clone, Copy)]
pub enum ApplicationError {
    /// A commit for a membership change could not be produced.
    AddMemberError,
    /// A transport connection could not be established.
    ConnectionFailed,
    /// The cryptographic provider failed to produce key material.
    CryptoError,
    /// A plaintext could not be encrypted under the current key material.
    EncryptionFailed,
    /// An operation was attempted on a participant that holds no group.
    GroupDNE,
    /// A frame decoded as neither of the two known wire shapes.
    InvalidMessage,
    /// The transport pump could not be started.
    IOError,
    /// A background task did not terminate cleanly.
    JoinError,
    /// A welcome referenced key material the provider does not hold.
    KeyPackageDNE,
    /// An announced key package failed validation.
    KeyPackageVerify,
    /// Fresh key material could not be committed to the group.
    KeyUpdateError,
    /// The provider's key store rejected an insertion.
    MlsKeyStoreError,
    /// An inbound protocol message could not be processed.
    ProcessMessageError,
    /// The terminal could not be configured or drawn to.
    TerminalError,
    /// An outbound artifact could not be serialized for the wire.
    TlsSerializeError,
}

} // verus!
