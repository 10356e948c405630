use vstd::prelude::*;

verus! {

/// Failure to read or parse the configuration.
#[derive(Debug, Clone, Copy, PartialEq, Eq, Structural)]
pub enum ConfigError {
    Io,
    InvalidFormat,
}

/// Failure to load key material.
#[derive(Debug, Clone, Copy, PartialEq, Eq, Structural)]
pub enum KeyLoadError {
    /// The key file could not be read.
    Io,
    /// The text is not a key in the accepted encoding.
    IncorrectKey,
}

/// A signature did not verify, or could not be read as one.
#[derive(Debug, Clone, Copy, PartialEq, Eq, Structural)]
pub struct CryptoError;

/// The client could not be set up.
#[derive(Debug, Clone, Copy, PartialEq, Eq, Structural)]
pub struct SetupError;

/// The stage at which an outbound delivery broke.
#[derive(Debug, Clone, Copy, PartialEq, Eq, Structural)]
pub enum TransportError {
    Serialization,
    Request,
    Digest,
    Sign,
    Io,
}

/// Failure to obtain an object from a remote host.
#[derive(Debug, Clone, Copy, PartialEq, Eq, Structural)]
pub enum InquiryError {
    /// A response came, but its body is not the expected object.
    Deserialization,
    InvalidDigest,
    InvalidVerifierKey,
    InvalidSignature,
    /// No successful response came.
    NotResponded,
}

/// Why a message's provenance could not be established.
#[derive(Debug, Clone, Copy, PartialEq, Eq, Structural)]
pub enum VerificationFault {
    /// The message carries no signature.
    NoSignature,
    /// The signer's key document could not be fetched.
    KeyUnavailable,
    /// The fetched key is not a usable public key.
    KeyRejected,
    /// The body does not match its declared digest.
    DigestUnverified,
    /// The signature does not match the signing string.
    SignatureUnverified,
    /// Resolving the key would exceed the bound on nested fetches.
    ChainTooDeep,
    /// Resolving the key would fetch a key already being resolved.
    KeyCycle,
}

/// Verification failed; callers only learn that provenance was not
/// established, the reason is kept for diagnostics.
#[derive(Debug, Clone, Copy, PartialEq, Eq, Structural)]
pub struct VerificationError {
    pub reason: VerificationFault,
}

impl VerificationError {
    pub fn new(reason: VerificationFault) -> (r: VerificationError)
        ensures
            r.reason == reason,
    {
        VerificationError { reason }
    }
}

/// An error handed across the remote-service interfaces.
#[derive(Debug, Clone, Copy, PartialEq, Eq, Structural)]
pub enum Delegate {
    Inquiry(InquiryError),
    Transport(TransportError),
}

impl From<InquiryError> for Delegate {
    fn from(e: InquiryError) -> (r: Delegate) {
        Delegate::Inquiry(e)
    }
}

impl vstd::std_specs::convert::FromSpecImpl<InquiryError> for Delegate {
    open spec fn obeys_from_spec() -> bool {
        true
    }

    open spec fn from_spec(e: InquiryError) -> Delegate {
        Delegate::Inquiry(e)
    }
}

impl From<TransportError> for Delegate {
    fn from(e: TransportError) -> (r: Delegate) {
        Delegate::Transport(e)
    }
}

impl vstd::std_specs::convert::FromSpecImpl<TransportError> for Delegate {
    open spec fn obeys_from_spec() -> bool {
        true
    }

    open spec fn from_spec(e: TransportError) -> Delegate {
        Delegate::Transport(e)
    }
}

/// Failure of a domain value's construction.
#[derive(Debug, Clone, Copy, PartialEq, Eq, Structural)]
pub enum KernelError {
    Parse,
    Serialize,
    Deserialize,
}

/// The two ways in which the Follow to Accept handshake fails.
#[derive(Debug, Clone, Copy, PartialEq, Eq, Structural)]
pub enum ApplicationError {
    /// Delivery or verification layer.
    Driver,
    /// Identity construction.
    Kernel,
}

} // verus!
