//! The vocabulary of the cryptographic host: the plain values that cross the
//! boundary between the bridge and the context that does the cryptography.

use vstd::prelude::*;

verus! {

/// An index into one of the host's handle tables.
pub type Handle = u32;

/// The version of a managed key.
#[derive(Clone, Copy, Debug, PartialEq, Eq, Structural)]
pub struct Version(pub u64);

/// The family of algorithms that a key or an options set belongs to.
#[derive(Clone, Copy, Debug, PartialEq, Eq, Structural)]
pub enum AlgorithmType {
    Signatures,
    Symmetric,
    KeyExchange,
}

/// How the host reads or writes a key pair.
#[derive(Clone, Copy, Debug, PartialEq, Eq, Structural)]
pub enum KeyPairEncoding {
    Raw,
    Pkcs8,
    Pem,
    Local,
}

/// How the host reads or writes a public key.
#[derive(Clone, Copy, Debug, PartialEq, Eq, Structural)]
pub enum PublicKeyEncoding {
    Raw,
    Pkcs8,
    Pem,
    Sec,
    Local,
}

/// How the host reads or writes a secret key.
#[derive(Clone, Copy, Debug, PartialEq, Eq, Structural)]
pub enum SecretKeyEncoding {
    Raw,
    Pkcs8,
    Pem,
    Sec,
    Local,
}

/// How the host reads or writes a signature.
#[derive(Clone, Copy, Debug, PartialEq, Eq, Structural)]
pub enum SignatureEncoding {
    Raw,
    Der,
}

/// What the cryptography layer answers when it does not succeed.
#[derive(Clone, Copy, Debug, PartialEq, Eq, Structural)]
pub enum CryptoError {
    Success,
    GuestError,
    NotImplemented,
    UnsupportedFeature,
    ProhibitedOperation,
    UnsupportedEncoding,
    UnsupportedAlgorithm,
    UnsupportedOption,
    InvalidKey,
    InvalidLength,
    VerificationFailed,
    RNGError,
    AlgorithmFailure,
    InvalidSignature,
    Closed,
    InvalidHandle,
    Overflow,
    InternalError,
    TooManyHandles,
    KeyNotSupported,
    KeyRequired,
    InvalidTag,
    InvalidOperation,
    NonceRequired,
    InvalidNonce,
    OptionNotSet,
    NotFound,
    ParametersMissing,
    IncompatibleKeys,
    Expired,
}

/// The answer of a host function.
pub type HostResult<T> = Result<T, CryptoError>;

} // verus!
