//! The guest's side of the interface: the values that a wasm module passes to
//! the wasi-crypto functions and gets back from them.

use vstd::prelude::*;

verus! {

/// A number of bytes in guest memory.
pub type Size = u32;

/// The version of a managed key, as the guest writes it.
pub type Version = u64;

/// An offset into guest memory.
pub type GuestAddr = u32;

/// A string in guest memory: `len` bytes of UTF-8 that start at `ptr`.
#[derive(Clone, Copy, Debug, PartialEq, Eq, Structural)]
pub struct GuestStr {
    pub ptr: GuestAddr,
    pub len: Size,
}

/// A handle to a set of options.
#[derive(Clone, Copy, Debug, PartialEq, Eq, Structural)]
pub struct Options(pub u32);

/// A handle to bytes that the host holds until the guest pulls them.
#[derive(Clone, Copy, Debug, PartialEq, Eq, Structural)]
pub struct ArrayOutput(pub u32);

/// A handle to a secrets manager.
#[derive(Clone, Copy, Debug, PartialEq, Eq, Structural)]
pub struct SecretsManager(pub u32);

/// A handle to a key pair.
#[derive(Clone, Copy, Debug, PartialEq, Eq, Structural)]
pub struct Keypair(pub u32);

/// A handle to a public key.
#[derive(Clone, Copy, Debug, PartialEq, Eq, Structural)]
pub struct Publickey(pub u32);

/// A handle to a secret key.
#[derive(Clone, Copy, Debug, PartialEq, Eq, Structural)]
pub struct Secretkey(pub u32);

/// A handle to a signature.
#[derive(Clone, Copy, Debug, PartialEq, Eq, Structural)]
pub struct Signature(pub u32);

/// A key pair that signs.
pub type SignatureKeypair = Keypair;

/// A public key that verifies signatures.
pub type SignaturePublickey = Publickey;

/// A handle to a signature in the making.
#[derive(Clone, Copy, Debug, PartialEq, Eq, Structural)]
pub struct SignatureState(pub u32);

/// A handle to a signature verification under way.
#[derive(Clone, Copy, Debug, PartialEq, Eq, Structural)]
pub struct SignatureVerificationState(pub u32);

/// A handle to a symmetric key.
#[derive(Clone, Copy, Debug, PartialEq, Eq, Structural)]
pub struct SymmetricKey(pub u32);

/// A handle to the state of a symmetric primitive.
#[derive(Clone, Copy, Debug, PartialEq, Eq, Structural)]
pub struct SymmetricState(pub u32);

/// A handle to an authentication tag.
#[derive(Clone, Copy, Debug, PartialEq, Eq, Structural)]
pub struct SymmetricTag(pub u32);

/// An options handle that may be absent.
#[derive(Clone, Copy, Debug, PartialEq, Eq, Structural)]
pub enum OptOptions {
    Present(Options),
    Absent,
}

/// A symmetric key handle that may be absent.
#[derive(Clone, Copy, Debug, PartialEq, Eq, Structural)]
pub enum OptSymmetricKey {
    Present(SymmetricKey),
    Absent,
}

/// The family of algorithms, as the guest names it.
#[derive(Clone, Copy, Debug, PartialEq, Eq, Structural)]
pub enum AlgorithmType {
    Signatures,
    Symmetric,
    KeyExchange,
}

/// The encoding of a key pair, as the guest names it.
#[derive(Clone, Copy, Debug, PartialEq, Eq, Structural)]
pub enum KeypairEncoding {
    Raw,
    Pkcs8,
    Pem,
    Local,
}

/// The encoding of a public key, as the guest names it.
#[derive(Clone, Copy, Debug, PartialEq, Eq, Structural)]
pub enum PublickeyEncoding {
    Raw,
    Pkcs8,
    Pem,
    Sec,
    Local,
}

/// The encoding of a secret key, as the guest names it.
#[derive(Clone, Copy, Debug, PartialEq, Eq, Structural)]
pub enum SecretkeyEncoding {
    Raw,
    Pkcs8,
    Pem,
    Sec,
    Local,
}

/// The encoding of a signature, as the guest names it.
#[derive(Clone, Copy, Debug, PartialEq, Eq, Structural)]
pub enum SignatureEncoding {
    Raw,
    Der,
}

/// The code that a wasi-crypto function hands the guest.
#[derive(Clone, Copy, Debug, PartialEq, Eq, Structural)]
pub enum CryptoErrno {
    Success,
    GuestError,
    NotImplemented,
    UnsupportedFeature,
    ProhibitedOperation,
    UnsupportedEncoding,
    UnsupportedAlgorithm,
    UnsupportedOption,
    InvalidKey,
    InvalidLength,
    VerificationFailed,
    RngError,
    AlgorithmFailure,
    InvalidSignature,
    Closed,
    InvalidHandle,
    Overflow,
    InternalError,
    TooManyHandles,
    KeyNotSupported,
    KeyRequired,
    InvalidTag,
    InvalidOperation,
    NonceRequired,
    InvalidNonce,
    OptionNotSet,
    NotFound,
    ParametersMissing,
    IncompatibleKeys,
    Expired,
}

} // verus!
