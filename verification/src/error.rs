//! What can go wrong, and the code by which the guest learns of it.

use crate::host::{CryptoError, HostResult};
use crate::types::CryptoErrno;
use vstd::prelude::*;
use wiggle::GuestError;

verus! {

/// `wiggle::GuestError`, the account that the memory layer gives of a fault. It
/// is carried along and never looked into.
#[verifier::external_type_specification]
#[verifier::external_body]
pub struct ExGuestError(wiggle::GuestError);

/// Either something went wrong inside the cryptography layer (`Crypto`) or while
/// touching guest memory (`Guest`). Both end in one [`CryptoErrno`] for the guest.
#[derive(Debug)]
pub enum WasiCryptoError {
    Crypto(CryptoError),
    Guest(GuestError),
}

/// The result of a wasi-crypto function.
pub type WResult<T> = Result<T, WasiCryptoError>;

impl vstd::std_specs::convert::FromSpecImpl<CryptoError> for WasiCryptoError {
    open spec fn obeys_from_spec() -> bool {
        true
    }

    open spec fn from_spec(e: CryptoError) -> WasiCryptoError {
        WasiCryptoError::Crypto(e)
    }
}

impl From<CryptoError> for WasiCryptoError {
    fn from(e: CryptoError) -> (r: WasiCryptoError) {
        WasiCryptoError::Crypto(e)
    }
}

impl vstd::std_specs::convert::FromSpecImpl<GuestError> for WasiCryptoError {
    open spec fn obeys_from_spec() -> bool {
        true
    }

    open spec fn from_spec(e: GuestError) -> WasiCryptoError {
        WasiCryptoError::Guest(e)
    }
}

impl From<GuestError> for WasiCryptoError {
    fn from(e: GuestError) -> (r: WasiCryptoError) {
        WasiCryptoError::Guest(e)
    }
}

/// A host reply as the bridge passes it on: the value as it is, the error as a
/// crypto error.
pub open spec fn lifted<T>(reply: HostResult<T>) -> WResult<T> {
    match reply {
        Ok(v) => Ok(v),
        Err(e) => Err(WasiCryptoError::Crypto(e)),
    }
}

/// Passes a host reply on.
pub fn lift<T>(reply: HostResult<T>) -> (r: WResult<T>)
    ensures
        r == lifted(reply),
{
    match reply {
        Ok(v) => Ok(v),
        Err(e) => Err(WasiCryptoError::from(e)),
    }
}

/// The code of the same name as a host error.
pub open spec fn host_errno(e: CryptoError) -> CryptoErrno {
    match e {
        CryptoError::Success => CryptoErrno::Success,
        CryptoError::GuestError => CryptoErrno::GuestError,
        CryptoError::NotImplemented => CryptoErrno::NotImplemented,
        CryptoError::UnsupportedFeature => CryptoErrno::UnsupportedFeature,
        CryptoError::ProhibitedOperation => CryptoErrno::ProhibitedOperation,
        CryptoError::UnsupportedEncoding => CryptoErrno::UnsupportedEncoding,
        CryptoError::UnsupportedAlgorithm => CryptoErrno::UnsupportedAlgorithm,
        CryptoError::UnsupportedOption => CryptoErrno::UnsupportedOption,
        CryptoError::InvalidKey => CryptoErrno::InvalidKey,
        CryptoError::InvalidLength => CryptoErrno::InvalidLength,
        CryptoError::VerificationFailed => CryptoErrno::VerificationFailed,
        CryptoError::RNGError => CryptoErrno::RngError,
        CryptoError::AlgorithmFailure => CryptoErrno::AlgorithmFailure,
        CryptoError::InvalidSignature => CryptoErrno::InvalidSignature,
        CryptoError::Closed => CryptoErrno::Closed,
        CryptoError::InvalidHandle => CryptoErrno::InvalidHandle,
        CryptoError::Overflow => CryptoErrno::Overflow,
        CryptoError::InternalError => CryptoErrno::InternalError,
        CryptoError::TooManyHandles => CryptoErrno::TooManyHandles,
        CryptoError::KeyNotSupported => CryptoErrno::KeyNotSupported,
        CryptoError::KeyRequired => CryptoErrno::KeyRequired,
        CryptoError::InvalidTag => CryptoErrno::InvalidTag,
        CryptoError::InvalidOperation => CryptoErrno::InvalidOperation,
        CryptoError::NonceRequired => CryptoErrno::NonceRequired,
        CryptoError::InvalidNonce => CryptoErrno::InvalidNonce,
        CryptoError::OptionNotSet => CryptoErrno::OptionNotSet,
        CryptoError::NotFound => CryptoErrno::NotFound,
        CryptoError::ParametersMissing => CryptoErrno::ParametersMissing,
        CryptoError::IncompatibleKeys => CryptoErrno::IncompatibleKeys,
        CryptoError::Expired => CryptoErrno::Expired,
    }
}

/// The code for an error. A fault while reading or writing guest memory is, from
/// the guest's point of view, an internal inconsistency: every such fault has the
/// one code `GuestError`.
pub open spec fn errno(e: WasiCryptoError) -> CryptoErrno {
    match e {
        WasiCryptoError::Crypto(c) => host_errno(c),
        WasiCryptoError::Guest(_) => CryptoErrno::GuestError,
    }
}

/// Turns an error into the code that the guest is handed.
pub fn to_errno(e: WasiCryptoError) -> (r: CryptoErrno)
    ensures
        r == errno(e),
{
    let crypto = match e {
        WasiCryptoError::Crypto(c) => c,
        WasiCryptoError::Guest(_) => return CryptoErrno::GuestError,
    };
    match crypto {
        CryptoError::Success => CryptoErrno::Success,
        CryptoError::GuestError => CryptoErrno::GuestError,
        CryptoError::NotImplemented => CryptoErrno::NotImplemented,
        CryptoError::UnsupportedFeature => CryptoErrno::UnsupportedFeature,
        CryptoError::ProhibitedOperation => CryptoErrno::ProhibitedOperation,
        CryptoError::UnsupportedEncoding => CryptoErrno::UnsupportedEncoding,
        CryptoError::UnsupportedAlgorithm => CryptoErrno::UnsupportedAlgorithm,
        CryptoError::UnsupportedOption => CryptoErrno::UnsupportedOption,
        CryptoError::InvalidKey => CryptoErrno::InvalidKey,
        CryptoError::InvalidLength => CryptoErrno::InvalidLength,
        CryptoError::VerificationFailed => CryptoErrno::VerificationFailed,
        CryptoError::RNGError => CryptoErrno::RngError,
        CryptoError::AlgorithmFailure => CryptoErrno::AlgorithmFailure,
        CryptoError::InvalidSignature => CryptoErrno::InvalidSignature,
        CryptoError::Closed => CryptoErrno::Closed,
        CryptoError::InvalidHandle => CryptoErrno::InvalidHandle,
        CryptoError::Overflow => CryptoErrno::Overflow,
        CryptoError::InternalError => CryptoErrno::InternalError,
        CryptoError::TooManyHandles => CryptoErrno::TooManyHandles,
        CryptoError::KeyNotSupported => CryptoErrno::KeyNotSupported,
        CryptoError::KeyRequired => CryptoErrno::KeyRequired,
        CryptoError::InvalidTag => CryptoErrno::InvalidTag,
        CryptoError::InvalidOperation => CryptoErrno::InvalidOperation,
        CryptoError::NonceRequired => CryptoErrno::NonceRequired,
        CryptoError::InvalidNonce => CryptoErrno::InvalidNonce,
        CryptoError::OptionNotSet => CryptoErrno::OptionNotSet,
        CryptoError::NotFound => CryptoErrno::NotFound,
        CryptoError::ParametersMissing => CryptoErrno::ParametersMissing,
        CryptoError::IncompatibleKeys => CryptoErrno::IncompatibleKeys,
        CryptoError::Expired => CryptoErrno::Expired,
    }
}

} // verus!
