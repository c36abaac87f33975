use wasi_crypto_wasmtime::convert::{opt_options, opt_symmetric_key};
use wasi_crypto_wasmtime::error::{lift, to_errno, WasiCryptoError};
use wasi_crypto_wasmtime::host;
use wasi_crypto_wasmtime::host::CryptoError;
use wasi_crypto_wasmtime::types;
use wasi_crypto_wasmtime::types::{CryptoErrno, OptOptions, OptSymmetricKey, Options, SymmetricKey};
use wiggle::GuestError;

const CODES: [(CryptoError, CryptoErrno); 30] = [
    (CryptoError::Success, CryptoErrno::Success),
    (CryptoError::GuestError, CryptoErrno::GuestError),
    (CryptoError::NotImplemented, CryptoErrno::NotImplemented),
    (CryptoError::UnsupportedFeature, CryptoErrno::UnsupportedFeature),
    (CryptoError::ProhibitedOperation, CryptoErrno::ProhibitedOperation),
    (CryptoError::UnsupportedEncoding, CryptoErrno::UnsupportedEncoding),
    (CryptoError::UnsupportedAlgorithm, CryptoErrno::UnsupportedAlgorithm),
    (CryptoError::UnsupportedOption, CryptoErrno::UnsupportedOption),
    (CryptoError::InvalidKey, CryptoErrno::InvalidKey),
    (CryptoError::InvalidLength, CryptoErrno::InvalidLength),
    (CryptoError::VerificationFailed, CryptoErrno::VerificationFailed),
    (CryptoError::RNGError, CryptoErrno::RngError),
    (CryptoError::AlgorithmFailure, CryptoErrno::AlgorithmFailure),
    (CryptoError::InvalidSignature, CryptoErrno::InvalidSignature),
    (CryptoError::Closed, CryptoErrno::Closed),
    (CryptoError::InvalidHandle, CryptoErrno::InvalidHandle),
    (CryptoError::Overflow, CryptoErrno::Overflow),
    (CryptoError::InternalError, CryptoErrno::InternalError),
    (CryptoError::TooManyHandles, CryptoErrno::TooManyHandles),
    (CryptoError::KeyNotSupported, CryptoErrno::KeyNotSupported),
    (CryptoError::KeyRequired, CryptoErrno::KeyRequired),
    (CryptoError::InvalidTag, CryptoErrno::InvalidTag),
    (CryptoError::InvalidOperation, CryptoErrno::InvalidOperation),
    (CryptoError::NonceRequired, CryptoErrno::NonceRequired),
    (CryptoError::InvalidNonce, CryptoErrno::InvalidNonce),
    (CryptoError::OptionNotSet, CryptoErrno::OptionNotSet),
    (CryptoError::NotFound, CryptoErrno::NotFound),
    (CryptoError::ParametersMissing, CryptoErrno::ParametersMissing),
    (CryptoError::IncompatibleKeys, CryptoErrno::IncompatibleKeys),
    (CryptoError::Expired, CryptoErrno::Expired),
];

#[test]
fn every_host_error_has_the_code_of_its_name() {
    for (error, code) in CODES {
        assert_eq!(to_errno(WasiCryptoError::Crypto(error)), code);
    }
}

#[test]
fn codes_tell_host_errors_apart() {
    for (i, (a, _)) in CODES.iter().enumerate() {
        for (j, (b, _)) in CODES.iter().enumerate() {
            let same = to_errno(WasiCryptoError::from(*a)) == to_errno(WasiCryptoError::from(*b));
            assert_eq!(same, i == j);
        }
    }
}

#[test]
fn guest_faults_have_one_code() {
    for fault in vec![
        GuestError::PtrOverflow,
        GuestError::SliceLengthsDiffer,
        GuestError::InvalidFlagValue("flag"),
    ] {
        let e = WasiCryptoError::from(fault);
        assert!(matches!(e, WasiCryptoError::Guest(_)));
        assert_eq!(to_errno(e), CryptoErrno::GuestError);
    }
}

#[test]
fn success_is_told_of_success_alone() {
    for (error, code) in CODES {
        assert_eq!(code == CryptoErrno::Success, error == CryptoError::Success);
    }
}

#[test]
fn replies_are_passed_on() {
    assert_eq!(lift(Ok(7u32)).unwrap(), 7);
    let r = lift::<u32>(Err(CryptoError::Expired));
    assert!(matches!(r, Err(WasiCryptoError::Crypto(CryptoError::Expired))));
}

#[test]
fn algorithm_types() {
    let names = [
        (types::AlgorithmType::Signatures, host::AlgorithmType::Signatures),
        (types::AlgorithmType::Symmetric, host::AlgorithmType::Symmetric),
        (types::AlgorithmType::KeyExchange, host::AlgorithmType::KeyExchange),
    ];
    for (guest, expected) in names {
        assert_eq!(host::AlgorithmType::from(guest), expected);
    }
}

#[test]
fn keypair_encodings() {
    let names = [
        (types::KeypairEncoding::Raw, host::KeyPairEncoding::Raw),
        (types::KeypairEncoding::Pkcs8, host::KeyPairEncoding::Pkcs8),
        (types::KeypairEncoding::Pem, host::KeyPairEncoding::Pem),
        (types::KeypairEncoding::Local, host::KeyPairEncoding::Local),
    ];
    for (guest, expected) in names {
        assert_eq!(host::KeyPairEncoding::from(guest), expected);
    }
}

#[test]
fn publickey_encodings() {
    let names = [
        (types::PublickeyEncoding::Raw, host::PublicKeyEncoding::Raw),
        (types::PublickeyEncoding::Pkcs8, host::PublicKeyEncoding::Pkcs8),
        (types::PublickeyEncoding::Pem, host::PublicKeyEncoding::Pem),
        (types::PublickeyEncoding::Sec, host::PublicKeyEncoding::Sec),
        (types::PublickeyEncoding::Local, host::PublicKeyEncoding::Local),
    ];
    for (guest, expected) in names {
        assert_eq!(host::PublicKeyEncoding::from(guest), expected);
    }
}

#[test]
fn secretkey_encodings() {
    let names = [
        (types::SecretkeyEncoding::Raw, host::SecretKeyEncoding::Raw),
        (types::SecretkeyEncoding::Pkcs8, host::SecretKeyEncoding::Pkcs8),
        (types::SecretkeyEncoding::Pem, host::SecretKeyEncoding::Pem),
        (types::SecretkeyEncoding::Sec, host::SecretKeyEncoding::Sec),
        (types::SecretkeyEncoding::Local, host::SecretKeyEncoding::Local),
    ];
    for (guest, expected) in names {
        assert_eq!(host::SecretKeyEncoding::from(guest), expected);
    }
}

#[test]
fn signature_encodings() {
    assert_eq!(
        host::SignatureEncoding::from(types::SignatureEncoding::Raw),
        host::SignatureEncoding::Raw
    );
    assert_eq!(
        host::SignatureEncoding::from(types::SignatureEncoding::Der),
        host::SignatureEncoding::Der
    );
}

#[test]
fn optional_handles() {
    assert_eq!(opt_options(&OptOptions::Present(Options(12))), Some(12));
    assert_eq!(opt_options(&OptOptions::Absent), None);
    assert_eq!(opt_symmetric_key(&OptSymmetricKey::Present(SymmetricKey(0))), Some(0));
    assert_eq!(opt_symmetric_key(&OptSymmetricKey::Absent), None);
}
