//! From the guest's names for things to the host's.

use crate::host;
use crate::host::Handle;
use crate::types;
use vstd::prelude::*;

verus! {

/// The host's algorithm family of the same name as the guest's.
pub open spec fn host_algorithm_type(a: types::AlgorithmType) -> host::AlgorithmType {
    match a {
        types::AlgorithmType::Signatures => host::AlgorithmType::Signatures,
        types::AlgorithmType::Symmetric => host::AlgorithmType::Symmetric,
        types::AlgorithmType::KeyExchange => host::AlgorithmType::KeyExchange,
    }
}

impl vstd::std_specs::convert::FromSpecImpl<types::AlgorithmType> for host::AlgorithmType {
    open spec fn obeys_from_spec() -> bool {
        true
    }

    open spec fn from_spec(a: types::AlgorithmType) -> host::AlgorithmType {
        host_algorithm_type(a)
    }
}

impl From<types::AlgorithmType> for host::AlgorithmType {
    fn from(a: types::AlgorithmType) -> (r: host::AlgorithmType) {
        match a {
            types::AlgorithmType::Signatures => host::AlgorithmType::Signatures,
            types::AlgorithmType::Symmetric => host::AlgorithmType::Symmetric,
            types::AlgorithmType::KeyExchange => host::AlgorithmType::KeyExchange,
        }
    }
}

/// The host's key pair encoding of the same name as the guest's.
pub open spec fn host_keypair_encoding(e: types::KeypairEncoding) -> host::KeyPairEncoding {
    match e {
        types::KeypairEncoding::Raw => host::KeyPairEncoding::Raw,
        types::KeypairEncoding::Pkcs8 => host::KeyPairEncoding::Pkcs8,
        types::KeypairEncoding::Pem => host::KeyPairEncoding::Pem,
        types::KeypairEncoding::Local => host::KeyPairEncoding::Local,
    }
}

impl vstd::std_specs::convert::FromSpecImpl<types::KeypairEncoding> for host::KeyPairEncoding {
    open spec fn obeys_from_spec() -> bool {
        true
    }

    open spec fn from_spec(e: types::KeypairEncoding) -> host::KeyPairEncoding {
        host_keypair_encoding(e)
    }
}

impl From<types::KeypairEncoding> for host::KeyPairEncoding {
    fn from(e: types::KeypairEncoding) -> (r: host::KeyPairEncoding) {
        match e {
            types::KeypairEncoding::Raw => host::KeyPairEncoding::Raw,
            types::KeypairEncoding::Pkcs8 => host::KeyPairEncoding::Pkcs8,
            types::KeypairEncoding::Pem => host::KeyPairEncoding::Pem,
            types::KeypairEncoding::Local => host::KeyPairEncoding::Local,
        }
    }
}

/// The host's public key encoding of the same name as the guest's.
pub open spec fn host_publickey_encoding(e: types::PublickeyEncoding) -> host::PublicKeyEncoding {
    match e {
        types::PublickeyEncoding::Raw => host::PublicKeyEncoding::Raw,
        types::PublickeyEncoding::Pkcs8 => host::PublicKeyEncoding::Pkcs8,
        types::PublickeyEncoding::Pem => host::PublicKeyEncoding::Pem,
        types::PublickeyEncoding::Sec => host::PublicKeyEncoding::Sec,
        types::PublickeyEncoding::Local => host::PublicKeyEncoding::Local,
    }
}

impl vstd::std_specs::convert::FromSpecImpl<types::PublickeyEncoding> for host::PublicKeyEncoding {
    open spec fn obeys_from_spec() -> bool {
        true
    }

    open spec fn from_spec(e: types::PublickeyEncoding) -> host::PublicKeyEncoding {
        host_publickey_encoding(e)
    }
}

impl From<types::PublickeyEncoding> for host::PublicKeyEncoding {
    fn from(e: types::PublickeyEncoding) -> (r: host::PublicKeyEncoding) {
        match e {
            types::PublickeyEncoding::Raw => host::PublicKeyEncoding::Raw,
            types::PublickeyEncoding::Pkcs8 => host::PublicKeyEncoding::Pkcs8,
            types::PublickeyEncoding::Pem => host::PublicKeyEncoding::Pem,
            types::PublickeyEncoding::Sec => host::PublicKeyEncoding::Sec,
            types::PublickeyEncoding::Local => host::PublicKeyEncoding::Local,
        }
    }
}

/// The host's secret key encoding of the same name as the guest's.
pub open spec fn host_secretkey_encoding(e: types::SecretkeyEncoding) -> host::SecretKeyEncoding {
    match e {
        types::SecretkeyEncoding::Raw => host::SecretKeyEncoding::Raw,
        types::SecretkeyEncoding::Pkcs8 => host::SecretKeyEncoding::Pkcs8,
        types::SecretkeyEncoding::Pem => host::SecretKeyEncoding::Pem,
        types::SecretkeyEncoding::Sec => host::SecretKeyEncoding::Sec,
        types::SecretkeyEncoding::Local => host::SecretKeyEncoding::Local,
    }
}

impl vstd::std_specs::convert::FromSpecImpl<types::SecretkeyEncoding> for host::SecretKeyEncoding {
    open spec fn obeys_from_spec() -> bool {
        true
    }

    open spec fn from_spec(e: types::SecretkeyEncoding) -> host::SecretKeyEncoding {
        host_secretkey_encoding(e)
    }
}

impl From<types::SecretkeyEncoding> for host::SecretKeyEncoding {
    fn from(e: types::SecretkeyEncoding) -> (r: host::SecretKeyEncoding) {
        match e {
            types::SecretkeyEncoding::Raw => host::SecretKeyEncoding::Raw,
            types::SecretkeyEncoding::Pkcs8 => host::SecretKeyEncoding::Pkcs8,
            types::SecretkeyEncoding::Pem => host::SecretKeyEncoding::Pem,
            types::SecretkeyEncoding::Sec => host::SecretKeyEncoding::Sec,
            types::SecretkeyEncoding::Local => host::SecretKeyEncoding::Local,
        }
    }
}

/// The host's signature encoding of the same name as the guest's.
pub open spec fn host_signature_encoding(e: types::SignatureEncoding) -> host::SignatureEncoding {
    match e {
        types::SignatureEncoding::Raw => host::SignatureEncoding::Raw,
        types::SignatureEncoding::Der => host::SignatureEncoding::Der,
    }
}

impl vstd::std_specs::convert::FromSpecImpl<types::SignatureEncoding> for host::SignatureEncoding {
    open spec fn obeys_from_spec() -> bool {
        true
    }

    open spec fn from_spec(e: types::SignatureEncoding) -> host::SignatureEncoding {
        host_signature_encoding(e)
    }
}

impl From<types::SignatureEncoding> for host::SignatureEncoding {
    fn from(e: types::SignatureEncoding) -> (r: host::SignatureEncoding) {
        match e {
            types::SignatureEncoding::Raw => host::SignatureEncoding::Raw,
            types::SignatureEncoding::Der => host::SignatureEncoding::Der,
        }
    }
}

/// The host handle of an options set that may be absent.
pub open spec fn options_handle(o: types::OptOptions) -> Option<Handle> {
    match o {
        types::OptOptions::Present(h) => Some(h.0),
        types::OptOptions::Absent => None,
    }
}

/// Turns an options set that may be absent into an optional host handle.
pub fn opt_options(o: &types::OptOptions) -> (r: Option<Handle>)
    ensures
        r == options_handle(*o),
{
    match o {
        types::OptOptions::Present(h) => Some(h.0),
        types::OptOptions::Absent => None,
    }
}

/// The host handle of a symmetric key that may be absent.
pub open spec fn symmetric_key_handle(o: types::OptSymmetricKey) -> Option<Handle> {
    match o {
        types::OptSymmetricKey::Present(h) => Some(h.0),
        types::OptSymmetricKey::Absent => None,
    }
}

/// Turns a symmetric key that may be absent into an optional host handle.
pub fn opt_symmetric_key(o: &types::OptSymmetricKey) -> (r: Option<Handle>)
    ensures
        r == symmetric_key_handle(*o),
{
    match o {
        types::OptSymmetricKey::Present(h) => Some(h.0),
        types::OptSymmetricKey::Absent => None,
    }
}

} // verus!
