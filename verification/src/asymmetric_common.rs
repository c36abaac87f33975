//! Key pairs, public keys and secret keys.

use crate::convert::{
    host_algorithm_type, host_keypair_encoding, host_publickey_encoding, host_secretkey_encoding,
    opt_options, options_handle,
};
use crate::ctx::WasiCryptoCtx;
use crate::error::{lift, lifted, WResult, WasiCryptoError};
use crate::host;
use crate::host::{Handle, HostResult};
use crate::memory::{
    bytes_fault, bytes_seen, once_written, read_bytes, read_str, same_guest, text_fault,
    text_readable, text_seen, write_bytes, write_effect, write_result, zeroed, zeros,
};
use crate::types;
use crate::types::{
    ArrayOutput, GuestAddr, GuestStr, Keypair, OptOptions, Publickey, Secretkey, SecretsManager,
    Size,
};
use vstd::prelude::*;
use wiggle::GuestMemory;

verus! {

impl<C> WasiCryptoCtx<C> {
    /// Generates a key pair.
    pub fn keypair_generate<F>(
        &mut self,
        mem: &GuestMemory<'_>,
        algorithm_type: types::AlgorithmType,
        algorithm: GuestStr,
        options: &OptOptions,
        call: F,
    ) -> (r: WResult<Keypair>) where
        F: FnOnce(&mut C, host::AlgorithmType, &str, Option<Handle>) -> HostResult<Handle>,
        requires
            forall|c: &mut C, alg: &str|
                call.requires(
                    (c, host_algorithm_type(algorithm_type), alg, options_handle(*options)),
                ),
        ensures
            match r {
                Err(WasiCryptoError::Guest(e)) => {
                    &&& text_fault(*mem, algorithm, e)
                    &&& final(self).host() == old(self).host()
                },
                _ => exists|c: &mut C, alg: &str, reply: HostResult<Handle>|
                    {
                        &&& *c == old(self).host() && *final(c) == final(self).host()
                        &&& text_seen(*mem, algorithm, alg@)
                        &&& #[trigger] call.ensures(
                            (c, host_algorithm_type(algorithm_type), alg, options_handle(*options)),
                            reply,
                        )
                        &&& r == match reply {
                            Ok(h) => Ok(Keypair(h)),
                            Err(e) => Err(WasiCryptoError::Crypto(e)),
                        }
                    },
            },
    {
        let alg: String = match read_str(mem, algorithm) {
            Ok(text) => text,
            Err(e) => return Err(e),
        };
        match call(
            &mut self.ctx,
            host::AlgorithmType::from(algorithm_type),
            alg.as_str(),
            opt_options(options),
        ) {
            Ok(h) => Ok(Keypair(h)),
            Err(e) => Err(WasiCryptoError::from(e)),
        }
    }

    /// Imports an encoded key pair.
    pub fn keypair_import<F>(
        &mut self,
        mem: &GuestMemory<'_>,
        algorithm_type: types::AlgorithmType,
        algorithm: GuestStr,
        encoded: GuestAddr,
        encoded_len: Size,
        encoding: types::KeypairEncoding,
        call: F,
    ) -> (r: WResult<Keypair>) where
        F: FnOnce(
            &mut C,
            host::AlgorithmType,
            &str,
            &[u8],
            host::KeyPairEncoding,
        ) -> HostResult<Handle>,
        requires
            forall|c: &mut C, alg: &str, bytes: &[u8]|
                call.requires(
                    (
                        c,
                        host_algorithm_type(algorithm_type),
                        alg,
                        bytes,
                        host_keypair_encoding(encoding),
                    ),
                ),
        ensures
            match r {
                Err(WasiCryptoError::Guest(e)) => {
                    &&& {
                        ||| text_fault(*mem, algorithm, e)
                        ||| {
                            &&& text_readable(*mem, algorithm)
                            &&& bytes_fault(*mem, encoded, encoded_len, e)
                        }
                    }
                    &&& final(self).host() == old(self).host()
                },
                _ => exists|c: &mut C, alg: &str, bytes: &[u8], reply: HostResult<Handle>|
                    {
                        &&& *c == old(self).host() && *final(c) == final(self).host()
                        &&& text_seen(*mem, algorithm, alg@)
                        &&& bytes_seen(*mem, encoded, encoded_len, bytes@)
                        &&& #[trigger] call.ensures(
                            (
                                c,
                                host_algorithm_type(algorithm_type),
                                alg,
                                bytes,
                                host_keypair_encoding(encoding),
                            ),
                            reply,
                        )
                        &&& r == match reply {
                            Ok(h) => Ok(Keypair(h)),
                            Err(e) => Err(WasiCryptoError::Crypto(e)),
                        }
                    },
            },
    {
        let alg: String = match read_str(mem, algorithm) {
            Ok(text) => text,
            Err(e) => return Err(e),
        };
        let bytes: Vec<u8> = match read_bytes(mem, encoded, encoded_len) {
            Ok(data) => data,
            Err(e) => return Err(e),
        };
        match call(
            &mut self.ctx,
            host::AlgorithmType::from(algorithm_type),
            alg.as_str(),
            bytes.as_slice(),
            host::KeyPairEncoding::from(encoding),
        ) {
            Ok(h) => Ok(Keypair(h)),
            Err(e) => Err(WasiCryptoError::from(e)),
        }
    }

    /// Generates a key pair that a secrets manager keeps.
    pub fn keypair_generate_managed<F>(
        &mut self,
        mem: &GuestMemory<'_>,
        secrets_manager: SecretsManager,
        algorithm_type: types::AlgorithmType,
        algorithm: GuestStr,
        options: &OptOptions,
        call: F,
    ) -> (r: WResult<Keypair>) where
        F: FnOnce(&mut C, Handle, host::AlgorithmType, &str, Option<Handle>) -> HostResult<Handle>,
        requires
            forall|c: &mut C, alg: &str|
                call.requires(
                    (
                        c,
                        secrets_manager.0,
                        host_algorithm_type(algorithm_type),
                        alg,
                        options_handle(*options),
                    ),
                ),
        ensures
            match r {
                Err(WasiCryptoError::Guest(e)) => {
                    &&& text_fault(*mem, algorithm, e)
                    &&& final(self).host() == old(self).host()
                },
                _ => exists|c: &mut C, alg: &str, reply: HostResult<Handle>|
                    {
                        &&& *c == old(self).host() && *final(c) == final(self).host()
                        &&& text_seen(*mem, algorithm, alg@)
                        &&& #[trigger] call.ensures(
                            (
                                c,
                                secrets_manager.0,
                                host_algorithm_type(algorithm_type),
                                alg,
                                options_handle(*options),
                            ),
                            reply,
                        )
                        &&& r == match reply {
                            Ok(h) => Ok(Keypair(h)),
                            Err(e) => Err(WasiCryptoError::Crypto(e)),
                        }
                    },
            },
    {
        let alg: String = match read_str(mem, algorithm) {
            Ok(text) => text,
            Err(e) => return Err(e),
        };
        match call(
            &mut self.ctx,
            secrets_manager.0,
            host::AlgorithmType::from(algorithm_type),
            alg.as_str(),
            opt_options(options),
        ) {
            Ok(h) => Ok(Keypair(h)),
            Err(e) => Err(WasiCryptoError::from(e)),
        }
    }

    /// Stores a key pair in a secrets manager and writes its identifier, which takes
    /// up the whole of the guest's buffer.
    pub fn keypair_store_managed<F>(
        &mut self,
        mem: &mut GuestMemory<'_>,
        secrets_manager: SecretsManager,
        kp: Keypair,
        kp_id: GuestAddr,
        kp_id_max_len: Size,
        call: F,
    ) -> (r: WResult<()>) where
        F: FnOnce(&mut C, Handle, Handle, &mut [u8]) -> HostResult<()>,
        requires
            forall|c: &mut C, buffer: &mut [u8]|
                call.requires((c, secrets_manager.0, kp.0, buffer)),
        ensures
            exists|c: &mut C, buffer: &mut [u8], reply: HostResult<()>|
                {
                    &&& *c == old(self).host() && *final(c) == final(self).host()
                    &&& buffer@ == zeros(kp_id_max_len)
                    &&& #[trigger] call.ensures((c, secrets_manager.0, kp.0, buffer), reply)
                    &&& match reply {
                        Ok(()) => {
                            &&& write_effect(
                                *old(mem),
                                *final(mem),
                                kp_id,
                                kp_id_max_len,
                                final(buffer)@,
                            )
                            &&& r == once_written(
                                write_result(*old(mem), kp_id, kp_id_max_len, final(buffer)@),
                                (),
                            )
                        },
                        Err(e) => {
                            &&& r == Err::<(), WasiCryptoError>(WasiCryptoError::Crypto(e))
                            &&& same_guest(*old(mem), *final(mem))
                        },
                    }
                },
    {
        let mut scratch: Vec<u8> = zeroed(kp_id_max_len);
        match call(&mut self.ctx, secrets_manager.0, kp.0, scratch.as_mut_slice()) {
            Ok(()) => match write_bytes(mem, kp_id, kp_id_max_len, scratch.as_slice()) {
                Ok(_) => Ok(()),
                Err(e) => Err(e),
            },
            Err(e) => Err(WasiCryptoError::from(e)),
        }
    }

    /// Replaces a managed key pair by another one and returns the version of the new
    /// one.
    pub fn keypair_replace_managed<F>(
        &mut self,
        secrets_manager: SecretsManager,
        kp_old: Keypair,
        kp_new: Keypair,
        call: F,
    ) -> (r: WResult<types::Version>) where
        F: FnOnce(&mut C, Handle, Handle, Handle) -> HostResult<host::Version>,
        requires
            forall|c: &mut C| call.requires((c, secrets_manager.0, kp_old.0, kp_new.0)),
        ensures
            exists|c: &mut C, reply: HostResult<host::Version>|
                {
                    &&& *c == old(self).host() && *final(c) == final(self).host()
                    &&& #[trigger] call.ensures((c, secrets_manager.0, kp_old.0, kp_new.0), reply)
                    &&& r == match reply {
                        Ok(version) => Ok(version.0),
                        Err(e) => Err(WasiCryptoError::Crypto(e)),
                    }
                },
    {
        match call(&mut self.ctx, secrets_manager.0, kp_old.0, kp_new.0) {
            Ok(version) => Ok(version.0),
            Err(e) => Err(WasiCryptoError::from(e)),
        }
    }

    /// Writes the identifier of a managed key pair and returns its length and the
    /// version.
    pub fn keypair_id<F>(
        &mut self,
        mem: &mut GuestMemory<'_>,
        kp: Keypair,
        kp_id: GuestAddr,
        kp_id_max_len: Size,
        call: F,
    ) -> (r: WResult<(Size, types::Version)>) where
        F: FnOnce(&mut C, Handle) -> HostResult<(Vec<u8>, host::Version)>,
        requires
            forall|c: &mut C| call.requires((c, kp.0)),
        ensures
            exists|c: &mut C, reply: HostResult<(Vec<u8>, host::Version)>|
                {
                    &&& *c == old(self).host() && *final(c) == final(self).host()
                    &&& #[trigger] call.ensures((c, kp.0), reply)
                    &&& match reply {
                        Ok((id, version)) => {
                            &&& write_effect(*old(mem), *final(mem), kp_id, kp_id_max_len, id@)
                            &&& r == match write_result(*old(mem), kp_id, kp_id_max_len, id@) {
                                Ok(n) => Ok((n, version.0)),
                                Err(e) => Err(e),
                            }
                        },
                        Err(e) => {
                            &&& r == Err::<(Size, types::Version), WasiCryptoError>(
                                WasiCryptoError::Crypto(e),
                            )
                            &&& same_guest(*old(mem), *final(mem))
                        },
                    }
                },
    {
        match call(&mut self.ctx, kp.0) {
            Ok((id, version)) => match write_bytes(mem, kp_id, kp_id_max_len, id.as_slice()) {
                Ok(n) => Ok((n, version.0)),
                Err(e) => Err(e),
            },
            Err(e) => Err(WasiCryptoError::from(e)),
        }
    }

    /// Finds a managed key pair by its identifier and version.
    pub fn keypair_from_id<F>(
        &mut self,
        mem: &GuestMemory<'_>,
        secrets_manager: SecretsManager,
        kp_id: GuestAddr,
        kp_id_len: Size,
        kp_version: types::Version,
        call: F,
    ) -> (r: WResult<Keypair>) where
        F: FnOnce(&mut C, Handle, &[u8], host::Version) -> HostResult<Handle>,
        requires
            forall|c: &mut C, bytes: &[u8]|
                call.requires((c, secrets_manager.0, bytes, host::Version(kp_version))),
        ensures
            match r {
                Err(WasiCryptoError::Guest(e)) => {
                    &&& bytes_fault(*mem, kp_id, kp_id_len, e)
                    &&& final(self).host() == old(self).host()
                },
                _ => exists|c: &mut C, bytes: &[u8], reply: HostResult<Handle>|
                    {
                        &&& *c == old(self).host() && *final(c) == final(self).host()
                        &&& bytes_seen(*mem, kp_id, kp_id_len, bytes@)
                        &&& #[trigger] call.ensures(
                            (c, secrets_manager.0, bytes, host::Version(kp_version)),
                            reply,
                        )
                        &&& r == match reply {
                            Ok(h) => Ok(Keypair(h)),
                            Err(e) => Err(WasiCryptoError::Crypto(e)),
                        }
                    },
            },
    {
        let bytes: Vec<u8> = match read_bytes(mem, kp_id, kp_id_len) {
            Ok(data) => data,
            Err(e) => return Err(e),
        };
        match call(&mut self.ctx, secrets_manager.0, bytes.as_slice(), host::Version(kp_version)) {
            Ok(h) => Ok(Keypair(h)),
            Err(e) => Err(WasiCryptoError::from(e)),
        }
    }

    /// Makes a key pair of a public key and a secret key.
    pub fn keypair_from_pk_and_sk<F>(
        &mut self,
        publickey: Publickey,
        secretkey: Secretkey,
        call: F,
    ) -> (r: WResult<Keypair>) where
        F: FnOnce(&mut C, Handle, Handle) -> HostResult<Handle>,
        requires
            forall|c: &mut C| call.requires((c, publickey.0, secretkey.0)),
        ensures
            exists|c: &mut C, reply: HostResult<Handle>|
                {
                    &&& *c == old(self).host() && *final(c) == final(self).host()
                    &&& #[trigger] call.ensures((c, publickey.0, secretkey.0), reply)
                    &&& r == match reply {
                        Ok(h) => Ok(Keypair(h)),
                        Err(e) => Err(WasiCryptoError::Crypto(e)),
                    }
                },
    {
        match call(&mut self.ctx, publickey.0, secretkey.0) {
            Ok(h) => Ok(Keypair(h)),
            Err(e) => Err(WasiCryptoError::from(e)),
        }
    }

    /// Exports a key pair.
    pub fn keypair_export<F>(
        &mut self,
        kp: Keypair,
        encoding: types::KeypairEncoding,
        call: F,
    ) -> (r: WResult<ArrayOutput>) where
        F: FnOnce(&mut C, Handle, host::KeyPairEncoding) -> HostResult<Handle>,
        requires
            forall|c: &mut C| call.requires((c, kp.0, host_keypair_encoding(encoding))),
        ensures
            exists|c: &mut C, reply: HostResult<Handle>|
                {
                    &&& *c == old(self).host() && *final(c) == final(self).host()
                    &&& #[trigger] call.ensures((c, kp.0, host_keypair_encoding(encoding)), reply)
                    &&& r == match reply {
                        Ok(h) => Ok(ArrayOutput(h)),
                        Err(e) => Err(WasiCryptoError::Crypto(e)),
                    }
                },
    {
        match call(&mut self.ctx, kp.0, host::KeyPairEncoding::from(encoding)) {
            Ok(h) => Ok(ArrayOutput(h)),
            Err(e) => Err(WasiCryptoError::from(e)),
        }
    }

    /// Returns the public key of a key pair.
    pub fn keypair_publickey<F>(
        &mut self,
        kp: Keypair,
        call: F,
    ) -> (r: WResult<Publickey>) where
        F: FnOnce(&mut C, Handle) -> HostResult<Handle>,
        requires
            forall|c: &mut C| call.requires((c, kp.0)),
        ensures
            exists|c: &mut C, reply: HostResult<Handle>|
                {
                    &&& *c == old(self).host() && *final(c) == final(self).host()
                    &&& #[trigger] call.ensures((c, kp.0), reply)
                    &&& r == match reply {
                        Ok(h) => Ok(Publickey(h)),
                        Err(e) => Err(WasiCryptoError::Crypto(e)),
                    }
                },
    {
        match call(&mut self.ctx, kp.0) {
            Ok(h) => Ok(Publickey(h)),
            Err(e) => Err(WasiCryptoError::from(e)),
        }
    }

    /// Returns the secret key of a key pair.
    pub fn keypair_secretkey<F>(
        &mut self,
        kp: Keypair,
        call: F,
    ) -> (r: WResult<Secretkey>) where
        F: FnOnce(&mut C, Handle) -> HostResult<Handle>,
        requires
            forall|c: &mut C| call.requires((c, kp.0)),
        ensures
            exists|c: &mut C, reply: HostResult<Handle>|
                {
                    &&& *c == old(self).host() && *final(c) == final(self).host()
                    &&& #[trigger] call.ensures((c, kp.0), reply)
                    &&& r == match reply {
                        Ok(h) => Ok(Secretkey(h)),
                        Err(e) => Err(WasiCryptoError::Crypto(e)),
                    }
                },
    {
        match call(&mut self.ctx, kp.0) {
            Ok(h) => Ok(Secretkey(h)),
            Err(e) => Err(WasiCryptoError::from(e)),
        }
    }

    /// Closes a key pair.
    pub fn keypair_close<F>(
        &mut self,
        kp: Keypair,
        call: F,
    ) -> (r: WResult<()>) where
        F: FnOnce(&mut C, Handle) -> HostResult<()>,
        requires
            forall|c: &mut C| call.requires((c, kp.0)),
        ensures
            exists|c: &mut C, reply: HostResult<()>|
                {
                    &&& *c == old(self).host() && *final(c) == final(self).host()
                    &&& #[trigger] call.ensures((c, kp.0), reply)
                    &&& r == lifted(reply)
                },
    {
        lift(call(&mut self.ctx, kp.0))
    }

    /// Imports an encoded public key.
    pub fn publickey_import<F>(
        &mut self,
        mem: &GuestMemory<'_>,
        algorithm_type: types::AlgorithmType,
        algorithm: GuestStr,
        encoded: GuestAddr,
        encoded_len: Size,
        encoding: types::PublickeyEncoding,
        call: F,
    ) -> (r: WResult<Publickey>) where
        F: FnOnce(
            &mut C,
            host::AlgorithmType,
            &str,
            &[u8],
            host::PublicKeyEncoding,
        ) -> HostResult<Handle>,
        requires
            forall|c: &mut C, alg: &str, bytes: &[u8]|
                call.requires(
                    (
                        c,
                        host_algorithm_type(algorithm_type),
                        alg,
                        bytes,
                        host_publickey_encoding(encoding),
                    ),
                ),
        ensures
            match r {
                Err(WasiCryptoError::Guest(e)) => {
                    &&& {
                        ||| text_fault(*mem, algorithm, e)
                        ||| {
                            &&& text_readable(*mem, algorithm)
                            &&& bytes_fault(*mem, encoded, encoded_len, e)
                        }
                    }
                    &&& final(self).host() == old(self).host()
                },
                _ => exists|c: &mut C, alg: &str, bytes: &[u8], reply: HostResult<Handle>|
                    {
                        &&& *c == old(self).host() && *final(c) == final(self).host()
                        &&& text_seen(*mem, algorithm, alg@)
                        &&& bytes_seen(*mem, encoded, encoded_len, bytes@)
                        &&& #[trigger] call.ensures(
                            (
                                c,
                                host_algorithm_type(algorithm_type),
                                alg,
                                bytes,
                                host_publickey_encoding(encoding),
                            ),
                            reply,
                        )
                        &&& r == match reply {
                            Ok(h) => Ok(Publickey(h)),
                            Err(e) => Err(WasiCryptoError::Crypto(e)),
                        }
                    },
            },
    {
        let alg: String = match read_str(mem, algorithm) {
            Ok(text) => text,
            Err(e) => return Err(e),
        };
        let bytes: Vec<u8> = match read_bytes(mem, encoded, encoded_len) {
            Ok(data) => data,
            Err(e) => return Err(e),
        };
        match call(
            &mut self.ctx,
            host::AlgorithmType::from(algorithm_type),
            alg.as_str(),
            bytes.as_slice(),
            host::PublicKeyEncoding::from(encoding),
        ) {
            Ok(h) => Ok(Publickey(h)),
            Err(e) => Err(WasiCryptoError::from(e)),
        }
    }

    /// Exports a public key.
    pub fn publickey_export<F>(
        &mut self,
        pk: Publickey,
        encoding: types::PublickeyEncoding,
        call: F,
    ) -> (r: WResult<ArrayOutput>) where
        F: FnOnce(&mut C, Handle, host::PublicKeyEncoding) -> HostResult<Handle>,
        requires
            forall|c: &mut C| call.requires((c, pk.0, host_publickey_encoding(encoding))),
        ensures
            exists|c: &mut C, reply: HostResult<Handle>|
                {
                    &&& *c == old(self).host() && *final(c) == final(self).host()
                    &&& #[trigger] call.ensures((c, pk.0, host_publickey_encoding(encoding)), reply)
                    &&& r == match reply {
                        Ok(h) => Ok(ArrayOutput(h)),
                        Err(e) => Err(WasiCryptoError::Crypto(e)),
                    }
                },
    {
        match call(&mut self.ctx, pk.0, host::PublicKeyEncoding::from(encoding)) {
            Ok(h) => Ok(ArrayOutput(h)),
            Err(e) => Err(WasiCryptoError::from(e)),
        }
    }

    /// Checks that a public key is a valid one.
    pub fn publickey_verify<F>(
        &mut self,
        pk: Publickey,
        call: F,
    ) -> (r: WResult<()>) where
        F: FnOnce(&mut C, Handle) -> HostResult<()>,
        requires
            forall|c: &mut C| call.requires((c, pk.0)),
        ensures
            exists|c: &mut C, reply: HostResult<()>|
                {
                    &&& *c == old(self).host() && *final(c) == final(self).host()
                    &&& #[trigger] call.ensures((c, pk.0), reply)
                    &&& r == lifted(reply)
                },
    {
        lift(call(&mut self.ctx, pk.0))
    }

    /// Returns the public key that belongs to a secret key.
    pub fn publickey_from_secretkey<F>(
        &mut self,
        sk: Secretkey,
        call: F,
    ) -> (r: WResult<Publickey>) where
        F: FnOnce(&mut C, Handle) -> HostResult<Handle>,
        requires
            forall|c: &mut C| call.requires((c, sk.0)),
        ensures
            exists|c: &mut C, reply: HostResult<Handle>|
                {
                    &&& *c == old(self).host() && *final(c) == final(self).host()
                    &&& #[trigger] call.ensures((c, sk.0), reply)
                    &&& r == match reply {
                        Ok(h) => Ok(Publickey(h)),
                        Err(e) => Err(WasiCryptoError::Crypto(e)),
                    }
                },
    {
        match call(&mut self.ctx, sk.0) {
            Ok(h) => Ok(Publickey(h)),
            Err(e) => Err(WasiCryptoError::from(e)),
        }
    }

    /// Closes a public key.
    pub fn publickey_close<F>(
        &mut self,
        pk: Publickey,
        call: F,
    ) -> (r: WResult<()>) where
        F: FnOnce(&mut C, Handle) -> HostResult<()>,
        requires
            forall|c: &mut C| call.requires((c, pk.0)),
        ensures
            exists|c: &mut C, reply: HostResult<()>|
                {
                    &&& *c == old(self).host() && *final(c) == final(self).host()
                    &&& #[trigger] call.ensures((c, pk.0), reply)
                    &&& r == lifted(reply)
                },
    {
        lift(call(&mut self.ctx, pk.0))
    }

    /// Imports an encoded secret key.
    pub fn secretkey_import<F>(
        &mut self,
        mem: &GuestMemory<'_>,
        algorithm_type: types::AlgorithmType,
        algorithm: GuestStr,
        encoded: GuestAddr,
        encoded_len: Size,
        encoding: types::SecretkeyEncoding,
        call: F,
    ) -> (r: WResult<Secretkey>) where
        F: FnOnce(
            &mut C,
            host::AlgorithmType,
            &str,
            &[u8],
            host::SecretKeyEncoding,
        ) -> HostResult<Handle>,
        requires
            forall|c: &mut C, alg: &str, bytes: &[u8]|
                call.requires(
                    (
                        c,
                        host_algorithm_type(algorithm_type),
                        alg,
                        bytes,
                        host_secretkey_encoding(encoding),
                    ),
                ),
        ensures
            match r {
                Err(WasiCryptoError::Guest(e)) => {
                    &&& {
                        ||| text_fault(*mem, algorithm, e)
                        ||| {
                            &&& text_readable(*mem, algorithm)
                            &&& bytes_fault(*mem, encoded, encoded_len, e)
                        }
                    }
                    &&& final(self).host() == old(self).host()
                },
                _ => exists|c: &mut C, alg: &str, bytes: &[u8], reply: HostResult<Handle>|
                    {
                        &&& *c == old(self).host() && *final(c) == final(self).host()
                        &&& text_seen(*mem, algorithm, alg@)
                        &&& bytes_seen(*mem, encoded, encoded_len, bytes@)
                        &&& #[trigger] call.ensures(
                            (
                                c,
                                host_algorithm_type(algorithm_type),
                                alg,
                                bytes,
                                host_secretkey_encoding(encoding),
                            ),
                            reply,
                        )
                        &&& r == match reply {
                            Ok(h) => Ok(Secretkey(h)),
                            Err(e) => Err(WasiCryptoError::Crypto(e)),
                        }
                    },
            },
    {
        let alg: String = match read_str(mem, algorithm) {
            Ok(text) => text,
            Err(e) => return Err(e),
        };
        let bytes: Vec<u8> = match read_bytes(mem, encoded, encoded_len) {
            Ok(data) => data,
            Err(e) => return Err(e),
        };
        match call(
            &mut self.ctx,
            host::AlgorithmType::from(algorithm_type),
            alg.as_str(),
            bytes.as_slice(),
            host::SecretKeyEncoding::from(encoding),
        ) {
            Ok(h) => Ok(Secretkey(h)),
            Err(e) => Err(WasiCryptoError::from(e)),
        }
    }

    /// Exports a secret key.
    pub fn secretkey_export<F>(
        &mut self,
        sk: Secretkey,
        encoding: types::SecretkeyEncoding,
        call: F,
    ) -> (r: WResult<ArrayOutput>) where
        F: FnOnce(&mut C, Handle, host::SecretKeyEncoding) -> HostResult<Handle>,
        requires
            forall|c: &mut C| call.requires((c, sk.0, host_secretkey_encoding(encoding))),
        ensures
            exists|c: &mut C, reply: HostResult<Handle>|
                {
                    &&& *c == old(self).host() && *final(c) == final(self).host()
                    &&& #[trigger] call.ensures((c, sk.0, host_secretkey_encoding(encoding)), reply)
                    &&& r == match reply {
                        Ok(h) => Ok(ArrayOutput(h)),
                        Err(e) => Err(WasiCryptoError::Crypto(e)),
                    }
                },
    {
        match call(&mut self.ctx, sk.0, host::SecretKeyEncoding::from(encoding)) {
            Ok(h) => Ok(ArrayOutput(h)),
            Err(e) => Err(WasiCryptoError::from(e)),
        }
    }

    /// Closes a secret key.
    pub fn secretkey_close<F>(
        &mut self,
        sk: Secretkey,
        call: F,
    ) -> (r: WResult<()>) where
        F: FnOnce(&mut C, Handle) -> HostResult<()>,
        requires
            forall|c: &mut C| call.requires((c, sk.0)),
        ensures
            exists|c: &mut C, reply: HostResult<()>|
                {
                    &&& *c == old(self).host() && *final(c) == final(self).host()
                    &&& #[trigger] call.ensures((c, sk.0), reply)
                    &&& r == lifted(reply)
                },
    {
        lift(call(&mut self.ctx, sk.0))
    }
}

} // verus!
