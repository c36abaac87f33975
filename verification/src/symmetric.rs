//! Symmetric keys, states and tags.

use crate::convert::{opt_options, opt_symmetric_key, options_handle, symmetric_key_handle};
use crate::ctx::WasiCryptoCtx;
use crate::error::{lift, lifted, WResult, WasiCryptoError};
use crate::host;
use crate::host::{Handle, HostResult};
use crate::memory::{
    bounds_error, buffer_lent, buffer_returned, bytes_fault, bytes_seen, fill_out_buf, fits,
    guest_shared, once_written, read_bytes, read_str, same_guest, tell_size, text_fault,
    text_readable, text_seen, told, write_bytes, write_effect, write_result, zeroed, zeros,
};
use crate::types;
use crate::types::{
    ArrayOutput, GuestAddr, GuestStr, OptOptions, OptSymmetricKey, SecretsManager, Size,
    SymmetricKey, SymmetricState, SymmetricTag,
};
use vstd::prelude::*;
use wiggle::GuestMemory;

verus! {

impl<C> WasiCryptoCtx<C> {
    /// Generates a symmetric key.
    pub fn symmetric_key_generate<F>(
        &mut self,
        mem: &GuestMemory<'_>,
        algorithm: GuestStr,
        options: &OptOptions,
        call: F,
    ) -> (r: WResult<SymmetricKey>) where
        F: FnOnce(&mut C, &str, Option<Handle>) -> HostResult<Handle>,
        requires
            forall|c: &mut C, alg: &str| call.requires((c, alg, options_handle(*options))),
        ensures
            match r {
                Err(WasiCryptoError::Guest(e)) => {
                    &&& text_fault(*mem, algorithm, e)
                    &&& final(self).host() == old(self).host()
                },
                _ => exists|c: &mut C, alg: &str, reply: HostResult<Handle>|
                    {
                        &&& *c == old(self).host() && *final(c) == final(self).host()
                        &&& text_seen(*mem, algorithm, alg@)
                        &&& #[trigger] call.ensures((c, alg, options_handle(*options)), reply)
                        &&& r == match reply {
                            Ok(h) => Ok(SymmetricKey(h)),
                            Err(e) => Err(WasiCryptoError::Crypto(e)),
                        }
                    },
            },
    {
        let alg: String = match read_str(mem, algorithm) {
            Ok(text) => text,
            Err(e) => return Err(e),
        };
        match call(&mut self.ctx, alg.as_str(), opt_options(options)) {
            Ok(h) => Ok(SymmetricKey(h)),
            Err(e) => Err(WasiCryptoError::from(e)),
        }
    }

    /// Imports a raw symmetric key.
    pub fn symmetric_key_import<F>(
        &mut self,
        mem: &GuestMemory<'_>,
        algorithm: GuestStr,
        raw: GuestAddr,
        raw_len: Size,
        call: F,
    ) -> (r: WResult<SymmetricKey>) where
        F: FnOnce(&mut C, &str, &[u8]) -> HostResult<Handle>,
        requires
            forall|c: &mut C, alg: &str, bytes: &[u8]| call.requires((c, alg, bytes)),
        ensures
            match r {
                Err(WasiCryptoError::Guest(e)) => {
                    &&& {
                        ||| text_fault(*mem, algorithm, e)
                        ||| text_readable(*mem, algorithm) && bytes_fault(*mem, raw, raw_len, e)
                    }
                    &&& final(self).host() == old(self).host()
                },
                _ => exists|c: &mut C, alg: &str, bytes: &[u8], reply: HostResult<Handle>|
                    {
                        &&& *c == old(self).host() && *final(c) == final(self).host()
                        &&& text_seen(*mem, algorithm, alg@)
                        &&& bytes_seen(*mem, raw, raw_len, bytes@)
                        &&& #[trigger] call.ensures((c, alg, bytes), reply)
                        &&& r == match reply {
                            Ok(h) => Ok(SymmetricKey(h)),
                            Err(e) => Err(WasiCryptoError::Crypto(e)),
                        }
                    },
            },
    {
        let alg: String = match read_str(mem, algorithm) {
            Ok(text) => text,
            Err(e) => return Err(e),
        };
        let bytes: Vec<u8> = match read_bytes(mem, raw, raw_len) {
            Ok(data) => data,
            Err(e) => return Err(e),
        };
        match call(&mut self.ctx, alg.as_str(), bytes.as_slice()) {
            Ok(h) => Ok(SymmetricKey(h)),
            Err(e) => Err(WasiCryptoError::from(e)),
        }
    }

    /// Exports a symmetric key.
    pub fn symmetric_key_export<F>(
        &mut self,
        symmetric_key: SymmetricKey,
        call: F,
    ) -> (r: WResult<ArrayOutput>) where
        F: FnOnce(&mut C, Handle) -> HostResult<Handle>,
        requires
            forall|c: &mut C| call.requires((c, symmetric_key.0)),
        ensures
            exists|c: &mut C, reply: HostResult<Handle>|
                {
                    &&& *c == old(self).host() && *final(c) == final(self).host()
                    &&& #[trigger] call.ensures((c, symmetric_key.0), reply)
                    &&& r == match reply {
                        Ok(h) => Ok(ArrayOutput(h)),
                        Err(e) => Err(WasiCryptoError::Crypto(e)),
                    }
                },
    {
        match call(&mut self.ctx, symmetric_key.0) {
            Ok(h) => Ok(ArrayOutput(h)),
            Err(e) => Err(WasiCryptoError::from(e)),
        }
    }

    /// Closes a symmetric key.
    pub fn symmetric_key_close<F>(
        &mut self,
        symmetric_key: SymmetricKey,
        call: F,
    ) -> (r: WResult<()>) where
        F: FnOnce(&mut C, Handle) -> HostResult<()>,
        requires
            forall|c: &mut C| call.requires((c, symmetric_key.0)),
        ensures
            exists|c: &mut C, reply: HostResult<()>|
                {
                    &&& *c == old(self).host() && *final(c) == final(self).host()
                    &&& #[trigger] call.ensures((c, symmetric_key.0), reply)
                    &&& r == lifted(reply)
                },
    {
        lift(call(&mut self.ctx, symmetric_key.0))
    }

    /// Generates a symmetric key that a secrets manager keeps.
    pub fn symmetric_key_generate_managed<F>(
        &mut self,
        mem: &GuestMemory<'_>,
        secrets_manager: SecretsManager,
        algorithm: GuestStr,
        options: &OptOptions,
        call: F,
    ) -> (r: WResult<SymmetricKey>) where
        F: FnOnce(&mut C, Handle, &str, Option<Handle>) -> HostResult<Handle>,
        requires
            forall|c: &mut C, alg: &str|
                call.requires((c, secrets_manager.0, alg, options_handle(*options))),
        ensures
            match r {
                Err(WasiCryptoError::Guest(e)) => {
                    &&& text_fault(*mem, algorithm, e)
                    &&& final(self).host() == old(self).host()
                },
                _ => exists|c: &mut C, alg: &str, reply: HostResult<Handle>|
                    {
                        &&& *c == old(self).host() && *final(c) == final(self).host()
                        &&& text_seen(*mem, algorithm, alg@)
                        &&& #[trigger] call.ensures(
                            (c, secrets_manager.0, alg, options_handle(*options)),
                            reply,
                        )
                        &&& r == match reply {
                            Ok(h) => Ok(SymmetricKey(h)),
                            Err(e) => Err(WasiCryptoError::Crypto(e)),
                        }
                    },
            },
    {
        let alg: String = match read_str(mem, algorithm) {
            Ok(text) => text,
            Err(e) => return Err(e),
        };
        match call(&mut self.ctx, secrets_manager.0, alg.as_str(), opt_options(options)) {
            Ok(h) => Ok(SymmetricKey(h)),
            Err(e) => Err(WasiCryptoError::from(e)),
        }
    }

    /// Stores a symmetric key in a secrets manager and writes its identifier, which
    /// takes up the whole of the guest's buffer.
    pub fn symmetric_key_store_managed<F>(
        &mut self,
        mem: &mut GuestMemory<'_>,
        secrets_manager: SecretsManager,
        symmetric_key: SymmetricKey,
        symmetric_key_id: GuestAddr,
        symmetric_key_id_max_len: Size,
        call: F,
    ) -> (r: WResult<()>) where
        F: FnOnce(&mut C, Handle, Handle, &mut [u8]) -> HostResult<()>,
        requires
            forall|c: &mut C, buffer: &mut [u8]|
                call.requires((c, secrets_manager.0, symmetric_key.0, buffer)),
        ensures
            exists|c: &mut C, buffer: &mut [u8], reply: HostResult<()>|
                {
                    &&& *c == old(self).host() && *final(c) == final(self).host()
                    &&& buffer@ == zeros(symmetric_key_id_max_len)
                    &&& #[trigger] call.ensures(
                        (c, secrets_manager.0, symmetric_key.0, buffer),
                        reply,
                    )
                    &&& match reply {
                        Ok(()) => {
                            &&& write_effect(
                                *old(mem),
                                *final(mem),
                                symmetric_key_id,
                                symmetric_key_id_max_len,
                                final(buffer)@,
                            )
                            &&& r == once_written(
                                write_result(
                                    *old(mem),
                                    symmetric_key_id,
                                    symmetric_key_id_max_len,
                                    final(buffer)@,
                                ),
                                (),
                            )
                        },
                        Err(e) => {
                            &&& r == Err::<(), WasiCryptoError>(WasiCryptoError::Crypto(e))
                            &&& same_guest(*old(mem), *final(mem))
                        },
                    }
                },
    {
        let mut scratch: Vec<u8> = zeroed(symmetric_key_id_max_len);
        match call(&mut self.ctx, secrets_manager.0, symmetric_key.0, scratch.as_mut_slice()) {
            Ok(()) => match write_bytes(
                mem,
                symmetric_key_id,
                symmetric_key_id_max_len,
                scratch.as_slice(),
            ) {
                Ok(_) => Ok(()),
                Err(e) => Err(e),
            },
            Err(e) => Err(WasiCryptoError::from(e)),
        }
    }

    /// Replaces a managed symmetric key by another one and returns the version of the
    /// new one.
    pub fn symmetric_key_replace_managed<F>(
        &mut self,
        secrets_manager: SecretsManager,
        symmetric_key_old: SymmetricKey,
        symmetric_key_new: SymmetricKey,
        call: F,
    ) -> (r: WResult<types::Version>) where
        F: FnOnce(&mut C, Handle, Handle, Handle) -> HostResult<host::Version>,
        requires
            forall|c: &mut C|
                call.requires((c, secrets_manager.0, symmetric_key_old.0, symmetric_key_new.0)),
        ensures
            exists|c: &mut C, reply: HostResult<host::Version>|
                {
                    &&& *c == old(self).host() && *final(c) == final(self).host()
                    &&& #[trigger] call.ensures(
                        (c, secrets_manager.0, symmetric_key_old.0, symmetric_key_new.0),
                        reply,
                    )
                    &&& r == match reply {
                        Ok(version) => Ok(version.0),
                        Err(e) => Err(WasiCryptoError::Crypto(e)),
                    }
                },
    {
        match call(&mut self.ctx, secrets_manager.0, symmetric_key_old.0, symmetric_key_new.0) {
            Ok(version) => Ok(version.0),
            Err(e) => Err(WasiCryptoError::from(e)),
        }
    }

    /// Writes the identifier of a managed symmetric key and returns its length and the
    /// version.
    pub fn symmetric_key_id<F>(
        &mut self,
        mem: &mut GuestMemory<'_>,
        symmetric_key: SymmetricKey,
        symmetric_key_id: GuestAddr,
        symmetric_key_id_max_len: Size,
        call: F,
    ) -> (r: WResult<(Size, types::Version)>) where
        F: FnOnce(&mut C, Handle) -> HostResult<(Vec<u8>, host::Version)>,
        requires
            forall|c: &mut C| call.requires((c, symmetric_key.0)),
        ensures
            exists|c: &mut C, reply: HostResult<(Vec<u8>, host::Version)>|
                {
                    &&& *c == old(self).host() && *final(c) == final(self).host()
                    &&& #[trigger] call.ensures((c, symmetric_key.0), reply)
                    &&& match reply {
                        Ok((id, version)) => {
                            &&& write_effect(
                                *old(mem),
                                *final(mem),
                                symmetric_key_id,
                                symmetric_key_id_max_len,
                                id@,
                            )
                            &&& r == match write_result(
                                *old(mem),
                                symmetric_key_id,
                                symmetric_key_id_max_len,
                                id@,
                            ) {
                                Ok(n) => Ok((n, version.0)),
                                Err(e) => Err(e),
                            }
                        },
                        Err(e) => {
                            &&& r == Err::<(Size, types::Version), WasiCryptoError>(
                                WasiCryptoError::Crypto(e),
                            )
                            &&& same_guest(*old(mem), *final(mem))
                        },
                    }
                },
    {
        match call(&mut self.ctx, symmetric_key.0) {
            Ok((id, version)) => match write_bytes(
                mem,
                symmetric_key_id,
                symmetric_key_id_max_len,
                id.as_slice(),
            ) {
                Ok(n) => Ok((n, version.0)),
                Err(e) => Err(e),
            },
            Err(e) => Err(WasiCryptoError::from(e)),
        }
    }

    /// Finds a managed symmetric key by its identifier and version.
    pub fn symmetric_key_from_id<F>(
        &mut self,
        mem: &GuestMemory<'_>,
        secrets_manager: SecretsManager,
        symmetric_key_id: GuestAddr,
        symmetric_key_id_len: Size,
        symmetric_key_version: types::Version,
        call: F,
    ) -> (r: WResult<SymmetricKey>) where
        F: FnOnce(&mut C, Handle, &[u8], host::Version) -> HostResult<Handle>,
        requires
            forall|c: &mut C, bytes: &[u8]|
                call.requires((c, secrets_manager.0, bytes, host::Version(symmetric_key_version))),
        ensures
            match r {
                Err(WasiCryptoError::Guest(e)) => {
                    &&& bytes_fault(*mem, symmetric_key_id, symmetric_key_id_len, e)
                    &&& final(self).host() == old(self).host()
                },
                _ => exists|c: &mut C, bytes: &[u8], reply: HostResult<Handle>|
                    {
                        &&& *c == old(self).host() && *final(c) == final(self).host()
                        &&& bytes_seen(*mem, symmetric_key_id, symmetric_key_id_len, bytes@)
                        &&& #[trigger] call.ensures(
                            (c, secrets_manager.0, bytes, host::Version(symmetric_key_version)),
                            reply,
                        )
                        &&& r == match reply {
                            Ok(h) => Ok(SymmetricKey(h)),
                            Err(e) => Err(WasiCryptoError::Crypto(e)),
                        }
                    },
            },
    {
        let bytes: Vec<u8> = match read_bytes(mem, symmetric_key_id, symmetric_key_id_len) {
            Ok(data) => data,
            Err(e) => return Err(e),
        };
        match call(
            &mut self.ctx,
            secrets_manager.0,
            bytes.as_slice(),
            host::Version(symmetric_key_version),
        ) {
            Ok(h) => Ok(SymmetricKey(h)),
            Err(e) => Err(WasiCryptoError::from(e)),
        }
    }

    /// Opens the state of a symmetric primitive.
    pub fn symmetric_state_open<F>(
        &mut self,
        mem: &GuestMemory<'_>,
        algorithm: GuestStr,
        key: &OptSymmetricKey,
        options: &OptOptions,
        call: F,
    ) -> (r: WResult<SymmetricState>) where
        F: FnOnce(&mut C, &str, Option<Handle>, Option<Handle>) -> HostResult<Handle>,
        requires
            forall|c: &mut C, alg: &str|
                call.requires((c, alg, symmetric_key_handle(*key), options_handle(*options))),
        ensures
            match r {
                Err(WasiCryptoError::Guest(e)) => {
                    &&& text_fault(*mem, algorithm, e)
                    &&& final(self).host() == old(self).host()
                },
                _ => exists|c: &mut C, alg: &str, reply: HostResult<Handle>|
                    {
                        &&& *c == old(self).host() && *final(c) == final(self).host()
                        &&& text_seen(*mem, algorithm, alg@)
                        &&& #[trigger] call.ensures(
                            (c, alg, symmetric_key_handle(*key), options_handle(*options)),
                            reply,
                        )
                        &&& r == match reply {
                            Ok(h) => Ok(SymmetricState(h)),
                            Err(e) => Err(WasiCryptoError::Crypto(e)),
                        }
                    },
            },
    {
        let alg: String = match read_str(mem, algorithm) {
            Ok(text) => text,
            Err(e) => return Err(e),
        };
        match call(&mut self.ctx, alg.as_str(), opt_symmetric_key(key), opt_options(options)) {
            Ok(h) => Ok(SymmetricState(h)),
            Err(e) => Err(WasiCryptoError::from(e)),
        }
    }

    /// Copies the value of an option into the guest's buffer and returns the number of
    /// bytes.
    pub fn symmetric_state_options_get<F>(
        &mut self,
        mem: &mut GuestMemory<'_>,
        handle: SymmetricState,
        name: GuestStr,
        value: GuestAddr,
        value_max_len: Size,
        call: F,
    ) -> (r: WResult<Size>) where
        F: FnOnce(&mut C, Handle, &str, &mut [u8]) -> HostResult<usize>,
        requires
            forall|c: &mut C, text: &str, buffer: &mut [u8]|
                call.requires((c, handle.0, text, buffer)),
            guest_shared(*old(mem)) ==> forall|c: &mut C, text: &str, buffer: &mut [u8], n: usize|
                call.ensures((c, handle.0, text, buffer), Ok(n)) ==> n <= final(buffer)@.len(),
        ensures
            match r {
                Err(WasiCryptoError::Guest(e)) => {
                    &&& {
                        ||| text_fault(*old(mem), name, e)
                        ||| {
                            &&& text_readable(*old(mem), name)
                            &&& bytes_fault(*old(mem), value, value_max_len, e)
                        }
                    }
                    &&& final(self).host() == old(self).host()
                    &&& same_guest(*old(mem), *final(mem))
                },
                _ => exists|c: &mut C, text: &str, buffer: &mut [u8], reply: HostResult<usize>|
                    {
                        &&& *c == old(self).host() && *final(c) == final(self).host()
                        &&& text_seen(*old(mem), name, text@)
                        &&& buffer_lent(*old(mem), value, value_max_len, buffer@)
                        &&& #[trigger] call.ensures((c, handle.0, text, buffer), reply)
                        &&& buffer_returned(
                            *old(mem),
                            *final(mem),
                            value,
                            value_max_len,
                            final(buffer)@,
                            reply,
                            r,
                        )
                    },
            },
    {
        let text: String = match read_str(mem, name) {
            Ok(text) => text,
            Err(e) => return Err(e),
        };
        let text: &str = text.as_str();
        let fill = |c: &mut C, out: &mut [u8]| -> (reply: HostResult<usize>)
            ensures
                exists|host: &mut C, buffer: &mut [u8]|
                    *host == *old(c) && *final(host) == *final(c) && buffer@ == old(out)@
                        && final(buffer)@ == final(out)@
                        && #[trigger] call.ensures((host, handle.0, text, buffer), reply),
        {
            call(c, handle.0, text, out)
        };
        fill_out_buf(&mut self.ctx, mem, value, value_max_len, fill)
    }

    /// Returns the value of an option that is a number.
    pub fn symmetric_state_options_get_u64<F>(
        &mut self,
        mem: &GuestMemory<'_>,
        handle: SymmetricState,
        name: GuestStr,
        call: F,
    ) -> (r: WResult<u64>) where
        F: FnOnce(&mut C, Handle, &str) -> HostResult<u64>,
        requires
            forall|c: &mut C, text: &str| call.requires((c, handle.0, text)),
        ensures
            match r {
                Err(WasiCryptoError::Guest(e)) => {
                    &&& text_fault(*mem, name, e)
                    &&& final(self).host() == old(self).host()
                },
                _ => exists|c: &mut C, text: &str, reply: HostResult<u64>|
                    {
                        &&& *c == old(self).host() && *final(c) == final(self).host()
                        &&& text_seen(*mem, name, text@)
                        &&& #[trigger] call.ensures((c, handle.0, text), reply)
                        &&& r == lifted(reply)
                    },
            },
    {
        let text: String = match read_str(mem, name) {
            Ok(text) => text,
            Err(e) => return Err(e),
        };
        lift(call(&mut self.ctx, handle.0, text.as_str()))
    }

    /// Copies a symmetric state.
    pub fn symmetric_state_clone<F>(
        &mut self,
        handle: SymmetricState,
        call: F,
    ) -> (r: WResult<SymmetricState>) where
        F: FnOnce(&mut C, Handle) -> HostResult<Handle>,
        requires
            forall|c: &mut C| call.requires((c, handle.0)),
        ensures
            exists|c: &mut C, reply: HostResult<Handle>|
                {
                    &&& *c == old(self).host() && *final(c) == final(self).host()
                    &&& #[trigger] call.ensures((c, handle.0), reply)
                    &&& r == match reply {
                        Ok(h) => Ok(SymmetricState(h)),
                        Err(e) => Err(WasiCryptoError::Crypto(e)),
                    }
                },
    {
        match call(&mut self.ctx, handle.0) {
            Ok(h) => Ok(SymmetricState(h)),
            Err(e) => Err(WasiCryptoError::from(e)),
        }
    }

    /// Closes a symmetric state.
    pub fn symmetric_state_close<F>(
        &mut self,
        handle: SymmetricState,
        call: F,
    ) -> (r: WResult<()>) where
        F: FnOnce(&mut C, Handle) -> HostResult<()>,
        requires
            forall|c: &mut C| call.requires((c, handle.0)),
        ensures
            exists|c: &mut C, reply: HostResult<()>|
                {
                    &&& *c == old(self).host() && *final(c) == final(self).host()
                    &&& #[trigger] call.ensures((c, handle.0), reply)
                    &&& r == lifted(reply)
                },
    {
        lift(call(&mut self.ctx, handle.0))
    }

    /// Absorbs bytes of the guest.
    pub fn symmetric_state_absorb<F>(
        &mut self,
        mem: &GuestMemory<'_>,
        handle: SymmetricState,
        data: GuestAddr,
        data_len: Size,
        call: F,
    ) -> (r: WResult<()>) where
        F: FnOnce(&mut C, Handle, &[u8]) -> HostResult<()>,
        requires
            forall|c: &mut C, bytes: &[u8]| call.requires((c, handle.0, bytes)),
        ensures
            match r {
                Err(WasiCryptoError::Guest(e)) => {
                    &&& bytes_fault(*mem, data, data_len, e)
                    &&& final(self).host() == old(self).host()
                },
                _ => exists|c: &mut C, bytes: &[u8], reply: HostResult<()>|
                    {
                        &&& *c == old(self).host() && *final(c) == final(self).host()
                        &&& bytes_seen(*mem, data, data_len, bytes@)
                        &&& #[trigger] call.ensures((c, handle.0, bytes), reply)
                        &&& r == lifted(reply)
                    },
            },
    {
        let bytes: Vec<u8> = match read_bytes(mem, data, data_len) {
            Ok(data) => data,
            Err(e) => return Err(e),
        };
        lift(call(&mut self.ctx, handle.0, bytes.as_slice()))
    }

    /// Squeezes bytes that fill the guest's buffer.
    pub fn symmetric_state_squeeze<F>(
        &mut self,
        mem: &mut GuestMemory<'_>,
        handle: SymmetricState,
        out: GuestAddr,
        out_len: Size,
        call: F,
    ) -> (r: WResult<()>) where
        F: FnOnce(&mut C, Handle, &mut [u8]) -> HostResult<()>,
        requires
            forall|c: &mut C, buffer: &mut [u8]| call.requires((c, handle.0, buffer)),
        ensures
            exists|c: &mut C, buffer: &mut [u8], reply: HostResult<()>|
                {
                    &&& *c == old(self).host() && *final(c) == final(self).host()
                    &&& buffer@ == zeros(out_len)
                    &&& #[trigger] call.ensures((c, handle.0, buffer), reply)
                    &&& match reply {
                        Ok(()) => {
                            &&& write_effect(*old(mem), *final(mem), out, out_len, final(buffer)@)
                            &&& r == once_written(
                                write_result(*old(mem), out, out_len, final(buffer)@),
                                (),
                            )
                        },
                        Err(e) => {
                            &&& r == Err::<(), WasiCryptoError>(WasiCryptoError::Crypto(e))
                            &&& same_guest(*old(mem), *final(mem))
                        },
                    }
                },
    {
        let mut scratch: Vec<u8> = zeroed(out_len);
        match call(&mut self.ctx, handle.0, scratch.as_mut_slice()) {
            Ok(()) => match write_bytes(mem, out, out_len, scratch.as_slice()) {
                Ok(_) => Ok(()),
                Err(e) => Err(e),
            },
            Err(e) => Err(WasiCryptoError::from(e)),
        }
    }

    /// Squeezes an authentication tag.
    pub fn symmetric_state_squeeze_tag<F>(
        &mut self,
        handle: SymmetricState,
        call: F,
    ) -> (r: WResult<SymmetricTag>) where
        F: FnOnce(&mut C, Handle) -> HostResult<Handle>,
        requires
            forall|c: &mut C| call.requires((c, handle.0)),
        ensures
            exists|c: &mut C, reply: HostResult<Handle>|
                {
                    &&& *c == old(self).host() && *final(c) == final(self).host()
                    &&& #[trigger] call.ensures((c, handle.0), reply)
                    &&& r == match reply {
                        Ok(h) => Ok(SymmetricTag(h)),
                        Err(e) => Err(WasiCryptoError::Crypto(e)),
                    }
                },
    {
        match call(&mut self.ctx, handle.0) {
            Ok(h) => Ok(SymmetricTag(h)),
            Err(e) => Err(WasiCryptoError::from(e)),
        }
    }

    /// Squeezes a key for another primitive.
    pub fn symmetric_state_squeeze_key<F>(
        &mut self,
        mem: &GuestMemory<'_>,
        handle: SymmetricState,
        alg_str: GuestStr,
        call: F,
    ) -> (r: WResult<SymmetricKey>) where
        F: FnOnce(&mut C, Handle, &str) -> HostResult<Handle>,
        requires
            forall|c: &mut C, alg: &str| call.requires((c, handle.0, alg)),
        ensures
            match r {
                Err(WasiCryptoError::Guest(e)) => {
                    &&& text_fault(*mem, alg_str, e)
                    &&& final(self).host() == old(self).host()
                },
                _ => exists|c: &mut C, alg: &str, reply: HostResult<Handle>|
                    {
                        &&& *c == old(self).host() && *final(c) == final(self).host()
                        &&& text_seen(*mem, alg_str, alg@)
                        &&& #[trigger] call.ensures((c, handle.0, alg), reply)
                        &&& r == match reply {
                            Ok(h) => Ok(SymmetricKey(h)),
                            Err(e) => Err(WasiCryptoError::Crypto(e)),
                        }
                    },
            },
    {
        let alg: String = match read_str(mem, alg_str) {
            Ok(text) => text,
            Err(e) => return Err(e),
        };
        match call(&mut self.ctx, handle.0, alg.as_str()) {
            Ok(h) => Ok(SymmetricKey(h)),
            Err(e) => Err(WasiCryptoError::from(e)),
        }
    }

    /// Returns the length of the longest tag that an encryption can add.
    pub fn symmetric_state_max_tag_len<F>(
        &mut self,
        handle: SymmetricState,
        call: F,
    ) -> (r: WResult<Size>) where
        F: FnOnce(&mut C, Handle) -> HostResult<usize>,
        requires
            forall|c: &mut C| call.requires((c, handle.0)),
        ensures
            exists|c: &mut C, reply: HostResult<usize>|
                {
                    &&& *c == old(self).host() && *final(c) == final(self).host()
                    &&& #[trigger] call.ensures((c, handle.0), reply)
                    &&& r == told(reply)
                },
    {
        match call(&mut self.ctx, handle.0) {
            Ok(n) => Ok(tell_size(n)),
            Err(e) => Err(WasiCryptoError::from(e)),
        }
    }

    /// Encrypts bytes of the guest, with the tag attached, into the guest's buffer and
    /// returns the number of bytes.
    pub fn symmetric_state_encrypt<F>(
        &mut self,
        mem: &mut GuestMemory<'_>,
        handle: SymmetricState,
        out: GuestAddr,
        out_len: Size,
        data: GuestAddr,
        data_len: Size,
        call: F,
    ) -> (r: WResult<Size>) where
        F: FnOnce(&mut C, Handle, &mut [u8], &[u8]) -> HostResult<usize>,
        requires
            forall|c: &mut C, buffer: &mut [u8], bytes: &[u8]|
                call.requires((c, handle.0, buffer, bytes)),
            guest_shared(*old(mem)) ==> forall|c: &mut C, buffer: &mut [u8], bytes: &[u8], n: usize|
                call.ensures((c, handle.0, buffer, bytes), Ok(n)) ==> n <= final(buffer)@.len(),
        ensures
            match r {
                Err(WasiCryptoError::Guest(e)) => {
                    &&& {
                        ||| bytes_fault(*old(mem), data, data_len, e)
                        ||| {
                            &&& fits(*old(mem), data, data_len as nat)
                            &&& bytes_fault(*old(mem), out, out_len, e)
                        }
                    }
                    &&& final(self).host() == old(self).host()
                    &&& same_guest(*old(mem), *final(mem))
                },
                _ => exists|c: &mut C, buffer: &mut [u8], bytes: &[u8], reply: HostResult<usize>|
                    {
                        &&& *c == old(self).host() && *final(c) == final(self).host()
                        &&& bytes_seen(*old(mem), data, data_len, bytes@)
                        &&& buffer_lent(*old(mem), out, out_len, buffer@)
                        &&& #[trigger] call.ensures((c, handle.0, buffer, bytes), reply)
                        &&& buffer_returned(
                            *old(mem),
                            *final(mem),
                            out,
                            out_len,
                            final(buffer)@,
                            reply,
                            r,
                        )
                    },
            },
    {
        let bytes: Vec<u8> = match read_bytes(mem, data, data_len) {
            Ok(data) => data,
            Err(e) => return Err(e),
        };
        let bytes: &[u8] = bytes.as_slice();
        let fill = |c: &mut C, out: &mut [u8]| -> (reply: HostResult<usize>)
            ensures
                exists|host: &mut C, buffer: &mut [u8]|
                    *host == *old(c) && *final(host) == *final(c) && buffer@ == old(out)@
                        && final(buffer)@ == final(out)@
                        && #[trigger] call.ensures((host, handle.0, buffer, bytes), reply),
        {
            call(c, handle.0, out, bytes)
        };
        fill_out_buf(&mut self.ctx, mem, out, out_len, fill)
    }

    /// Encrypts bytes of the guest so that they fill the guest's buffer and returns the
    /// tag on its own.
    pub fn symmetric_state_encrypt_detached<F>(
        &mut self,
        mem: &mut GuestMemory<'_>,
        handle: SymmetricState,
        out: GuestAddr,
        out_len: Size,
        data: GuestAddr,
        data_len: Size,
        call: F,
    ) -> (r: WResult<SymmetricTag>) where
        F: FnOnce(&mut C, Handle, &mut [u8], &[u8]) -> HostResult<Handle>,
        requires
            forall|c: &mut C, buffer: &mut [u8], bytes: &[u8]|
                call.requires((c, handle.0, buffer, bytes)),
        ensures
            if !fits(*old(mem), data, data_len as nat) {
                &&& r == Err::<SymmetricTag, WasiCryptoError>(
                    WasiCryptoError::Guest(bounds_error(data, data_len)),
                )
                &&& final(self).host() == old(self).host()
                &&& same_guest(*old(mem), *final(mem))
            } else {
                exists|c: &mut C, buffer: &mut [u8], bytes: &[u8], reply: HostResult<Handle>|
                    {
                        &&& *c == old(self).host() && *final(c) == final(self).host()
                        &&& bytes_seen(*old(mem), data, data_len, bytes@)
                        &&& buffer@ == zeros(out_len)
                        &&& #[trigger] call.ensures((c, handle.0, buffer, bytes), reply)
                        &&& match reply {
                            Ok(tag) => {
                                &&& write_effect(
                                    *old(mem),
                                    *final(mem),
                                    out,
                                    out_len,
                                    final(buffer)@,
                                )
                                &&& r == once_written(
                                    write_result(*old(mem), out, out_len, final(buffer)@),
                                    SymmetricTag(tag),
                                )
                            },
                            Err(e) => {
                                &&& r == Err::<SymmetricTag, WasiCryptoError>(
                                    WasiCryptoError::Crypto(e),
                                )
                                &&& same_guest(*old(mem), *final(mem))
                            },
                        }
                    }
            },
    {
        let bytes: Vec<u8> = match read_bytes(mem, data, data_len) {
            Ok(data) => data,
            Err(e) => return Err(e),
        };
        let mut scratch: Vec<u8> = zeroed(out_len);
        match call(&mut self.ctx, handle.0, scratch.as_mut_slice(), bytes.as_slice()) {
            Ok(tag) => match write_bytes(mem, out, out_len, scratch.as_slice()) {
                Ok(_) => Ok(SymmetricTag(tag)),
                Err(e) => Err(e),
            },
            Err(e) => Err(WasiCryptoError::from(e)),
        }
    }

    /// Decrypts bytes of the guest, with the tag attached, into the guest's buffer and
    /// returns the number of bytes.
    pub fn symmetric_state_decrypt<F>(
        &mut self,
        mem: &mut GuestMemory<'_>,
        handle: SymmetricState,
        out: GuestAddr,
        out_len: Size,
        data: GuestAddr,
        data_len: Size,
        call: F,
    ) -> (r: WResult<Size>) where
        F: FnOnce(&mut C, Handle, &mut [u8], &[u8]) -> HostResult<usize>,
        requires
            forall|c: &mut C, buffer: &mut [u8], bytes: &[u8]|
                call.requires((c, handle.0, buffer, bytes)),
            guest_shared(*old(mem)) ==> forall|c: &mut C, buffer: &mut [u8], bytes: &[u8], n: usize|
                call.ensures((c, handle.0, buffer, bytes), Ok(n)) ==> n <= final(buffer)@.len(),
        ensures
            match r {
                Err(WasiCryptoError::Guest(e)) => {
                    &&& {
                        ||| bytes_fault(*old(mem), data, data_len, e)
                        ||| {
                            &&& fits(*old(mem), data, data_len as nat)
                            &&& bytes_fault(*old(mem), out, out_len, e)
                        }
                    }
                    &&& final(self).host() == old(self).host()
                    &&& same_guest(*old(mem), *final(mem))
                },
                _ => exists|c: &mut C, buffer: &mut [u8], bytes: &[u8], reply: HostResult<usize>|
                    {
                        &&& *c == old(self).host() && *final(c) == final(self).host()
                        &&& bytes_seen(*old(mem), data, data_len, bytes@)
                        &&& buffer_lent(*old(mem), out, out_len, buffer@)
                        &&& #[trigger] call.ensures((c, handle.0, buffer, bytes), reply)
                        &&& buffer_returned(
                            *old(mem),
                            *final(mem),
                            out,
                            out_len,
                            final(buffer)@,
                            reply,
                            r,
                        )
                    },
            },
    {
        let bytes: Vec<u8> = match read_bytes(mem, data, data_len) {
            Ok(data) => data,
            Err(e) => return Err(e),
        };
        let bytes: &[u8] = bytes.as_slice();
        let fill = |c: &mut C, out: &mut [u8]| -> (reply: HostResult<usize>)
            ensures
                exists|host: &mut C, buffer: &mut [u8]|
                    *host == *old(c) && *final(host) == *final(c) && buffer@ == old(out)@
                        && final(buffer)@ == final(out)@
                        && #[trigger] call.ensures((host, handle.0, buffer, bytes), reply),
        {
            call(c, handle.0, out, bytes)
        };
        fill_out_buf(&mut self.ctx, mem, out, out_len, fill)
    }

    /// Decrypts bytes of the guest, with the tag apart, into the guest's buffer and
    /// returns the number of bytes.
    pub fn symmetric_state_decrypt_detached<F>(
        &mut self,
        mem: &mut GuestMemory<'_>,
        handle: SymmetricState,
        out: GuestAddr,
        out_len: Size,
        data: GuestAddr,
        data_len: Size,
        raw_tag: GuestAddr,
        raw_tag_len: Size,
        call: F,
    ) -> (r: WResult<Size>) where
        F: FnOnce(&mut C, Handle, &mut [u8], &[u8], &[u8]) -> HostResult<usize>,
        requires
            forall|c: &mut C, buffer: &mut [u8], bytes: &[u8], tag: &[u8]|
                call.requires((c, handle.0, buffer, bytes, tag)),
            guest_shared(*old(mem)) ==> forall|
                c: &mut C,
                buffer: &mut [u8],
                bytes: &[u8],
                tag: &[u8],
                n: usize,
            |
                call.ensures(
                    (c, handle.0, buffer, bytes, tag),
                    Ok(n),
                ) ==> n <= final(buffer)@.len(),
        ensures
            match r {
                Err(WasiCryptoError::Guest(e)) => {
                    &&& {
                        ||| bytes_fault(*old(mem), data, data_len, e)
                        ||| {
                            &&& fits(*old(mem), data, data_len as nat)
                            &&& bytes_fault(*old(mem), raw_tag, raw_tag_len, e)
                        }
                        ||| {
                            &&& fits(*old(mem), data, data_len as nat)
                            &&& fits(*old(mem), raw_tag, raw_tag_len as nat)
                            &&& bytes_fault(*old(mem), out, out_len, e)
                        }
                    }
                    &&& final(self).host() == old(self).host()
                    &&& same_guest(*old(mem), *final(mem))
                },
                _ => exists|
                    c: &mut C,
                    buffer: &mut [u8],
                    bytes: &[u8],
                    tag: &[u8],
                    reply: HostResult<usize>,
                |
                    {
                        &&& *c == old(self).host() && *final(c) == final(self).host()
                        &&& bytes_seen(*old(mem), data, data_len, bytes@)
                        &&& bytes_seen(*old(mem), raw_tag, raw_tag_len, tag@)
                        &&& buffer_lent(*old(mem), out, out_len, buffer@)
                        &&& #[trigger] call.ensures((c, handle.0, buffer, bytes, tag), reply)
                        &&& buffer_returned(
                            *old(mem),
                            *final(mem),
                            out,
                            out_len,
                            final(buffer)@,
                            reply,
                            r,
                        )
                    },
            },
    {
        let bytes: Vec<u8> = match read_bytes(mem, data, data_len) {
            Ok(data) => data,
            Err(e) => return Err(e),
        };
        let tag: Vec<u8> = match read_bytes(mem, raw_tag, raw_tag_len) {
            Ok(data) => data,
            Err(e) => return Err(e),
        };
        let bytes: &[u8] = bytes.as_slice();
        let tag: &[u8] = tag.as_slice();
        let fill = |c: &mut C, out: &mut [u8]| -> (reply: HostResult<usize>)
            ensures
                exists|host: &mut C, buffer: &mut [u8]|
                    *host == *old(c) && *final(host) == *final(c) && buffer@ == old(out)@
                        && final(buffer)@ == final(out)@
                        && #[trigger] call.ensures((host, handle.0, buffer, bytes, tag), reply),
        {
            call(c, handle.0, out, bytes, tag)
        };
        fill_out_buf(&mut self.ctx, mem, out, out_len, fill)
    }

    /// Makes the earlier states irrecoverable.
    pub fn symmetric_state_ratchet<F>(
        &mut self,
        handle: SymmetricState,
        call: F,
    ) -> (r: WResult<()>) where
        F: FnOnce(&mut C, Handle) -> HostResult<()>,
        requires
            forall|c: &mut C| call.requires((c, handle.0)),
        ensures
            exists|c: &mut C, reply: HostResult<()>|
                {
                    &&& *c == old(self).host() && *final(c) == final(self).host()
                    &&& #[trigger] call.ensures((c, handle.0), reply)
                    &&& r == lifted(reply)
                },
    {
        lift(call(&mut self.ctx, handle.0))
    }

    /// Returns the length of a tag.
    pub fn symmetric_tag_len<F>(
        &mut self,
        symmetric_tag: SymmetricTag,
        call: F,
    ) -> (r: WResult<Size>) where
        F: FnOnce(&mut C, Handle) -> HostResult<usize>,
        requires
            forall|c: &mut C| call.requires((c, symmetric_tag.0)),
        ensures
            exists|c: &mut C, reply: HostResult<usize>|
                {
                    &&& *c == old(self).host() && *final(c) == final(self).host()
                    &&& #[trigger] call.ensures((c, symmetric_tag.0), reply)
                    &&& r == told(reply)
                },
    {
        match call(&mut self.ctx, symmetric_tag.0) {
            Ok(n) => Ok(tell_size(n)),
            Err(e) => Err(WasiCryptoError::from(e)),
        }
    }

    /// Copies a tag into the guest's buffer and returns the number of bytes.
    pub fn symmetric_tag_pull<F>(
        &mut self,
        mem: &mut GuestMemory<'_>,
        symmetric_tag: SymmetricTag,
        buf: GuestAddr,
        buf_len: Size,
        call: F,
    ) -> (r: WResult<Size>) where
        F: FnOnce(&mut C, Handle, &mut [u8]) -> HostResult<usize>,
        requires
            forall|c: &mut C, buffer: &mut [u8]| call.requires((c, symmetric_tag.0, buffer)),
            guest_shared(*old(mem)) ==> forall|c: &mut C, buffer: &mut [u8], n: usize|
                call.ensures((c, symmetric_tag.0, buffer), Ok(n)) ==> n <= final(buffer)@.len(),
        ensures
            match r {
                Err(WasiCryptoError::Guest(e)) => {
                    &&& bytes_fault(*old(mem), buf, buf_len, e)
                    &&& final(self).host() == old(self).host()
                    &&& same_guest(*old(mem), *final(mem))
                },
                _ => exists|c: &mut C, buffer: &mut [u8], reply: HostResult<usize>|
                    {
                        &&& *c == old(self).host() && *final(c) == final(self).host()
                        &&& buffer_lent(*old(mem), buf, buf_len, buffer@)
                        &&& #[trigger] call.ensures((c, symmetric_tag.0, buffer), reply)
                        &&& buffer_returned(
                            *old(mem),
                            *final(mem),
                            buf,
                            buf_len,
                            final(buffer)@,
                            reply,
                            r,
                        )
                    },
            },
    {
        let fill = |c: &mut C, out: &mut [u8]| -> (reply: HostResult<usize>)
            ensures
                exists|host: &mut C, buffer: &mut [u8]|
                    *host == *old(c) && *final(host) == *final(c) && buffer@ == old(out)@
                        && final(buffer)@ == final(out)@
                        && #[trigger] call.ensures((host, symmetric_tag.0, buffer), reply),
        {
            call(c, symmetric_tag.0, out)
        };
        fill_out_buf(&mut self.ctx, mem, buf, buf_len, fill)
    }

    /// Compares a tag with the guest's bytes.
    pub fn symmetric_tag_verify<F>(
        &mut self,
        mem: &GuestMemory<'_>,
        symmetric_tag: SymmetricTag,
        expected_raw_tag_ptr: GuestAddr,
        expected_raw_tag_len: Size,
        call: F,
    ) -> (r: WResult<()>) where
        F: FnOnce(&mut C, Handle, &[u8]) -> HostResult<()>,
        requires
            forall|c: &mut C, bytes: &[u8]| call.requires((c, symmetric_tag.0, bytes)),
        ensures
            match r {
                Err(WasiCryptoError::Guest(e)) => {
                    &&& bytes_fault(*mem, expected_raw_tag_ptr, expected_raw_tag_len, e)
                    &&& final(self).host() == old(self).host()
                },
                _ => exists|c: &mut C, bytes: &[u8], reply: HostResult<()>|
                    {
                        &&& *c == old(self).host() && *final(c) == final(self).host()
                        &&& bytes_seen(*mem, expected_raw_tag_ptr, expected_raw_tag_len, bytes@)
                        &&& #[trigger] call.ensures((c, symmetric_tag.0, bytes), reply)
                        &&& r == lifted(reply)
                    },
            },
    {
        let bytes: Vec<u8> = match read_bytes(mem, expected_raw_tag_ptr, expected_raw_tag_len) {
            Ok(data) => data,
            Err(e) => return Err(e),
        };
        lift(call(&mut self.ctx, symmetric_tag.0, bytes.as_slice()))
    }

    /// Closes a tag.
    pub fn symmetric_tag_close<F>(
        &mut self,
        symmetric_tag: SymmetricTag,
        call: F,
    ) -> (r: WResult<()>) where
        F: FnOnce(&mut C, Handle) -> HostResult<()>,
        requires
            forall|c: &mut C| call.requires((c, symmetric_tag.0)),
        ensures
            exists|c: &mut C, reply: HostResult<()>|
                {
                    &&& *c == old(self).host() && *final(c) == final(self).host()
                    &&& #[trigger] call.ensures((c, symmetric_tag.0), reply)
                    &&& r == lifted(reply)
                },
    {
        lift(call(&mut self.ctx, symmetric_tag.0))
    }
}

} // verus!
