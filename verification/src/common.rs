//! Options, array outputs and secrets managers.

use crate::convert::{host_algorithm_type, opt_options, options_handle};
use crate::ctx::WasiCryptoCtx;
use crate::error::{lift, lifted, WResult, WasiCryptoError};
use crate::host;
use crate::host::{Handle, HostResult};
use crate::memory::{
    buffer_lent, buffer_returned, bytes_fault, bytes_seen, fill_out_buf, guest_shared, read_bytes,
    read_str, same_guest, tell_size, text_fault, text_readable, text_seen, told,
};
use crate::types;
use crate::types::{ArrayOutput, GuestAddr, GuestStr, OptOptions, Options, SecretsManager, Size};
use vstd::prelude::*;
use wiggle::GuestMemory;

verus! {

impl<C> WasiCryptoCtx<C> {
    /// Opens a set of options for a family of algorithms.
    pub fn options_open<F>(
        &mut self,
        algorithm_type: types::AlgorithmType,
        call: F,
    ) -> (r: WResult<Options>) where
        F: FnOnce(&mut C, host::AlgorithmType) -> HostResult<Handle>,
        requires
            forall|c: &mut C| call.requires((c, host_algorithm_type(algorithm_type))),
        ensures
            exists|c: &mut C, reply: HostResult<Handle>|
                {
                    &&& *c == old(self).host() && *final(c) == final(self).host()
                    &&& #[trigger] call.ensures((c, host_algorithm_type(algorithm_type)), reply)
                    &&& r == match reply {
                        Ok(h) => Ok(Options(h)),
                        Err(e) => Err(WasiCryptoError::Crypto(e)),
                    }
                },
    {
        match call(&mut self.ctx, host::AlgorithmType::from(algorithm_type)) {
            Ok(h) => Ok(Options(h)),
            Err(e) => Err(WasiCryptoError::from(e)),
        }
    }

    /// Closes a set of options.
    pub fn options_close<F>(
        &mut self,
        handle: Options,
        call: F,
    ) -> (r: WResult<()>) where
        F: FnOnce(&mut C, Handle) -> HostResult<()>,
        requires
            forall|c: &mut C| call.requires((c, handle.0)),
        ensures
            exists|c: &mut C, reply: HostResult<()>|
                {
                    &&& *c == old(self).host() && *final(c) == final(self).host()
                    &&& #[trigger] call.ensures((c, handle.0), reply)
                    &&& r == lifted(reply)
                },
    {
        lift(call(&mut self.ctx, handle.0))
    }

    /// Sets an option to bytes of the guest.
    pub fn options_set<F>(
        &mut self,
        mem: &GuestMemory<'_>,
        handle: Options,
        name: GuestStr,
        value: GuestAddr,
        value_len: Size,
        call: F,
    ) -> (r: WResult<()>) where
        F: FnOnce(&mut C, Handle, &str, &[u8]) -> HostResult<()>,
        requires
            forall|c: &mut C, text: &str, bytes: &[u8]| call.requires((c, handle.0, text, bytes)),
        ensures
            match r {
                Err(WasiCryptoError::Guest(e)) => {
                    &&& {
                        ||| text_fault(*mem, name, e)
                        ||| text_readable(*mem, name) && bytes_fault(*mem, value, value_len, e)
                    }
                    &&& final(self).host() == old(self).host()
                },
                _ => exists|c: &mut C, text: &str, bytes: &[u8], reply: HostResult<()>|
                    {
                        &&& *c == old(self).host() && *final(c) == final(self).host()
                        &&& text_seen(*mem, name, text@)
                        &&& bytes_seen(*mem, value, value_len, bytes@)
                        &&& #[trigger] call.ensures((c, handle.0, text, bytes), reply)
                        &&& r == lifted(reply)
                    },
            },
    {
        let text: String = match read_str(mem, name) {
            Ok(text) => text,
            Err(e) => return Err(e),
        };
        let bytes: Vec<u8> = match read_bytes(mem, value, value_len) {
            Ok(data) => data,
            Err(e) => return Err(e),
        };
        lift(call(&mut self.ctx, handle.0, text.as_str(), bytes.as_slice()))
    }

    /// Sets an option to a number.
    pub fn options_set_u64<F>(
        &mut self,
        mem: &GuestMemory<'_>,
        handle: Options,
        name: GuestStr,
        value: u64,
        call: F,
    ) -> (r: WResult<()>) where
        F: FnOnce(&mut C, Handle, &str, u64) -> HostResult<()>,
        requires
            forall|c: &mut C, text: &str| call.requires((c, handle.0, text, value)),
        ensures
            match r {
                Err(WasiCryptoError::Guest(e)) => {
                    &&& text_fault(*mem, name, e)
                    &&& final(self).host() == old(self).host()
                },
                _ => exists|c: &mut C, text: &str, reply: HostResult<()>|
                    {
                        &&& *c == old(self).host() && *final(c) == final(self).host()
                        &&& text_seen(*mem, name, text@)
                        &&& #[trigger] call.ensures((c, handle.0, text, value), reply)
                        &&& r == lifted(reply)
                    },
            },
    {
        let text: String = match read_str(mem, name) {
            Ok(text) => text,
            Err(e) => return Err(e),
        };
        lift(call(&mut self.ctx, handle.0, text.as_str(), value))
    }

    /// Accepts a buffer of the guest as the value of an option. No algorithm reads such
    /// a buffer back, so the name is read and nothing is stored: neither the host
    /// nor the buffer is touched.
    pub fn options_set_guest_buffer(
        &mut self,
        mem: &GuestMemory<'_>,
        _handle: Options,
        name: GuestStr,
        _buffer: GuestAddr,
        _buffer_len: Size,
    ) -> (r: WResult<()>)
        ensures
            final(self).host() == old(self).host(),
            match r {
                Ok(()) => text_readable(*mem, name),
                Err(WasiCryptoError::Guest(e)) => text_fault(*mem, name, e),
                Err(WasiCryptoError::Crypto(_)) => false,
            },
    {
        match read_str(mem, name) {
            Ok(_) => Ok(()),
            Err(e) => Err(e),
        }
    }

    /// Returns how many bytes an array output holds.
    pub fn array_output_len<F>(
        &mut self,
        array_output: ArrayOutput,
        call: F,
    ) -> (r: WResult<Size>) where
        F: FnOnce(&mut C, Handle) -> HostResult<usize>,
        requires
            forall|c: &mut C| call.requires((c, array_output.0)),
        ensures
            exists|c: &mut C, reply: HostResult<usize>|
                {
                    &&& *c == old(self).host() && *final(c) == final(self).host()
                    &&& #[trigger] call.ensures((c, array_output.0), reply)
                    &&& r == told(reply)
                },
    {
        match call(&mut self.ctx, array_output.0) {
            Ok(n) => Ok(tell_size(n)),
            Err(e) => Err(WasiCryptoError::from(e)),
        }
    }

    /// Copies an array output into the guest's buffer and returns the number of bytes.
    pub fn array_output_pull<F>(
        &mut self,
        mem: &mut GuestMemory<'_>,
        array_output: ArrayOutput,
        buf: GuestAddr,
        buf_len: Size,
        call: F,
    ) -> (r: WResult<Size>) where
        F: FnOnce(&mut C, Handle, &mut [u8]) -> HostResult<usize>,
        requires
            forall|c: &mut C, buffer: &mut [u8]| call.requires((c, array_output.0, buffer)),
            guest_shared(*old(mem)) ==> forall|c: &mut C, buffer: &mut [u8], n: usize|
                call.ensures((c, array_output.0, buffer), Ok(n)) ==> n <= final(buffer)@.len(),
        ensures
            match r {
                Err(WasiCryptoError::Guest(e)) => {
                    &&& bytes_fault(*old(mem), buf, buf_len, e)
                    &&& final(self).host() == old(self).host()
                    &&& same_guest(*old(mem), *final(mem))
                },
                _ => exists|c: &mut C, buffer: &mut [u8], reply: HostResult<usize>|
                    {
                        &&& *c == old(self).host() && *final(c) == final(self).host()
                        &&& buffer_lent(*old(mem), buf, buf_len, buffer@)
                        &&& #[trigger] call.ensures((c, array_output.0, buffer), reply)
                        &&& buffer_returned(
                            *old(mem),
                            *final(mem),
                            buf,
                            buf_len,
                            final(buffer)@,
                            reply,
                            r,
                        )
                    },
            },
    {
        let fill = |c: &mut C, out: &mut [u8]| -> (reply: HostResult<usize>)
            ensures
                exists|host: &mut C, buffer: &mut [u8]|
                    *host == *old(c) && *final(host) == *final(c) && buffer@ == old(out)@
                        && final(buffer)@ == final(out)@
                        && #[trigger] call.ensures((host, array_output.0, buffer), reply),
        {
            call(c, array_output.0, out)
        };
        fill_out_buf(&mut self.ctx, mem, buf, buf_len, fill)
    }

    /// Opens a secrets manager.
    pub fn secrets_manager_open<F>(
        &mut self,
        options: &OptOptions,
        call: F,
    ) -> (r: WResult<SecretsManager>) where
        F: FnOnce(&mut C, Option<Handle>) -> HostResult<Handle>,
        requires
            forall|c: &mut C| call.requires((c, options_handle(*options))),
        ensures
            exists|c: &mut C, reply: HostResult<Handle>|
                {
                    &&& *c == old(self).host() && *final(c) == final(self).host()
                    &&& #[trigger] call.ensures((c, options_handle(*options)), reply)
                    &&& r == match reply {
                        Ok(h) => Ok(SecretsManager(h)),
                        Err(e) => Err(WasiCryptoError::Crypto(e)),
                    }
                },
    {
        match call(&mut self.ctx, opt_options(options)) {
            Ok(h) => Ok(SecretsManager(h)),
            Err(e) => Err(WasiCryptoError::from(e)),
        }
    }

    /// Closes a secrets manager.
    pub fn secrets_manager_close<F>(
        &mut self,
        secrets_manager: SecretsManager,
        call: F,
    ) -> (r: WResult<()>) where
        F: FnOnce(&mut C, Handle) -> HostResult<()>,
        requires
            forall|c: &mut C| call.requires((c, secrets_manager.0)),
        ensures
            exists|c: &mut C, reply: HostResult<()>|
                {
                    &&& *c == old(self).host() && *final(c) == final(self).host()
                    &&& #[trigger] call.ensures((c, secrets_manager.0), reply)
                    &&& r == lifted(reply)
                },
    {
        lift(call(&mut self.ctx, secrets_manager.0))
    }

    /// Invalidates a version of a managed key.
    pub fn secrets_manager_invalidate<F>(
        &mut self,
        mem: &GuestMemory<'_>,
        secrets_manager: SecretsManager,
        key_id: GuestAddr,
        key_id_len: Size,
        key_version: types::Version,
        call: F,
    ) -> (r: WResult<()>) where
        F: FnOnce(&mut C, Handle, &[u8], host::Version) -> HostResult<()>,
        requires
            forall|c: &mut C, bytes: &[u8]|
                call.requires((c, secrets_manager.0, bytes, host::Version(key_version))),
        ensures
            match r {
                Err(WasiCryptoError::Guest(e)) => {
                    &&& bytes_fault(*mem, key_id, key_id_len, e)
                    &&& final(self).host() == old(self).host()
                },
                _ => exists|c: &mut C, bytes: &[u8], reply: HostResult<()>|
                    {
                        &&& *c == old(self).host() && *final(c) == final(self).host()
                        &&& bytes_seen(*mem, key_id, key_id_len, bytes@)
                        &&& #[trigger] call.ensures(
                            (c, secrets_manager.0, bytes, host::Version(key_version)),
                            reply,
                        )
                        &&& r == lifted(reply)
                    },
            },
    {
        let bytes: Vec<u8> = match read_bytes(mem, key_id, key_id_len) {
            Ok(data) => data,
            Err(e) => return Err(e),
        };
        lift(call(&mut self.ctx, secrets_manager.0, bytes.as_slice(), host::Version(key_version)))
    }
}

} // verus!
