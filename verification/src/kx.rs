//! Key exchange.

use crate::ctx::WasiCryptoCtx;
use crate::error::{WResult, WasiCryptoError};
use crate::host::{Handle, HostResult};
use crate::memory::{bytes_fault, bytes_seen, read_bytes};
use crate::types::{ArrayOutput, GuestAddr, Publickey, Secretkey, Size};
use vstd::prelude::*;
use wiggle::GuestMemory;

verus! {

impl<C> WasiCryptoCtx<C> {
    /// Computes a shared secret from a public key and a secret key.
    pub fn kx_dh<F>(
        &mut self,
        pk: Publickey,
        sk: Secretkey,
        call: F,
    ) -> (r: WResult<ArrayOutput>) where
        F: FnOnce(&mut C, Handle, Handle) -> HostResult<Handle>,
        requires
            forall|c: &mut C| call.requires((c, pk.0, sk.0)),
        ensures
            exists|c: &mut C, reply: HostResult<Handle>|
                {
                    &&& *c == old(self).host() && *final(c) == final(self).host()
                    &&& #[trigger] call.ensures((c, pk.0, sk.0), reply)
                    &&& r == match reply {
                        Ok(h) => Ok(ArrayOutput(h)),
                        Err(e) => Err(WasiCryptoError::Crypto(e)),
                    }
                },
    {
        match call(&mut self.ctx, pk.0, sk.0) {
            Ok(h) => Ok(ArrayOutput(h)),
            Err(e) => Err(WasiCryptoError::from(e)),
        }
    }

    /// Makes a secret for the holder of a key and returns it with its encapsulation.
    pub fn kx_encapsulate<F>(
        &mut self,
        pk: Publickey,
        call: F,
    ) -> (r: WResult<(ArrayOutput, ArrayOutput)>) where
        F: FnOnce(&mut C, Handle) -> HostResult<(Handle, Handle)>,
        requires
            forall|c: &mut C| call.requires((c, pk.0)),
        ensures
            exists|c: &mut C, reply: HostResult<(Handle, Handle)>|
                {
                    &&& *c == old(self).host() && *final(c) == final(self).host()
                    &&& #[trigger] call.ensures((c, pk.0), reply)
                    &&& r == match reply {
                        Ok((secret, encapsulated)) => Ok(
                            (ArrayOutput(secret), ArrayOutput(encapsulated)),
                        ),
                        Err(e) => Err(WasiCryptoError::Crypto(e)),
                    }
                },
    {
        match call(&mut self.ctx, pk.0) {
            Ok((secret, encapsulated)) => Ok((ArrayOutput(secret), ArrayOutput(encapsulated))),
            Err(e) => Err(WasiCryptoError::from(e)),
        }
    }

    /// Recovers an encapsulated secret.
    pub fn kx_decapsulate<F>(
        &mut self,
        mem: &GuestMemory<'_>,
        sk: Secretkey,
        encapsulated_secret: GuestAddr,
        encapsulated_secret_len: Size,
        call: F,
    ) -> (r: WResult<ArrayOutput>) where
        F: FnOnce(&mut C, Handle, &[u8]) -> HostResult<Handle>,
        requires
            forall|c: &mut C, bytes: &[u8]| call.requires((c, sk.0, bytes)),
        ensures
            match r {
                Err(WasiCryptoError::Guest(e)) => {
                    &&& bytes_fault(*mem, encapsulated_secret, encapsulated_secret_len, e)
                    &&& final(self).host() == old(self).host()
                },
                _ => exists|c: &mut C, bytes: &[u8], reply: HostResult<Handle>|
                    {
                        &&& *c == old(self).host() && *final(c) == final(self).host()
                        &&& bytes_seen(*mem, encapsulated_secret, encapsulated_secret_len, bytes@)
                        &&& #[trigger] call.ensures((c, sk.0, bytes), reply)
                        &&& r == match reply {
                            Ok(h) => Ok(ArrayOutput(h)),
                            Err(e) => Err(WasiCryptoError::Crypto(e)),
                        }
                    },
            },
    {
        let bytes: Vec<u8> = match read_bytes(mem, encapsulated_secret, encapsulated_secret_len) {
            Ok(data) => data,
            Err(e) => return Err(e),
        };
        match call(&mut self.ctx, sk.0, bytes.as_slice()) {
            Ok(h) => Ok(ArrayOutput(h)),
            Err(e) => Err(WasiCryptoError::from(e)),
        }
    }
}

} // verus!
