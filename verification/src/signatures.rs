//! Signatures and their verification.

use crate::convert::{host_signature_encoding};
use crate::ctx::WasiCryptoCtx;
use crate::error::{lift, lifted, WResult, WasiCryptoError};
use crate::host;
use crate::host::{Handle, HostResult};
use crate::memory::{
    bytes_fault, bytes_seen, read_bytes, read_str, text_fault, text_readable, text_seen,
};
use crate::types;
use crate::types::{
    ArrayOutput, GuestAddr, GuestStr, Signature, SignatureKeypair, SignaturePublickey,
    SignatureState, SignatureVerificationState, Size,
};
use vstd::prelude::*;
use wiggle::GuestMemory;

verus! {

impl<C> WasiCryptoCtx<C> {
    /// Exports a signature.
    pub fn signature_export<F>(
        &mut self,
        signature: Signature,
        encoding: types::SignatureEncoding,
        call: F,
    ) -> (r: WResult<ArrayOutput>) where
        F: FnOnce(&mut C, Handle, host::SignatureEncoding) -> HostResult<Handle>,
        requires
            forall|c: &mut C| call.requires((c, signature.0, host_signature_encoding(encoding))),
        ensures
            exists|c: &mut C, reply: HostResult<Handle>|
                {
                    &&& *c == old(self).host() && *final(c) == final(self).host()
                    &&& #[trigger] call.ensures(
                        (c, signature.0, host_signature_encoding(encoding)),
                        reply,
                    )
                    &&& r == match reply {
                        Ok(h) => Ok(ArrayOutput(h)),
                        Err(e) => Err(WasiCryptoError::Crypto(e)),
                    }
                },
    {
        match call(&mut self.ctx, signature.0, host::SignatureEncoding::from(encoding)) {
            Ok(h) => Ok(ArrayOutput(h)),
            Err(e) => Err(WasiCryptoError::from(e)),
        }
    }

    /// Imports an encoded signature.
    pub fn signature_import<F>(
        &mut self,
        mem: &GuestMemory<'_>,
        algorithm: GuestStr,
        encoded: GuestAddr,
        encoded_len: Size,
        encoding: types::SignatureEncoding,
        call: F,
    ) -> (r: WResult<Signature>) where
        F: FnOnce(&mut C, &str, &[u8], host::SignatureEncoding) -> HostResult<Handle>,
        requires
            forall|c: &mut C, alg: &str, bytes: &[u8]|
                call.requires((c, alg, bytes, host_signature_encoding(encoding))),
        ensures
            match r {
                Err(WasiCryptoError::Guest(e)) => {
                    &&& {
                        ||| text_fault(*mem, algorithm, e)
                        ||| {
                            &&& text_readable(*mem, algorithm)
                            &&& bytes_fault(*mem, encoded, encoded_len, e)
                        }
                    }
                    &&& final(self).host() == old(self).host()
                },
                _ => exists|c: &mut C, alg: &str, bytes: &[u8], reply: HostResult<Handle>|
                    {
                        &&& *c == old(self).host() && *final(c) == final(self).host()
                        &&& text_seen(*mem, algorithm, alg@)
                        &&& bytes_seen(*mem, encoded, encoded_len, bytes@)
                        &&& #[trigger] call.ensures(
                            (c, alg, bytes, host_signature_encoding(encoding)),
                            reply,
                        )
                        &&& r == match reply {
                            Ok(h) => Ok(Signature(h)),
                            Err(e) => Err(WasiCryptoError::Crypto(e)),
                        }
                    },
            },
    {
        let alg: String = match read_str(mem, algorithm) {
            Ok(text) => text,
            Err(e) => return Err(e),
        };
        let bytes: Vec<u8> = match read_bytes(mem, encoded, encoded_len) {
            Ok(data) => data,
            Err(e) => return Err(e),
        };
        match call(
            &mut self.ctx,
            alg.as_str(),
            bytes.as_slice(),
            host::SignatureEncoding::from(encoding),
        ) {
            Ok(h) => Ok(Signature(h)),
            Err(e) => Err(WasiCryptoError::from(e)),
        }
    }

    /// Begins a signature.
    pub fn signature_state_open<F>(
        &mut self,
        kp: SignatureKeypair,
        call: F,
    ) -> (r: WResult<SignatureState>) where
        F: FnOnce(&mut C, Handle) -> HostResult<Handle>,
        requires
            forall|c: &mut C| call.requires((c, kp.0)),
        ensures
            exists|c: &mut C, reply: HostResult<Handle>|
                {
                    &&& *c == old(self).host() && *final(c) == final(self).host()
                    &&& #[trigger] call.ensures((c, kp.0), reply)
                    &&& r == match reply {
                        Ok(h) => Ok(SignatureState(h)),
                        Err(e) => Err(WasiCryptoError::Crypto(e)),
                    }
                },
    {
        match call(&mut self.ctx, kp.0) {
            Ok(h) => Ok(SignatureState(h)),
            Err(e) => Err(WasiCryptoError::from(e)),
        }
    }

    /// Adds bytes to what is signed.
    pub fn signature_state_update<F>(
        &mut self,
        mem: &GuestMemory<'_>,
        state: SignatureState,
        input: GuestAddr,
        input_len: Size,
        call: F,
    ) -> (r: WResult<()>) where
        F: FnOnce(&mut C, Handle, &[u8]) -> HostResult<()>,
        requires
            forall|c: &mut C, bytes: &[u8]| call.requires((c, state.0, bytes)),
        ensures
            match r {
                Err(WasiCryptoError::Guest(e)) => {
                    &&& bytes_fault(*mem, input, input_len, e)
                    &&& final(self).host() == old(self).host()
                },
                _ => exists|c: &mut C, bytes: &[u8], reply: HostResult<()>|
                    {
                        &&& *c == old(self).host() && *final(c) == final(self).host()
                        &&& bytes_seen(*mem, input, input_len, bytes@)
                        &&& #[trigger] call.ensures((c, state.0, bytes), reply)
                        &&& r == lifted(reply)
                    },
            },
    {
        let bytes: Vec<u8> = match read_bytes(mem, input, input_len) {
            Ok(data) => data,
            Err(e) => return Err(e),
        };
        lift(call(&mut self.ctx, state.0, bytes.as_slice()))
    }

    /// Signs what has been added.
    pub fn signature_state_sign<F>(
        &mut self,
        state: SignatureState,
        call: F,
    ) -> (r: WResult<ArrayOutput>) where
        F: FnOnce(&mut C, Handle) -> HostResult<Handle>,
        requires
            forall|c: &mut C| call.requires((c, state.0)),
        ensures
            exists|c: &mut C, reply: HostResult<Handle>|
                {
                    &&& *c == old(self).host() && *final(c) == final(self).host()
                    &&& #[trigger] call.ensures((c, state.0), reply)
                    &&& r == match reply {
                        Ok(h) => Ok(ArrayOutput(h)),
                        Err(e) => Err(WasiCryptoError::Crypto(e)),
                    }
                },
    {
        match call(&mut self.ctx, state.0) {
            Ok(h) => Ok(ArrayOutput(h)),
            Err(e) => Err(WasiCryptoError::from(e)),
        }
    }

    /// Closes a signature in the making.
    pub fn signature_state_close<F>(
        &mut self,
        state: SignatureState,
        call: F,
    ) -> (r: WResult<()>) where
        F: FnOnce(&mut C, Handle) -> HostResult<()>,
        requires
            forall|c: &mut C| call.requires((c, state.0)),
        ensures
            exists|c: &mut C, reply: HostResult<()>|
                {
                    &&& *c == old(self).host() && *final(c) == final(self).host()
                    &&& #[trigger] call.ensures((c, state.0), reply)
                    &&& r == lifted(reply)
                },
    {
        lift(call(&mut self.ctx, state.0))
    }

    /// Begins the verification of a signature.
    pub fn signature_verification_state_open<F>(
        &mut self,
        kp: SignaturePublickey,
        call: F,
    ) -> (r: WResult<SignatureVerificationState>) where
        F: FnOnce(&mut C, Handle) -> HostResult<Handle>,
        requires
            forall|c: &mut C| call.requires((c, kp.0)),
        ensures
            exists|c: &mut C, reply: HostResult<Handle>|
                {
                    &&& *c == old(self).host() && *final(c) == final(self).host()
                    &&& #[trigger] call.ensures((c, kp.0), reply)
                    &&& r == match reply {
                        Ok(h) => Ok(SignatureVerificationState(h)),
                        Err(e) => Err(WasiCryptoError::Crypto(e)),
                    }
                },
    {
        match call(&mut self.ctx, kp.0) {
            Ok(h) => Ok(SignatureVerificationState(h)),
            Err(e) => Err(WasiCryptoError::from(e)),
        }
    }

    /// Adds bytes to what was signed.
    pub fn signature_verification_state_update<F>(
        &mut self,
        mem: &GuestMemory<'_>,
        state: SignatureVerificationState,
        input: GuestAddr,
        input_len: Size,
        call: F,
    ) -> (r: WResult<()>) where
        F: FnOnce(&mut C, Handle, &[u8]) -> HostResult<()>,
        requires
            forall|c: &mut C, bytes: &[u8]| call.requires((c, state.0, bytes)),
        ensures
            match r {
                Err(WasiCryptoError::Guest(e)) => {
                    &&& bytes_fault(*mem, input, input_len, e)
                    &&& final(self).host() == old(self).host()
                },
                _ => exists|c: &mut C, bytes: &[u8], reply: HostResult<()>|
                    {
                        &&& *c == old(self).host() && *final(c) == final(self).host()
                        &&& bytes_seen(*mem, input, input_len, bytes@)
                        &&& #[trigger] call.ensures((c, state.0, bytes), reply)
                        &&& r == lifted(reply)
                    },
            },
    {
        let bytes: Vec<u8> = match read_bytes(mem, input, input_len) {
            Ok(data) => data,
            Err(e) => return Err(e),
        };
        lift(call(&mut self.ctx, state.0, bytes.as_slice()))
    }

    /// Verifies a signature of what has been added.
    pub fn signature_verification_state_verify<F>(
        &mut self,
        state: SignatureVerificationState,
        signature: Signature,
        call: F,
    ) -> (r: WResult<()>) where
        F: FnOnce(&mut C, Handle, Handle) -> HostResult<()>,
        requires
            forall|c: &mut C| call.requires((c, state.0, signature.0)),
        ensures
            exists|c: &mut C, reply: HostResult<()>|
                {
                    &&& *c == old(self).host() && *final(c) == final(self).host()
                    &&& #[trigger] call.ensures((c, state.0, signature.0), reply)
                    &&& r == lifted(reply)
                },
    {
        lift(call(&mut self.ctx, state.0, signature.0))
    }

    /// Closes a verification.
    pub fn signature_verification_state_close<F>(
        &mut self,
        state: SignatureVerificationState,
        call: F,
    ) -> (r: WResult<()>) where
        F: FnOnce(&mut C, Handle) -> HostResult<()>,
        requires
            forall|c: &mut C| call.requires((c, state.0)),
        ensures
            exists|c: &mut C, reply: HostResult<()>|
                {
                    &&& *c == old(self).host() && *final(c) == final(self).host()
                    &&& #[trigger] call.ensures((c, state.0), reply)
                    &&& r == lifted(reply)
                },
    {
        lift(call(&mut self.ctx, state.0))
    }

    /// Closes a signature.
    pub fn signature_close<F>(
        &mut self,
        signature: Signature,
        call: F,
    ) -> (r: WResult<()>) where
        F: FnOnce(&mut C, Handle) -> HostResult<()>,
        requires
            forall|c: &mut C| call.requires((c, signature.0)),
        ensures
            exists|c: &mut C, reply: HostResult<()>|
                {
                    &&& *c == old(self).host() && *final(c) == final(self).host()
                    &&& #[trigger] call.ensures((c, signature.0), reply)
                    &&& r == lifted(reply)
                },
    {
        lift(call(&mut self.ctx, signature.0))
    }
}

} // verus!
