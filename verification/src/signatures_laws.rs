//! What the functions on signatures and their verification do, each
//! stated of a call in terms of the bytes in guest memory, the host function's contract
//! and the result.

use crate::ctx::WasiCryptoCtx;
use crate::error::{WResult, WasiCryptoError};
use crate::host;
use crate::host::{Handle, HostResult};
use crate::memory::{bounds_error, guest_bytes, guest_shared, utf8_error};
use crate::types;
use crate::types::{
    ArrayOutput, GuestAddr, GuestStr, Signature, SignatureKeypair, SignaturePublickey,
    SignatureState, SignatureVerificationState, Size,
};
use vstd::prelude::*;
use vstd::utf8::{encode_utf8, encode_utf8_valid_utf8, valid_utf8};
use wiggle::GuestMemory;

verus! {

/// `signature_export` calls the host once, on the guest's own handles and values; it
/// hands on the reply.
pub proof fn law_signature_export<C, F>(
    ctx: &mut WasiCryptoCtx<C>,
    signature: Signature,
    encoding: types::SignatureEncoding,
    call: F,
    r: WResult<ArrayOutput>,
) where
    F: FnOnce(&mut C, Handle, host::SignatureEncoding) -> HostResult<Handle>,
    requires
        call_ensures(
            WasiCryptoCtx::<C>::signature_export::<F>,
            (ctx, signature, encoding, call),
            r,
        ),
    ensures
        exists|c: &mut C, format: host::SignatureEncoding, reply: HostResult<Handle>|
            {
                &&& *c == old(ctx).host() && *final(c) == final(ctx).host()
                &&& (format is Raw <==> encoding is Raw)
                &&& (format is Der <==> encoding is Der)
                &&& #[trigger] call.ensures((c, signature.0, format), reply)
                &&& r == match reply {
                    Ok(h) => Ok(ArrayOutput(h)),
                    Err(e) => Err(WasiCryptoError::Crypto(e)),
                }
            },
{
}

/// `signature_import` reads its input from guest memory, faults exactly where the input
/// does not lie there or is no text and then leaves the host alone, and otherwise calls
/// the host once, on what it read; it hands on the reply.
pub proof fn law_signature_import<C, F>(
    ctx: &mut WasiCryptoCtx<C>,
    mem: &GuestMemory<'_>,
    algorithm: GuestStr,
    encoded: GuestAddr,
    encoded_len: Size,
    encoding: types::SignatureEncoding,
    call: F,
    r: WResult<Signature>,
) where
    F: FnOnce(&mut C, &str, &[u8], host::SignatureEncoding) -> HostResult<Handle>,
    requires
        guest_bytes(*mem).len() <= usize::MAX,
        call_ensures(
            WasiCryptoCtx::<C>::signature_import::<F>,
            (ctx, mem, algorithm, encoded, encoded_len, encoding, call),
            r,
        ),
    ensures
        match r {
            Err(WasiCryptoError::Guest(e)) => {
                &&& final(ctx).host() == old(ctx).host()
                &&& {
                    ||| {
                        &&& algorithm.ptr + algorithm.len > guest_bytes(*mem).len()
                        &&& e == bounds_error(algorithm.ptr, algorithm.len)
                    }
                    ||| {
                        &&& algorithm.ptr + algorithm.len <= guest_bytes(*mem).len()
                        &&& exists|data: Seq<u8>|
                            {
                                &&& e == #[trigger] utf8_error(data)
                                &&& data.len() == algorithm.len && !valid_utf8(data)
                                &&& !guest_shared(*mem) ==> data == guest_bytes(*mem).subrange(
                                    algorithm.ptr as int,
                                    algorithm.ptr + algorithm.len,
                                )
                            }
                    }
                    ||| {
                        &&& algorithm.ptr + algorithm.len <= guest_bytes(*mem).len()
                        &&& !guest_shared(*mem) ==> valid_utf8(
                            guest_bytes(*mem).subrange(
                                algorithm.ptr as int,
                                algorithm.ptr + algorithm.len,
                            ),
                        )
                        &&& encoded + encoded_len > guest_bytes(*mem).len()
                        &&& e == bounds_error(encoded, encoded_len)
                    }
                }
            },
            _ => exists|
                c: &mut C,
                alg: &str,
                bytes: &[u8],
                format: host::SignatureEncoding,
                reply: HostResult<Handle>,
            |
                {
                    &&& *c == old(ctx).host() && *final(c) == final(ctx).host()
                    &&& algorithm.ptr + algorithm.len <= guest_bytes(*mem).len()
                    &&& encode_utf8(alg@).len() == algorithm.len
                    &&& !guest_shared(*mem) ==> encode_utf8(alg@) == guest_bytes(
                        *mem,
                    ).subrange(algorithm.ptr as int, algorithm.ptr + algorithm.len)
                    &&& encoded + encoded_len <= guest_bytes(*mem).len()
                    &&& bytes@.len() == encoded_len
                    &&& !guest_shared(*mem) ==> bytes@ == guest_bytes(*mem).subrange(
                        encoded as int,
                        encoded + encoded_len,
                    )
                    &&& (format is Raw <==> encoding is Raw)
                    &&& (format is Der <==> encoding is Der)
                    &&& #[trigger] call.ensures((c, alg, bytes, format), reply)
                    &&& r == match reply {
                        Ok(h) => Ok(Signature(h)),
                        Err(e) => Err(WasiCryptoError::Crypto(e)),
                    }
                },
        },
{
    broadcast use encode_utf8_valid_utf8;

}

/// `signature_state_open` calls the host once, on the guest's own handles and values;
/// it hands on the reply.
pub proof fn law_signature_state_open<C, F>(
    ctx: &mut WasiCryptoCtx<C>,
    kp: SignatureKeypair,
    call: F,
    r: WResult<SignatureState>,
) where
    F: FnOnce(&mut C, Handle) -> HostResult<Handle>,
    requires
        call_ensures(WasiCryptoCtx::<C>::signature_state_open::<F>, (ctx, kp, call), r),
    ensures
        exists|c: &mut C, reply: HostResult<Handle>|
            {
                &&& *c == old(ctx).host() && *final(c) == final(ctx).host()
                &&& #[trigger] call.ensures((c, kp.0), reply)
                &&& r == match reply {
                    Ok(h) => Ok(SignatureState(h)),
                    Err(e) => Err(WasiCryptoError::Crypto(e)),
                }
            },
{
}

/// `signature_state_update` reads its input from guest memory, faults exactly where the
/// input does not lie there and then leaves the host alone, and otherwise calls the
/// host once, on what it read; it hands on the reply.
pub proof fn law_signature_state_update<C, F>(
    ctx: &mut WasiCryptoCtx<C>,
    mem: &GuestMemory<'_>,
    state: SignatureState,
    input: GuestAddr,
    input_len: Size,
    call: F,
    r: WResult<()>,
) where
    F: FnOnce(&mut C, Handle, &[u8]) -> HostResult<()>,
    requires
        guest_bytes(*mem).len() <= usize::MAX,
        call_ensures(
            WasiCryptoCtx::<C>::signature_state_update::<F>,
            (ctx, mem, state, input, input_len, call),
            r,
        ),
    ensures
        match r {
            Err(WasiCryptoError::Guest(e)) => {
                &&& final(ctx).host() == old(ctx).host()
                &&& {
                    ||| {
                        &&& input + input_len > guest_bytes(*mem).len()
                        &&& e == bounds_error(input, input_len)
                    }
                }
            },
            _ => exists|c: &mut C, bytes: &[u8], reply: HostResult<()>|
                {
                    &&& *c == old(ctx).host() && *final(c) == final(ctx).host()
                    &&& input + input_len <= guest_bytes(*mem).len()
                    &&& bytes@.len() == input_len
                    &&& !guest_shared(*mem) ==> bytes@ == guest_bytes(*mem).subrange(
                        input as int,
                        input + input_len,
                    )
                    &&& #[trigger] call.ensures((c, state.0, bytes), reply)
                    &&& r == match reply {
                        Ok(()) => Ok(()),
                        Err(e) => Err(WasiCryptoError::Crypto(e)),
                    }
                },
        },
{
}

/// `signature_state_sign` calls the host once, on the guest's own handles and values;
/// it hands on the reply.
pub proof fn law_signature_state_sign<C, F>(
    ctx: &mut WasiCryptoCtx<C>,
    state: SignatureState,
    call: F,
    r: WResult<ArrayOutput>,
) where
    F: FnOnce(&mut C, Handle) -> HostResult<Handle>,
    requires
        call_ensures(WasiCryptoCtx::<C>::signature_state_sign::<F>, (ctx, state, call), r),
    ensures
        exists|c: &mut C, reply: HostResult<Handle>|
            {
                &&& *c == old(ctx).host() && *final(c) == final(ctx).host()
                &&& #[trigger] call.ensures((c, state.0), reply)
                &&& r == match reply {
                    Ok(h) => Ok(ArrayOutput(h)),
                    Err(e) => Err(WasiCryptoError::Crypto(e)),
                }
            },
{
}

/// `signature_state_close` calls the host once, on the guest's own handles and values;
/// it hands on the reply.
pub proof fn law_signature_state_close<C, F>(
    ctx: &mut WasiCryptoCtx<C>,
    state: SignatureState,
    call: F,
    r: WResult<()>,
) where
    F: FnOnce(&mut C, Handle) -> HostResult<()>,
    requires
        call_ensures(WasiCryptoCtx::<C>::signature_state_close::<F>, (ctx, state, call), r),
    ensures
        exists|c: &mut C, reply: HostResult<()>|
            {
                &&& *c == old(ctx).host() && *final(c) == final(ctx).host()
                &&& #[trigger] call.ensures((c, state.0), reply)
                &&& r == match reply {
                    Ok(()) => Ok(()),
                    Err(e) => Err(WasiCryptoError::Crypto(e)),
                }
            },
{
}

/// `signature_verification_state_open` calls the host once, on the guest's own handles
/// and values; it hands on the reply.
pub proof fn law_signature_verification_state_open<C, F>(
    ctx: &mut WasiCryptoCtx<C>,
    kp: SignaturePublickey,
    call: F,
    r: WResult<SignatureVerificationState>,
) where
    F: FnOnce(&mut C, Handle) -> HostResult<Handle>,
    requires
        call_ensures(
            WasiCryptoCtx::<C>::signature_verification_state_open::<F>,
            (ctx, kp, call),
            r,
        ),
    ensures
        exists|c: &mut C, reply: HostResult<Handle>|
            {
                &&& *c == old(ctx).host() && *final(c) == final(ctx).host()
                &&& #[trigger] call.ensures((c, kp.0), reply)
                &&& r == match reply {
                    Ok(h) => Ok(SignatureVerificationState(h)),
                    Err(e) => Err(WasiCryptoError::Crypto(e)),
                }
            },
{
}

/// `signature_verification_state_update` reads its input from guest memory, faults
/// exactly where the input does not lie there and then leaves the host alone, and
/// otherwise calls the host once, on what it read; it hands on the reply.
pub proof fn law_signature_verification_state_update<C, F>(
    ctx: &mut WasiCryptoCtx<C>,
    mem: &GuestMemory<'_>,
    state: SignatureVerificationState,
    input: GuestAddr,
    input_len: Size,
    call: F,
    r: WResult<()>,
) where
    F: FnOnce(&mut C, Handle, &[u8]) -> HostResult<()>,
    requires
        guest_bytes(*mem).len() <= usize::MAX,
        call_ensures(
            WasiCryptoCtx::<C>::signature_verification_state_update::<F>,
            (ctx, mem, state, input, input_len, call),
            r,
        ),
    ensures
        match r {
            Err(WasiCryptoError::Guest(e)) => {
                &&& final(ctx).host() == old(ctx).host()
                &&& {
                    ||| {
                        &&& input + input_len > guest_bytes(*mem).len()
                        &&& e == bounds_error(input, input_len)
                    }
                }
            },
            _ => exists|c: &mut C, bytes: &[u8], reply: HostResult<()>|
                {
                    &&& *c == old(ctx).host() && *final(c) == final(ctx).host()
                    &&& input + input_len <= guest_bytes(*mem).len()
                    &&& bytes@.len() == input_len
                    &&& !guest_shared(*mem) ==> bytes@ == guest_bytes(*mem).subrange(
                        input as int,
                        input + input_len,
                    )
                    &&& #[trigger] call.ensures((c, state.0, bytes), reply)
                    &&& r == match reply {
                        Ok(()) => Ok(()),
                        Err(e) => Err(WasiCryptoError::Crypto(e)),
                    }
                },
        },
{
}

/// `signature_verification_state_verify` calls the host once, on the guest's own
/// handles and values; it hands on the reply.
pub proof fn law_signature_verification_state_verify<C, F>(
    ctx: &mut WasiCryptoCtx<C>,
    state: SignatureVerificationState,
    signature: Signature,
    call: F,
    r: WResult<()>,
) where
    F: FnOnce(&mut C, Handle, Handle) -> HostResult<()>,
    requires
        call_ensures(
            WasiCryptoCtx::<C>::signature_verification_state_verify::<F>,
            (ctx, state, signature, call),
            r,
        ),
    ensures
        exists|c: &mut C, reply: HostResult<()>|
            {
                &&& *c == old(ctx).host() && *final(c) == final(ctx).host()
                &&& #[trigger] call.ensures((c, state.0, signature.0), reply)
                &&& r == match reply {
                    Ok(()) => Ok(()),
                    Err(e) => Err(WasiCryptoError::Crypto(e)),
                }
            },
{
}

/// `signature_verification_state_close` calls the host once, on the guest's own handles
/// and values; it hands on the reply.
pub proof fn law_signature_verification_state_close<C, F>(
    ctx: &mut WasiCryptoCtx<C>,
    state: SignatureVerificationState,
    call: F,
    r: WResult<()>,
) where
    F: FnOnce(&mut C, Handle) -> HostResult<()>,
    requires
        call_ensures(
            WasiCryptoCtx::<C>::signature_verification_state_close::<F>,
            (ctx, state, call),
            r,
        ),
    ensures
        exists|c: &mut C, reply: HostResult<()>|
            {
                &&& *c == old(ctx).host() && *final(c) == final(ctx).host()
                &&& #[trigger] call.ensures((c, state.0), reply)
                &&& r == match reply {
                    Ok(()) => Ok(()),
                    Err(e) => Err(WasiCryptoError::Crypto(e)),
                }
            },
{
}

/// `signature_close` calls the host once, on the guest's own handles and values; it
/// hands on the reply.
pub proof fn law_signature_close<C, F>(
    ctx: &mut WasiCryptoCtx<C>,
    signature: Signature,
    call: F,
    r: WResult<()>,
) where
    F: FnOnce(&mut C, Handle) -> HostResult<()>,
    requires
        call_ensures(WasiCryptoCtx::<C>::signature_close::<F>, (ctx, signature, call), r),
    ensures
        exists|c: &mut C, reply: HostResult<()>|
            {
                &&& *c == old(ctx).host() && *final(c) == final(ctx).host()
                &&& #[trigger] call.ensures((c, signature.0), reply)
                &&& r == match reply {
                    Ok(()) => Ok(()),
                    Err(e) => Err(WasiCryptoError::Crypto(e)),
                }
            },
{
}

} // verus!
