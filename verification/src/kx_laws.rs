//! What the functions on key exchange do, each
//! stated of a call in terms of the bytes in guest memory, the host function's contract
//! and the result.

use crate::ctx::WasiCryptoCtx;
use crate::error::{WResult, WasiCryptoError};
use crate::host::{Handle, HostResult};
use crate::memory::{bounds_error, guest_bytes, guest_shared};
use crate::types::{ArrayOutput, GuestAddr, Publickey, Secretkey, Size};
use vstd::prelude::*;
use wiggle::GuestMemory;

verus! {

/// `kx_dh` calls the host once, on the guest's own handles and values; it hands on the
/// reply.
pub proof fn law_kx_dh<C, F>(
    ctx: &mut WasiCryptoCtx<C>,
    pk: Publickey,
    sk: Secretkey,
    call: F,
    r: WResult<ArrayOutput>,
) where
    F: FnOnce(&mut C, Handle, Handle) -> HostResult<Handle>,
    requires
        call_ensures(WasiCryptoCtx::<C>::kx_dh::<F>, (ctx, pk, sk, call), r),
    ensures
        exists|c: &mut C, reply: HostResult<Handle>|
            {
                &&& *c == old(ctx).host() && *final(c) == final(ctx).host()
                &&& #[trigger] call.ensures((c, pk.0, sk.0), reply)
                &&& r == match reply {
                    Ok(h) => Ok(ArrayOutput(h)),
                    Err(e) => Err(WasiCryptoError::Crypto(e)),
                }
            },
{
}

/// `kx_encapsulate` calls the host once, on the guest's own handles and values; it
/// hands on the reply.
pub proof fn law_kx_encapsulate<C, F>(
    ctx: &mut WasiCryptoCtx<C>,
    pk: Publickey,
    call: F,
    r: WResult<(ArrayOutput, ArrayOutput)>,
) where
    F: FnOnce(&mut C, Handle) -> HostResult<(Handle, Handle)>,
    requires
        call_ensures(WasiCryptoCtx::<C>::kx_encapsulate::<F>, (ctx, pk, call), r),
    ensures
        exists|c: &mut C, reply: HostResult<(Handle, Handle)>|
            {
                &&& *c == old(ctx).host() && *final(c) == final(ctx).host()
                &&& #[trigger] call.ensures((c, pk.0), reply)
                &&& r == match reply {
                    Ok((secret, encapsulated)) => Ok(
                        (ArrayOutput(secret), ArrayOutput(encapsulated)),
                    ),
                    Err(e) => Err(WasiCryptoError::Crypto(e)),
                }
            },
{
}

/// `kx_decapsulate` reads its input from guest memory, faults exactly where the input
/// does not lie there and then leaves the host alone, and otherwise calls the host
/// once, on what it read; it hands on the reply.
pub proof fn law_kx_decapsulate<C, F>(
    ctx: &mut WasiCryptoCtx<C>,
    mem: &GuestMemory<'_>,
    sk: Secretkey,
    encapsulated_secret: GuestAddr,
    encapsulated_secret_len: Size,
    call: F,
    r: WResult<ArrayOutput>,
) where
    F: FnOnce(&mut C, Handle, &[u8]) -> HostResult<Handle>,
    requires
        guest_bytes(*mem).len() <= usize::MAX,
        call_ensures(
            WasiCryptoCtx::<C>::kx_decapsulate::<F>,
            (ctx, mem, sk, encapsulated_secret, encapsulated_secret_len, call),
            r,
        ),
    ensures
        match r {
            Err(WasiCryptoError::Guest(e)) => {
                &&& final(ctx).host() == old(ctx).host()
                &&& {
                    ||| {
                        &&& encapsulated_secret + encapsulated_secret_len > guest_bytes(*mem).len()
                        &&& e == bounds_error(encapsulated_secret, encapsulated_secret_len)
                    }
                }
            },
            _ => exists|c: &mut C, bytes: &[u8], reply: HostResult<Handle>|
                {
                    &&& *c == old(ctx).host() && *final(c) == final(ctx).host()
                    &&& encapsulated_secret + encapsulated_secret_len <= guest_bytes(*mem).len()
                    &&& bytes@.len() == encapsulated_secret_len
                    &&& !guest_shared(*mem) ==> bytes@ == guest_bytes(*mem).subrange(
                        encapsulated_secret as int,
                        encapsulated_secret + encapsulated_secret_len,
                    )
                    &&& #[trigger] call.ensures((c, sk.0, bytes), reply)
                    &&& r == match reply {
                        Ok(h) => Ok(ArrayOutput(h)),
                        Err(e) => Err(WasiCryptoError::Crypto(e)),
                    }
                },
        },
{
}

} // verus!
