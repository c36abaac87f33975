//! What the functions on options, array outputs and secrets managers do, each
//! stated of a call in terms of the bytes in guest memory, the host function's contract
//! and the result.

use crate::ctx::WasiCryptoCtx;
use crate::error::{WResult, WasiCryptoError};
use crate::host;
use crate::host::{CryptoError, Handle, HostResult};
use crate::memory::{bounds_error, guest_bytes, guest_sent, guest_shared, utf8_error};
use crate::types;
use crate::types::{ArrayOutput, GuestAddr, GuestStr, OptOptions, Options, SecretsManager, Size};
use vstd::prelude::*;
use vstd::utf8::{encode_utf8, encode_utf8_valid_utf8, valid_utf8};
use wiggle::GuestMemory;

verus! {

/// `options_open` calls the host once, on the guest's own handles and values; it hands
/// on the reply.
pub proof fn law_options_open<C, F>(
    ctx: &mut WasiCryptoCtx<C>,
    algorithm_type: types::AlgorithmType,
    call: F,
    r: WResult<Options>,
) where
    F: FnOnce(&mut C, host::AlgorithmType) -> HostResult<Handle>,
    requires
        call_ensures(WasiCryptoCtx::<C>::options_open::<F>, (ctx, algorithm_type, call), r),
    ensures
        exists|c: &mut C, family: host::AlgorithmType, reply: HostResult<Handle>|
            {
                &&& *c == old(ctx).host() && *final(c) == final(ctx).host()
                &&& (family is Signatures <==> algorithm_type is Signatures)
                &&& (family is Symmetric <==> algorithm_type is Symmetric)
                &&& (family is KeyExchange <==> algorithm_type is KeyExchange)
                &&& #[trigger] call.ensures((c, family), reply)
                &&& r == match reply {
                    Ok(h) => Ok(Options(h)),
                    Err(e) => Err(WasiCryptoError::Crypto(e)),
                }
            },
{
}

/// `options_close` calls the host once, on the guest's own handles and values; it hands
/// on the reply.
pub proof fn law_options_close<C, F>(
    ctx: &mut WasiCryptoCtx<C>,
    handle: Options,
    call: F,
    r: WResult<()>,
) where
    F: FnOnce(&mut C, Handle) -> HostResult<()>,
    requires
        call_ensures(WasiCryptoCtx::<C>::options_close::<F>, (ctx, handle, call), r),
    ensures
        exists|c: &mut C, reply: HostResult<()>|
            {
                &&& *c == old(ctx).host() && *final(c) == final(ctx).host()
                &&& #[trigger] call.ensures((c, handle.0), reply)
                &&& r == match reply {
                    Ok(()) => Ok(()),
                    Err(e) => Err(WasiCryptoError::Crypto(e)),
                }
            },
{
}

/// `options_set` reads its input from guest memory, faults exactly where the input does
/// not lie there or is no text and then leaves the host alone, and otherwise calls the
/// host once, on what it read; it hands on the reply.
pub proof fn law_options_set<C, F>(
    ctx: &mut WasiCryptoCtx<C>,
    mem: &GuestMemory<'_>,
    handle: Options,
    name: GuestStr,
    value: GuestAddr,
    value_len: Size,
    call: F,
    r: WResult<()>,
) where
    F: FnOnce(&mut C, Handle, &str, &[u8]) -> HostResult<()>,
    requires
        guest_bytes(*mem).len() <= usize::MAX,
        call_ensures(
            WasiCryptoCtx::<C>::options_set::<F>,
            (ctx, mem, handle, name, value, value_len, call),
            r,
        ),
    ensures
        match r {
            Err(WasiCryptoError::Guest(e)) => {
                &&& final(ctx).host() == old(ctx).host()
                &&& {
                    ||| {
                        &&& name.ptr + name.len > guest_bytes(*mem).len()
                        &&& e == bounds_error(name.ptr, name.len)
                    }
                    ||| {
                        &&& name.ptr + name.len <= guest_bytes(*mem).len()
                        &&& exists|data: Seq<u8>|
                            {
                                &&& e == #[trigger] utf8_error(data)
                                &&& data.len() == name.len && !valid_utf8(data)
                                &&& !guest_shared(*mem) ==> data == guest_bytes(*mem).subrange(
                                    name.ptr as int,
                                    name.ptr + name.len,
                                )
                            }
                    }
                    ||| {
                        &&& name.ptr + name.len <= guest_bytes(*mem).len()
                        &&& !guest_shared(*mem) ==> valid_utf8(
                            guest_bytes(*mem).subrange(
                                name.ptr as int,
                                name.ptr + name.len,
                            ),
                        )
                        &&& value + value_len > guest_bytes(*mem).len()
                        &&& e == bounds_error(value, value_len)
                    }
                }
            },
            _ => exists|c: &mut C, text: &str, bytes: &[u8], reply: HostResult<()>|
                {
                    &&& *c == old(ctx).host() && *final(c) == final(ctx).host()
                    &&& name.ptr + name.len <= guest_bytes(*mem).len()
                    &&& encode_utf8(text@).len() == name.len
                    &&& !guest_shared(*mem) ==> encode_utf8(text@) == guest_bytes(
                        *mem,
                    ).subrange(name.ptr as int, name.ptr + name.len)
                    &&& value + value_len <= guest_bytes(*mem).len()
                    &&& bytes@.len() == value_len
                    &&& !guest_shared(*mem) ==> bytes@ == guest_bytes(*mem).subrange(
                        value as int,
                        value + value_len,
                    )
                    &&& #[trigger] call.ensures((c, handle.0, text, bytes), reply)
                    &&& r == match reply {
                        Ok(()) => Ok(()),
                        Err(e) => Err(WasiCryptoError::Crypto(e)),
                    }
                },
        },
{
    broadcast use encode_utf8_valid_utf8;

}

/// `options_set_u64` reads its input from guest memory, faults exactly where the input
/// does not lie there or is no text and then leaves the host alone, and otherwise calls
/// the host once, on what it read; it hands on the reply.
pub proof fn law_options_set_u64<C, F>(
    ctx: &mut WasiCryptoCtx<C>,
    mem: &GuestMemory<'_>,
    handle: Options,
    name: GuestStr,
    value: u64,
    call: F,
    r: WResult<()>,
) where
    F: FnOnce(&mut C, Handle, &str, u64) -> HostResult<()>,
    requires
        guest_bytes(*mem).len() <= usize::MAX,
        call_ensures(
            WasiCryptoCtx::<C>::options_set_u64::<F>,
            (ctx, mem, handle, name, value, call),
            r,
        ),
    ensures
        match r {
            Err(WasiCryptoError::Guest(e)) => {
                &&& final(ctx).host() == old(ctx).host()
                &&& {
                    ||| {
                        &&& name.ptr + name.len > guest_bytes(*mem).len()
                        &&& e == bounds_error(name.ptr, name.len)
                    }
                    ||| {
                        &&& name.ptr + name.len <= guest_bytes(*mem).len()
                        &&& exists|data: Seq<u8>|
                            {
                                &&& e == #[trigger] utf8_error(data)
                                &&& data.len() == name.len && !valid_utf8(data)
                                &&& !guest_shared(*mem) ==> data == guest_bytes(*mem).subrange(
                                    name.ptr as int,
                                    name.ptr + name.len,
                                )
                            }
                    }
                }
            },
            _ => exists|c: &mut C, text: &str, reply: HostResult<()>|
                {
                    &&& *c == old(ctx).host() && *final(c) == final(ctx).host()
                    &&& name.ptr + name.len <= guest_bytes(*mem).len()
                    &&& encode_utf8(text@).len() == name.len
                    &&& !guest_shared(*mem) ==> encode_utf8(text@) == guest_bytes(
                        *mem,
                    ).subrange(name.ptr as int, name.ptr + name.len)
                    &&& #[trigger] call.ensures((c, handle.0, text, value), reply)
                    &&& r == match reply {
                        Ok(()) => Ok(()),
                        Err(e) => Err(WasiCryptoError::Crypto(e)),
                    }
                },
        },
{
    broadcast use encode_utf8_valid_utf8;

}

/// `options_set_guest_buffer` succeeds exactly where the name lies in guest memory and
/// is text, and it never touches the host.
pub proof fn law_options_set_guest_buffer<C>(
    ctx: &mut WasiCryptoCtx<C>,
    mem: &GuestMemory<'_>,
    handle: Options,
    name: GuestStr,
    buffer: GuestAddr,
    buffer_len: Size,
    r: WResult<()>,
)
    requires
        guest_bytes(*mem).len() <= usize::MAX,
        call_ensures(
            WasiCryptoCtx::<C>::options_set_guest_buffer,
            (ctx, mem, handle, name, buffer, buffer_len),
            r,
        ),
    ensures
        final(ctx).host() == old(ctx).host(),
        match r {
            Ok(()) => {
                &&& name.ptr + name.len <= guest_bytes(*mem).len()
                &&& !guest_shared(*mem) ==> valid_utf8(
                    guest_bytes(*mem).subrange(name.ptr as int, name.ptr + name.len),
                )
            },
            Err(WasiCryptoError::Guest(e)) => {
                ||| {
                    &&& name.ptr + name.len > guest_bytes(*mem).len()
                    &&& e == bounds_error(name.ptr, name.len)
                }
                ||| {
                    &&& name.ptr + name.len <= guest_bytes(*mem).len()
                    &&& exists|data: Seq<u8>|
                        {
                            &&& e == #[trigger] utf8_error(data)
                            &&& data.len() == name.len && !valid_utf8(data)
                            &&& !guest_shared(*mem) ==> data == guest_bytes(*mem).subrange(
                                name.ptr as int,
                                name.ptr + name.len,
                            )
                        }
                }
            },
            Err(WasiCryptoError::Crypto(_)) => false,
        },
{
    broadcast use encode_utf8_valid_utf8;

}

/// `array_output_len` calls the host once, on the guest's own handles and values; it
/// hands on the reply.
pub proof fn law_array_output_len<C, F>(
    ctx: &mut WasiCryptoCtx<C>,
    array_output: ArrayOutput,
    call: F,
    r: WResult<Size>,
) where
    F: FnOnce(&mut C, Handle) -> HostResult<usize>,
    requires
        call_ensures(WasiCryptoCtx::<C>::array_output_len::<F>, (ctx, array_output, call), r),
    ensures
        exists|c: &mut C, reply: HostResult<usize>|
            {
                &&& *c == old(ctx).host() && *final(c) == final(ctx).host()
                &&& #[trigger] call.ensures((c, array_output.0), reply)
                &&& r == match reply {
                    Ok(n) => Ok(n as Size),
                    Err(e) => Err(WasiCryptoError::Crypto(e)),
                }
            },
{
}

/// `array_output_pull` calls the host once, on the guest's own handles and values; it
/// lends the host a buffer of exactly the guest's length, the guest's own in unshared
/// memory and zeros for shared memory, leaves what the host put there (of a shared
/// memory what it counted), and tells the count.
pub proof fn law_array_output_pull<C, F>(
    ctx: &mut WasiCryptoCtx<C>,
    mem: &mut GuestMemory<'_>,
    array_output: ArrayOutput,
    buf: GuestAddr,
    buf_len: Size,
    call: F,
    r: WResult<Size>,
    before: GuestMemory<'_>,
    after: GuestMemory<'_>,
) where
    F: FnOnce(&mut C, Handle, &mut [u8]) -> HostResult<usize>,
    requires
        before == *old(mem) && after == *final(mem),
        guest_bytes(before).len() <= usize::MAX,
        call_ensures(
            WasiCryptoCtx::<C>::array_output_pull::<F>,
            (ctx, mem, array_output, buf, buf_len, call),
            r,
        ),
        guest_shared(before) ==> forall|c: &mut C, buffer: &mut [u8], n: usize|
            call.ensures((c, array_output.0, buffer), Ok(n)) ==> n <= final(buffer)@.len(),
    ensures
        match r {
            Err(WasiCryptoError::Guest(e)) => {
                &&& final(ctx).host() == old(ctx).host()
                &&& guest_shared(after) == guest_shared(before)
                &&& guest_bytes(after).len() == guest_bytes(before).len()
                &&& guest_sent(after) == guest_sent(before)
                &&& !guest_shared(before) ==> guest_bytes(after) == guest_bytes(before)
                &&& {
                    ||| {
                        &&& buf + buf_len > guest_bytes(before).len()
                        &&& e == bounds_error(buf, buf_len)
                    }
                }
            },
            _ => exists|c: &mut C, buffer: &mut [u8], reply: HostResult<usize>|
                {
                    &&& *c == old(ctx).host() && *final(c) == final(ctx).host()
                    &&& buf + buf_len <= guest_bytes(before).len()
                    &&& buffer@.len() == buf_len
                    &&& forall|i: int|
                        0 <= i < buf_len ==> #[trigger] buffer@[i] == if guest_shared(before) {
                            0
                        } else {
                            guest_bytes(before)[buf + i]
                        }
                    &&& #[trigger] call.ensures((c, array_output.0, buffer), reply)
                    &&& match reply {
                        Ok(n) => if guest_shared(before) && n > buf_len {
                            &&& r == Err::<Size, WasiCryptoError>(
                                WasiCryptoError::Crypto(CryptoError::Overflow),
                            )
                            &&& guest_shared(after) == guest_shared(before)
                            &&& guest_bytes(after).len() == guest_bytes(before).len()
                            &&& guest_sent(after) == guest_sent(before)
                            &&& !guest_shared(before) ==> guest_bytes(after) == guest_bytes(before)
                        } else {
                            r == Ok::<Size, WasiCryptoError>(n as Size)
                        },
                        Err(e) => r == Err::<Size, WasiCryptoError>(WasiCryptoError::Crypto(e)),
                    }
                    &&& guest_shared(after) == guest_shared(before)
                    &&& guest_bytes(after).len() == guest_bytes(before).len()
                    &&& guest_shared(before) ==> guest_sent(after) == match reply {
                        Ok(n) => if n <= buf_len {
                            guest_sent(before).push((buf, final(buffer)@.subrange(0, n as int)))
                        } else {
                            guest_sent(before)
                        },
                        Err(_) => guest_sent(before),
                    }
                    &&& !guest_shared(before) ==> final(buffer)@.len() == buf_len && forall|i: int|
                        0 <= i < guest_bytes(before).len() ==> #[trigger] guest_bytes(after)[i] == (
                        if buf <= i < buf + buf_len {
                            final(buffer)@[i - buf]
                        } else {
                            guest_bytes(before)[i]
                        })
                },
        },
{
}

/// `secrets_manager_open` calls the host once, on the guest's own handles and values;
/// it hands on the reply.
pub proof fn law_secrets_manager_open<C, F>(
    ctx: &mut WasiCryptoCtx<C>,
    options: &OptOptions,
    call: F,
    r: WResult<SecretsManager>,
) where
    F: FnOnce(&mut C, Option<Handle>) -> HostResult<Handle>,
    requires
        call_ensures(WasiCryptoCtx::<C>::secrets_manager_open::<F>, (ctx, options, call), r),
    ensures
        exists|c: &mut C, given: Option<Handle>, reply: HostResult<Handle>|
            {
                &&& *c == old(ctx).host() && *final(c) == final(ctx).host()
                &&& (given is None <==> options is Absent)
                &&& (given matches Some(h) ==> *options == OptOptions::Present(Options(h)))
                &&& #[trigger] call.ensures((c, given), reply)
                &&& r == match reply {
                    Ok(h) => Ok(SecretsManager(h)),
                    Err(e) => Err(WasiCryptoError::Crypto(e)),
                }
            },
{
}

/// `secrets_manager_close` calls the host once, on the guest's own handles and values;
/// it hands on the reply.
pub proof fn law_secrets_manager_close<C, F>(
    ctx: &mut WasiCryptoCtx<C>,
    secrets_manager: SecretsManager,
    call: F,
    r: WResult<()>,
) where
    F: FnOnce(&mut C, Handle) -> HostResult<()>,
    requires
        call_ensures(
            WasiCryptoCtx::<C>::secrets_manager_close::<F>,
            (ctx, secrets_manager, call),
            r,
        ),
    ensures
        exists|c: &mut C, reply: HostResult<()>|
            {
                &&& *c == old(ctx).host() && *final(c) == final(ctx).host()
                &&& #[trigger] call.ensures((c, secrets_manager.0), reply)
                &&& r == match reply {
                    Ok(()) => Ok(()),
                    Err(e) => Err(WasiCryptoError::Crypto(e)),
                }
            },
{
}

/// `secrets_manager_invalidate` reads its input from guest memory, faults exactly where
/// the input does not lie there and then leaves the host alone, and otherwise calls the
/// host once, on what it read; it hands on the reply.
pub proof fn law_secrets_manager_invalidate<C, F>(
    ctx: &mut WasiCryptoCtx<C>,
    mem: &GuestMemory<'_>,
    secrets_manager: SecretsManager,
    key_id: GuestAddr,
    key_id_len: Size,
    key_version: types::Version,
    call: F,
    r: WResult<()>,
) where
    F: FnOnce(&mut C, Handle, &[u8], host::Version) -> HostResult<()>,
    requires
        guest_bytes(*mem).len() <= usize::MAX,
        call_ensures(
            WasiCryptoCtx::<C>::secrets_manager_invalidate::<F>,
            (ctx, mem, secrets_manager, key_id, key_id_len, key_version, call),
            r,
        ),
    ensures
        match r {
            Err(WasiCryptoError::Guest(e)) => {
                &&& final(ctx).host() == old(ctx).host()
                &&& {
                    ||| {
                        &&& key_id + key_id_len > guest_bytes(*mem).len()
                        &&& e == bounds_error(key_id, key_id_len)
                    }
                }
            },
            _ => exists|c: &mut C, bytes: &[u8], reply: HostResult<()>|
                {
                    &&& *c == old(ctx).host() && *final(c) == final(ctx).host()
                    &&& key_id + key_id_len <= guest_bytes(*mem).len()
                    &&& bytes@.len() == key_id_len
                    &&& !guest_shared(*mem) ==> bytes@ == guest_bytes(*mem).subrange(
                        key_id as int,
                        key_id + key_id_len,
                    )
                    &&& #[trigger] call.ensures(
                        (c, secrets_manager.0, bytes, host::Version(key_version)),
                        reply,
                    )
                    &&& r == match reply {
                        Ok(()) => Ok(()),
                        Err(e) => Err(WasiCryptoError::Crypto(e)),
                    }
                },
        },
{
}

} // verus!
