//! What the functions on symmetric keys, states and tags do, each
//! stated of a call in terms of the bytes in guest memory, the host function's contract
//! and the result.

use crate::ctx::WasiCryptoCtx;
use crate::error::{WResult, WasiCryptoError};
use crate::host;
use crate::host::{CryptoError, Handle, HostResult};
use crate::memory::{bounds_error, guest_bytes, guest_sent, guest_shared, utf8_error};
use crate::types;
use crate::types::{
    ArrayOutput, GuestAddr, GuestStr, OptOptions, OptSymmetricKey, Options, SecretsManager, Size,
    SymmetricKey, SymmetricState, SymmetricTag,
};
use vstd::prelude::*;
use vstd::utf8::{encode_utf8, encode_utf8_valid_utf8, valid_utf8};
use wiggle::GuestMemory;

verus! {

/// `symmetric_key_generate` reads its input from guest memory, faults exactly where the
/// input does not lie there or is no text and then leaves the host alone, and otherwise
/// calls the host once, on what it read; it hands on the reply.
pub proof fn law_symmetric_key_generate<C, F>(
    ctx: &mut WasiCryptoCtx<C>,
    mem: &GuestMemory<'_>,
    algorithm: GuestStr,
    options: &OptOptions,
    call: F,
    r: WResult<SymmetricKey>,
) where
    F: FnOnce(&mut C, &str, Option<Handle>) -> HostResult<Handle>,
    requires
        guest_bytes(*mem).len() <= usize::MAX,
        call_ensures(
            WasiCryptoCtx::<C>::symmetric_key_generate::<F>,
            (ctx, mem, algorithm, options, call),
            r,
        ),
    ensures
        match r {
            Err(WasiCryptoError::Guest(e)) => {
                &&& final(ctx).host() == old(ctx).host()
                &&& {
                    ||| {
                        &&& algorithm.ptr + algorithm.len > guest_bytes(*mem).len()
                        &&& e == bounds_error(algorithm.ptr, algorithm.len)
                    }
                    ||| {
                        &&& algorithm.ptr + algorithm.len <= guest_bytes(*mem).len()
                        &&& exists|data: Seq<u8>|
                            {
                                &&& e == #[trigger] utf8_error(data)
                                &&& data.len() == algorithm.len && !valid_utf8(data)
                                &&& !guest_shared(*mem) ==> data == guest_bytes(*mem).subrange(
                                    algorithm.ptr as int,
                                    algorithm.ptr + algorithm.len,
                                )
                            }
                    }
                }
            },
            _ => exists|c: &mut C, alg: &str, given: Option<Handle>, reply: HostResult<Handle>|
                {
                    &&& *c == old(ctx).host() && *final(c) == final(ctx).host()
                    &&& algorithm.ptr + algorithm.len <= guest_bytes(*mem).len()
                    &&& encode_utf8(alg@).len() == algorithm.len
                    &&& !guest_shared(*mem) ==> encode_utf8(alg@) == guest_bytes(
                        *mem,
                    ).subrange(algorithm.ptr as int, algorithm.ptr + algorithm.len)
                    &&& (given is None <==> options is Absent)
                    &&& (given matches Some(h) ==> *options == OptOptions::Present(Options(h)))
                    &&& #[trigger] call.ensures((c, alg, given), reply)
                    &&& r == match reply {
                        Ok(h) => Ok(SymmetricKey(h)),
                        Err(e) => Err(WasiCryptoError::Crypto(e)),
                    }
                },
        },
{
    broadcast use encode_utf8_valid_utf8;

}

/// `symmetric_key_import` reads its input from guest memory, faults exactly where the
/// input does not lie there or is no text and then leaves the host alone, and otherwise
/// calls the host once, on what it read; it hands on the reply.
pub proof fn law_symmetric_key_import<C, F>(
    ctx: &mut WasiCryptoCtx<C>,
    mem: &GuestMemory<'_>,
    algorithm: GuestStr,
    raw: GuestAddr,
    raw_len: Size,
    call: F,
    r: WResult<SymmetricKey>,
) where
    F: FnOnce(&mut C, &str, &[u8]) -> HostResult<Handle>,
    requires
        guest_bytes(*mem).len() <= usize::MAX,
        call_ensures(
            WasiCryptoCtx::<C>::symmetric_key_import::<F>,
            (ctx, mem, algorithm, raw, raw_len, call),
            r,
        ),
    ensures
        match r {
            Err(WasiCryptoError::Guest(e)) => {
                &&& final(ctx).host() == old(ctx).host()
                &&& {
                    ||| {
                        &&& algorithm.ptr + algorithm.len > guest_bytes(*mem).len()
                        &&& e == bounds_error(algorithm.ptr, algorithm.len)
                    }
                    ||| {
                        &&& algorithm.ptr + algorithm.len <= guest_bytes(*mem).len()
                        &&& exists|data: Seq<u8>|
                            {
                                &&& e == #[trigger] utf8_error(data)
                                &&& data.len() == algorithm.len && !valid_utf8(data)
                                &&& !guest_shared(*mem) ==> data == guest_bytes(*mem).subrange(
                                    algorithm.ptr as int,
                                    algorithm.ptr + algorithm.len,
                                )
                            }
                    }
                    ||| {
                        &&& algorithm.ptr + algorithm.len <= guest_bytes(*mem).len()
                        &&& !guest_shared(*mem) ==> valid_utf8(
                            guest_bytes(*mem).subrange(
                                algorithm.ptr as int,
                                algorithm.ptr + algorithm.len,
                            ),
                        )
                        &&& raw + raw_len > guest_bytes(*mem).len()
                        &&& e == bounds_error(raw, raw_len)
                    }
                }
            },
            _ => exists|c: &mut C, alg: &str, bytes: &[u8], reply: HostResult<Handle>|
                {
                    &&& *c == old(ctx).host() && *final(c) == final(ctx).host()
                    &&& algorithm.ptr + algorithm.len <= guest_bytes(*mem).len()
                    &&& encode_utf8(alg@).len() == algorithm.len
                    &&& !guest_shared(*mem) ==> encode_utf8(alg@) == guest_bytes(
                        *mem,
                    ).subrange(algorithm.ptr as int, algorithm.ptr + algorithm.len)
                    &&& raw + raw_len <= guest_bytes(*mem).len()
                    &&& bytes@.len() == raw_len
                    &&& !guest_shared(*mem) ==> bytes@ == guest_bytes(*mem).subrange(
                        raw as int,
                        raw + raw_len,
                    )
                    &&& #[trigger] call.ensures((c, alg, bytes), reply)
                    &&& r == match reply {
                        Ok(h) => Ok(SymmetricKey(h)),
                        Err(e) => Err(WasiCryptoError::Crypto(e)),
                    }
                },
        },
{
    broadcast use encode_utf8_valid_utf8;

}

/// `symmetric_key_export` calls the host once, on the guest's own handles and values;
/// it hands on the reply.
pub proof fn law_symmetric_key_export<C, F>(
    ctx: &mut WasiCryptoCtx<C>,
    symmetric_key: SymmetricKey,
    call: F,
    r: WResult<ArrayOutput>,
) where
    F: FnOnce(&mut C, Handle) -> HostResult<Handle>,
    requires
        call_ensures(WasiCryptoCtx::<C>::symmetric_key_export::<F>, (ctx, symmetric_key, call), r),
    ensures
        exists|c: &mut C, reply: HostResult<Handle>|
            {
                &&& *c == old(ctx).host() && *final(c) == final(ctx).host()
                &&& #[trigger] call.ensures((c, symmetric_key.0), reply)
                &&& r == match reply {
                    Ok(h) => Ok(ArrayOutput(h)),
                    Err(e) => Err(WasiCryptoError::Crypto(e)),
                }
            },
{
}

/// `symmetric_key_close` calls the host once, on the guest's own handles and values; it
/// hands on the reply.
pub proof fn law_symmetric_key_close<C, F>(
    ctx: &mut WasiCryptoCtx<C>,
    symmetric_key: SymmetricKey,
    call: F,
    r: WResult<()>,
) where
    F: FnOnce(&mut C, Handle) -> HostResult<()>,
    requires
        call_ensures(WasiCryptoCtx::<C>::symmetric_key_close::<F>, (ctx, symmetric_key, call), r),
    ensures
        exists|c: &mut C, reply: HostResult<()>|
            {
                &&& *c == old(ctx).host() && *final(c) == final(ctx).host()
                &&& #[trigger] call.ensures((c, symmetric_key.0), reply)
                &&& r == match reply {
                    Ok(()) => Ok(()),
                    Err(e) => Err(WasiCryptoError::Crypto(e)),
                }
            },
{
}

/// `symmetric_key_generate_managed` reads its input from guest memory, faults exactly
/// where the input does not lie there or is no text and then leaves the host alone, and
/// otherwise calls the host once, on what it read; it hands on the reply.
pub proof fn law_symmetric_key_generate_managed<C, F>(
    ctx: &mut WasiCryptoCtx<C>,
    mem: &GuestMemory<'_>,
    secrets_manager: SecretsManager,
    algorithm: GuestStr,
    options: &OptOptions,
    call: F,
    r: WResult<SymmetricKey>,
) where
    F: FnOnce(&mut C, Handle, &str, Option<Handle>) -> HostResult<Handle>,
    requires
        guest_bytes(*mem).len() <= usize::MAX,
        call_ensures(
            WasiCryptoCtx::<C>::symmetric_key_generate_managed::<F>,
            (ctx, mem, secrets_manager, algorithm, options, call),
            r,
        ),
    ensures
        match r {
            Err(WasiCryptoError::Guest(e)) => {
                &&& final(ctx).host() == old(ctx).host()
                &&& {
                    ||| {
                        &&& algorithm.ptr + algorithm.len > guest_bytes(*mem).len()
                        &&& e == bounds_error(algorithm.ptr, algorithm.len)
                    }
                    ||| {
                        &&& algorithm.ptr + algorithm.len <= guest_bytes(*mem).len()
                        &&& exists|data: Seq<u8>|
                            {
                                &&& e == #[trigger] utf8_error(data)
                                &&& data.len() == algorithm.len && !valid_utf8(data)
                                &&& !guest_shared(*mem) ==> data == guest_bytes(*mem).subrange(
                                    algorithm.ptr as int,
                                    algorithm.ptr + algorithm.len,
                                )
                            }
                    }
                }
            },
            _ => exists|c: &mut C, alg: &str, given: Option<Handle>, reply: HostResult<Handle>|
                {
                    &&& *c == old(ctx).host() && *final(c) == final(ctx).host()
                    &&& algorithm.ptr + algorithm.len <= guest_bytes(*mem).len()
                    &&& encode_utf8(alg@).len() == algorithm.len
                    &&& !guest_shared(*mem) ==> encode_utf8(alg@) == guest_bytes(
                        *mem,
                    ).subrange(algorithm.ptr as int, algorithm.ptr + algorithm.len)
                    &&& (given is None <==> options is Absent)
                    &&& (given matches Some(h) ==> *options == OptOptions::Present(Options(h)))
                    &&& #[trigger] call.ensures((c, secrets_manager.0, alg, given), reply)
                    &&& r == match reply {
                        Ok(h) => Ok(SymmetricKey(h)),
                        Err(e) => Err(WasiCryptoError::Crypto(e)),
                    }
                },
        },
{
    broadcast use encode_utf8_valid_utf8;

}

/// `symmetric_key_store_managed` calls the host once, on the guest's own handles and
/// values; it lends the host zeros of exactly the guest's length, and writes what the
/// host left, or nothing where the host refuses or the room does not suffice.
pub proof fn law_symmetric_key_store_managed<C, F>(
    ctx: &mut WasiCryptoCtx<C>,
    mem: &mut GuestMemory<'_>,
    secrets_manager: SecretsManager,
    symmetric_key: SymmetricKey,
    symmetric_key_id: GuestAddr,
    symmetric_key_id_max_len: Size,
    call: F,
    r: WResult<()>,
    before: GuestMemory<'_>,
    after: GuestMemory<'_>,
) where
    F: FnOnce(&mut C, Handle, Handle, &mut [u8]) -> HostResult<()>,
    requires
        before == *old(mem) && after == *final(mem),
        guest_bytes(before).len() <= usize::MAX,
        call_ensures(
            WasiCryptoCtx::<C>::symmetric_key_store_managed::<F>,
            (
                ctx,
                mem,
                secrets_manager,
                symmetric_key,
                symmetric_key_id,
                symmetric_key_id_max_len,
                call,
            ),
            r,
        ),
    ensures
        exists|c: &mut C, buffer: &mut [u8], reply: HostResult<()>|
            {
                &&& *c == old(ctx).host() && *final(c) == final(ctx).host()
                &&& buffer@.len() == symmetric_key_id_max_len
                &&& forall|i: int| 0 <= i < symmetric_key_id_max_len ==> #[trigger] buffer@[i] == 0
                &&& #[trigger] call.ensures((c, secrets_manager.0, symmetric_key.0, buffer), reply)
                &&& match reply {
                    Ok(()) => {
                        if final(buffer)@.len() > symmetric_key_id_max_len {
                            &&& r == Err::<(), WasiCryptoError>(
                                WasiCryptoError::Crypto(CryptoError::Overflow),
                            )
                            &&& guest_shared(after) == guest_shared(before)
                            &&& guest_bytes(after).len() == guest_bytes(before).len()
                            &&& guest_sent(after) == guest_sent(before)
                            &&& !guest_shared(before) ==> guest_bytes(after) == guest_bytes(before)
                        } else if final(buffer)@.len() > 0
                            && symmetric_key_id + final(buffer)@.len()
                            > guest_bytes(before).len() {
                            &&& r == Err::<(), WasiCryptoError>(
                                WasiCryptoError::Guest(
                                    bounds_error(symmetric_key_id, final(buffer)@.len() as Size),
                                ),
                            )
                            &&& guest_shared(after) == guest_shared(before)
                            &&& guest_bytes(after).len() == guest_bytes(before).len()
                            &&& guest_sent(after) == guest_sent(before)
                            &&& !guest_shared(before) ==> guest_bytes(after) == guest_bytes(before)
                        } else {
                            &&& r == Ok::<(), WasiCryptoError>(())
                            &&& guest_shared(after) == guest_shared(before)
                            &&& guest_bytes(after).len() == guest_bytes(before).len()
                            &&& !guest_shared(before) ==> forall|i: int|
                                0 <= i < guest_bytes(before).len()
                                    ==> #[trigger] guest_bytes(after)[i] == (
                                if symmetric_key_id <= i < symmetric_key_id + final(buffer)@.len() {
                                    final(buffer)@[i - symmetric_key_id]
                                } else {
                                    guest_bytes(before)[i]
                                })
                            &&& guest_shared(before) ==> guest_sent(after)
                                == guest_sent(before).push(
                                (symmetric_key_id, final(buffer)@),
                            )
                        }
                    },
                    Err(e) => {
                        &&& r == Err::<(), WasiCryptoError>(
                            WasiCryptoError::Crypto(e),
                        )
                        &&& guest_shared(after) == guest_shared(before)
                        &&& guest_bytes(after).len() == guest_bytes(before).len()
                        &&& guest_sent(after) == guest_sent(before)
                        &&& !guest_shared(before) ==> guest_bytes(after) == guest_bytes(before)
                    },
                }
            },
{
}

/// `symmetric_key_replace_managed` calls the host once, on the guest's own handles and
/// values; it hands on the reply.
pub proof fn law_symmetric_key_replace_managed<C, F>(
    ctx: &mut WasiCryptoCtx<C>,
    secrets_manager: SecretsManager,
    symmetric_key_old: SymmetricKey,
    symmetric_key_new: SymmetricKey,
    call: F,
    r: WResult<types::Version>,
) where
    F: FnOnce(&mut C, Handle, Handle, Handle) -> HostResult<host::Version>,
    requires
        call_ensures(
            WasiCryptoCtx::<C>::symmetric_key_replace_managed::<F>,
            (ctx, secrets_manager, symmetric_key_old, symmetric_key_new, call),
            r,
        ),
    ensures
        exists|c: &mut C, reply: HostResult<host::Version>|
            {
                &&& *c == old(ctx).host() && *final(c) == final(ctx).host()
                &&& #[trigger] call.ensures(
                    (c, secrets_manager.0, symmetric_key_old.0, symmetric_key_new.0),
                    reply,
                )
                &&& r == match reply {
                    Ok(version) => Ok(version.0),
                    Err(e) => Err(WasiCryptoError::Crypto(e)),
                }
            },
{
}

/// `symmetric_key_id` calls the host once, on the guest's own handles and values; it
/// writes the identifier where the room suffices, and tells its length and version.
pub proof fn law_symmetric_key_id<C, F>(
    ctx: &mut WasiCryptoCtx<C>,
    mem: &mut GuestMemory<'_>,
    symmetric_key: SymmetricKey,
    symmetric_key_id: GuestAddr,
    symmetric_key_id_max_len: Size,
    call: F,
    r: WResult<(Size, types::Version)>,
    before: GuestMemory<'_>,
    after: GuestMemory<'_>,
) where
    F: FnOnce(&mut C, Handle) -> HostResult<(Vec<u8>, host::Version)>,
    requires
        before == *old(mem) && after == *final(mem),
        guest_bytes(before).len() <= usize::MAX,
        call_ensures(
            WasiCryptoCtx::<C>::symmetric_key_id::<F>,
            (ctx, mem, symmetric_key, symmetric_key_id, symmetric_key_id_max_len, call),
            r,
        ),
    ensures
        exists|c: &mut C, reply: HostResult<(Vec<u8>, host::Version)>|
            {
                &&& *c == old(ctx).host() && *final(c) == final(ctx).host()
                &&& #[trigger] call.ensures((c, symmetric_key.0), reply)
                &&& match reply {
                    Ok((id, version)) => {
                        if id@.len() > symmetric_key_id_max_len {
                            &&& r == Err::<(Size, types::Version), WasiCryptoError>(
                                WasiCryptoError::Crypto(CryptoError::Overflow),
                            )
                            &&& guest_shared(after) == guest_shared(before)
                            &&& guest_bytes(after).len() == guest_bytes(before).len()
                            &&& guest_sent(after) == guest_sent(before)
                            &&& !guest_shared(before) ==> guest_bytes(after) == guest_bytes(before)
                        } else if id@.len() > 0 && symmetric_key_id + id@.len()
                            > guest_bytes(before).len() {
                            &&& r == Err::<(Size, types::Version), WasiCryptoError>(
                                WasiCryptoError::Guest(
                                    bounds_error(symmetric_key_id, id@.len() as Size),
                                ),
                            )
                            &&& guest_shared(after) == guest_shared(before)
                            &&& guest_bytes(after).len() == guest_bytes(before).len()
                            &&& guest_sent(after) == guest_sent(before)
                            &&& !guest_shared(before) ==> guest_bytes(after) == guest_bytes(before)
                        } else {
                            &&& r == Ok::<(Size, types::Version), WasiCryptoError>(
                                (id@.len() as Size, version.0),
                            )
                            &&& guest_shared(after) == guest_shared(before)
                            &&& guest_bytes(after).len() == guest_bytes(before).len()
                            &&& !guest_shared(before) ==> forall|i: int|
                                0 <= i < guest_bytes(before).len()
                                    ==> #[trigger] guest_bytes(after)[i] == (
                                if symmetric_key_id <= i < symmetric_key_id + id@.len() {
                                    id@[i - symmetric_key_id]
                                } else {
                                    guest_bytes(before)[i]
                                })
                            &&& guest_shared(before) ==> guest_sent(after)
                                == guest_sent(before).push(
                                (symmetric_key_id, id@),
                            )
                        }
                    },
                    Err(e) => {
                        &&& r == Err::<(Size, types::Version), WasiCryptoError>(
                            WasiCryptoError::Crypto(e),
                        )
                        &&& guest_shared(after) == guest_shared(before)
                        &&& guest_bytes(after).len() == guest_bytes(before).len()
                        &&& guest_sent(after) == guest_sent(before)
                        &&& !guest_shared(before) ==> guest_bytes(after) == guest_bytes(before)
                    },
                }
            },
{
}

/// `symmetric_key_from_id` reads its input from guest memory, faults exactly where the
/// input does not lie there and then leaves the host alone, and otherwise calls the
/// host once, on what it read; it hands on the reply.
pub proof fn law_symmetric_key_from_id<C, F>(
    ctx: &mut WasiCryptoCtx<C>,
    mem: &GuestMemory<'_>,
    secrets_manager: SecretsManager,
    symmetric_key_id: GuestAddr,
    symmetric_key_id_len: Size,
    symmetric_key_version: types::Version,
    call: F,
    r: WResult<SymmetricKey>,
) where
    F: FnOnce(&mut C, Handle, &[u8], host::Version) -> HostResult<Handle>,
    requires
        guest_bytes(*mem).len() <= usize::MAX,
        call_ensures(
            WasiCryptoCtx::<C>::symmetric_key_from_id::<F>,
            (
                ctx,
                mem,
                secrets_manager,
                symmetric_key_id,
                symmetric_key_id_len,
                symmetric_key_version,
                call,
            ),
            r,
        ),
    ensures
        match r {
            Err(WasiCryptoError::Guest(e)) => {
                &&& final(ctx).host() == old(ctx).host()
                &&& {
                    ||| {
                        &&& symmetric_key_id + symmetric_key_id_len > guest_bytes(*mem).len()
                        &&& e == bounds_error(symmetric_key_id, symmetric_key_id_len)
                    }
                }
            },
            _ => exists|c: &mut C, bytes: &[u8], reply: HostResult<Handle>|
                {
                    &&& *c == old(ctx).host() && *final(c) == final(ctx).host()
                    &&& symmetric_key_id + symmetric_key_id_len <= guest_bytes(*mem).len()
                    &&& bytes@.len() == symmetric_key_id_len
                    &&& !guest_shared(*mem) ==> bytes@ == guest_bytes(*mem).subrange(
                        symmetric_key_id as int,
                        symmetric_key_id + symmetric_key_id_len,
                    )
                    &&& #[trigger] call.ensures(
                        (c, secrets_manager.0, bytes, host::Version(symmetric_key_version)),
                        reply,
                    )
                    &&& r == match reply {
                        Ok(h) => Ok(SymmetricKey(h)),
                        Err(e) => Err(WasiCryptoError::Crypto(e)),
                    }
                },
        },
{
}

/// `symmetric_state_open` reads its input from guest memory, faults exactly where the
/// input does not lie there or is no text and then leaves the host alone, and otherwise
/// calls the host once, on what it read; it hands on the reply.
pub proof fn law_symmetric_state_open<C, F>(
    ctx: &mut WasiCryptoCtx<C>,
    mem: &GuestMemory<'_>,
    algorithm: GuestStr,
    key: &OptSymmetricKey,
    options: &OptOptions,
    call: F,
    r: WResult<SymmetricState>,
) where
    F: FnOnce(&mut C, &str, Option<Handle>, Option<Handle>) -> HostResult<Handle>,
    requires
        guest_bytes(*mem).len() <= usize::MAX,
        call_ensures(
            WasiCryptoCtx::<C>::symmetric_state_open::<F>,
            (ctx, mem, algorithm, key, options, call),
            r,
        ),
    ensures
        match r {
            Err(WasiCryptoError::Guest(e)) => {
                &&& final(ctx).host() == old(ctx).host()
                &&& {
                    ||| {
                        &&& algorithm.ptr + algorithm.len > guest_bytes(*mem).len()
                        &&& e == bounds_error(algorithm.ptr, algorithm.len)
                    }
                    ||| {
                        &&& algorithm.ptr + algorithm.len <= guest_bytes(*mem).len()
                        &&& exists|data: Seq<u8>|
                            {
                                &&& e == #[trigger] utf8_error(data)
                                &&& data.len() == algorithm.len && !valid_utf8(data)
                                &&& !guest_shared(*mem) ==> data == guest_bytes(*mem).subrange(
                                    algorithm.ptr as int,
                                    algorithm.ptr + algorithm.len,
                                )
                            }
                    }
                }
            },
            _ => exists|
                c: &mut C,
                alg: &str,
                given_key: Option<Handle>,
                given: Option<Handle>,
                reply: HostResult<Handle>,
            |
                {
                    &&& *c == old(ctx).host() && *final(c) == final(ctx).host()
                    &&& algorithm.ptr + algorithm.len <= guest_bytes(*mem).len()
                    &&& encode_utf8(alg@).len() == algorithm.len
                    &&& !guest_shared(*mem) ==> encode_utf8(alg@) == guest_bytes(
                        *mem,
                    ).subrange(algorithm.ptr as int, algorithm.ptr + algorithm.len)
                    &&& (given_key is None <==> key is Absent)
                    &&& (given_key matches Some(h)
                        ==> *key == OptSymmetricKey::Present(SymmetricKey(h)))
                    &&& (given is None <==> options is Absent)
                    &&& (given matches Some(h) ==> *options == OptOptions::Present(Options(h)))
                    &&& #[trigger] call.ensures((c, alg, given_key, given), reply)
                    &&& r == match reply {
                        Ok(h) => Ok(SymmetricState(h)),
                        Err(e) => Err(WasiCryptoError::Crypto(e)),
                    }
                },
        },
{
    broadcast use encode_utf8_valid_utf8;

}

/// `symmetric_state_options_get` reads its input from guest memory, faults exactly
/// where the input does not lie there or is no text and then leaves the host alone, and
/// otherwise calls the host once, on what it read; it lends the host a buffer of
/// exactly the guest's length, the guest's own in unshared memory and zeros for shared
/// memory, leaves what the host put there (of a shared memory what it counted), and
/// tells the count.
pub proof fn law_symmetric_state_options_get<C, F>(
    ctx: &mut WasiCryptoCtx<C>,
    mem: &mut GuestMemory<'_>,
    handle: SymmetricState,
    name: GuestStr,
    value: GuestAddr,
    value_max_len: Size,
    call: F,
    r: WResult<Size>,
    before: GuestMemory<'_>,
    after: GuestMemory<'_>,
) where
    F: FnOnce(&mut C, Handle, &str, &mut [u8]) -> HostResult<usize>,
    requires
        before == *old(mem) && after == *final(mem),
        guest_bytes(before).len() <= usize::MAX,
        call_ensures(
            WasiCryptoCtx::<C>::symmetric_state_options_get::<F>,
            (ctx, mem, handle, name, value, value_max_len, call),
            r,
        ),
        guest_shared(before) ==> forall|c: &mut C, text: &str, buffer: &mut [u8], n: usize|
            call.ensures((c, handle.0, text, buffer), Ok(n)) ==> n <= final(buffer)@.len(),
    ensures
        match r {
            Err(WasiCryptoError::Guest(e)) => {
                &&& final(ctx).host() == old(ctx).host()
                &&& guest_shared(after) == guest_shared(before)
                &&& guest_bytes(after).len() == guest_bytes(before).len()
                &&& guest_sent(after) == guest_sent(before)
                &&& !guest_shared(before) ==> guest_bytes(after) == guest_bytes(before)
                &&& {
                    ||| {
                        &&& name.ptr + name.len > guest_bytes(before).len()
                        &&& e == bounds_error(name.ptr, name.len)
                    }
                    ||| {
                        &&& name.ptr + name.len <= guest_bytes(before).len()
                        &&& exists|data: Seq<u8>|
                            {
                                &&& e == #[trigger] utf8_error(data)
                                &&& data.len() == name.len && !valid_utf8(data)
                                &&& !guest_shared(before) ==> data == guest_bytes(before).subrange(
                                    name.ptr as int,
                                    name.ptr + name.len,
                                )
                            }
                    }
                    ||| {
                        &&& name.ptr + name.len <= guest_bytes(before).len()
                        &&& !guest_shared(before) ==> valid_utf8(
                            guest_bytes(before).subrange(
                                name.ptr as int,
                                name.ptr + name.len,
                            ),
                        )
                        &&& value + value_max_len > guest_bytes(before).len()
                        &&& e == bounds_error(value, value_max_len)
                    }
                }
            },
            _ => exists|c: &mut C, text: &str, buffer: &mut [u8], reply: HostResult<usize>|
                {
                    &&& *c == old(ctx).host() && *final(c) == final(ctx).host()
                    &&& name.ptr + name.len <= guest_bytes(before).len()
                    &&& encode_utf8(text@).len() == name.len
                    &&& !guest_shared(before) ==> encode_utf8(text@) == guest_bytes(
                        before,
                    ).subrange(name.ptr as int, name.ptr + name.len)
                    &&& value + value_max_len <= guest_bytes(before).len()
                    &&& buffer@.len() == value_max_len
                    &&& forall|i: int|
                        0 <= i < value_max_len
                            ==> #[trigger] buffer@[i] == if guest_shared(before) {
                            0
                        } else {
                            guest_bytes(before)[value + i]
                        }
                    &&& #[trigger] call.ensures((c, handle.0, text, buffer), reply)
                    &&& match reply {
                        Ok(n) => if guest_shared(before) && n > value_max_len {
                            &&& r == Err::<Size, WasiCryptoError>(
                                WasiCryptoError::Crypto(CryptoError::Overflow),
                            )
                            &&& guest_shared(after) == guest_shared(before)
                            &&& guest_bytes(after).len() == guest_bytes(before).len()
                            &&& guest_sent(after) == guest_sent(before)
                            &&& !guest_shared(before) ==> guest_bytes(after) == guest_bytes(before)
                        } else {
                            r == Ok::<Size, WasiCryptoError>(n as Size)
                        },
                        Err(e) => r == Err::<Size, WasiCryptoError>(WasiCryptoError::Crypto(e)),
                    }
                    &&& guest_shared(after) == guest_shared(before)
                    &&& guest_bytes(after).len() == guest_bytes(before).len()
                    &&& guest_shared(before) ==> guest_sent(after) == match reply {
                        Ok(n) => if n <= value_max_len {
                            guest_sent(before).push((value, final(buffer)@.subrange(0, n as int)))
                        } else {
                            guest_sent(before)
                        },
                        Err(_) => guest_sent(before),
                    }
                    &&& !guest_shared(before) ==> final(buffer)@.len() == value_max_len
                        && forall|i: int|
                        0 <= i < guest_bytes(before).len() ==> #[trigger] guest_bytes(after)[i] == (
                        if value <= i < value + value_max_len {
                            final(buffer)@[i - value]
                        } else {
                            guest_bytes(before)[i]
                        })
                },
        },
{
    broadcast use encode_utf8_valid_utf8;

}

/// `symmetric_state_options_get_u64` reads its input from guest memory, faults exactly
/// where the input does not lie there or is no text and then leaves the host alone, and
/// otherwise calls the host once, on what it read; it hands on the reply.
pub proof fn law_symmetric_state_options_get_u64<C, F>(
    ctx: &mut WasiCryptoCtx<C>,
    mem: &GuestMemory<'_>,
    handle: SymmetricState,
    name: GuestStr,
    call: F,
    r: WResult<u64>,
) where
    F: FnOnce(&mut C, Handle, &str) -> HostResult<u64>,
    requires
        guest_bytes(*mem).len() <= usize::MAX,
        call_ensures(
            WasiCryptoCtx::<C>::symmetric_state_options_get_u64::<F>,
            (ctx, mem, handle, name, call),
            r,
        ),
    ensures
        match r {
            Err(WasiCryptoError::Guest(e)) => {
                &&& final(ctx).host() == old(ctx).host()
                &&& {
                    ||| {
                        &&& name.ptr + name.len > guest_bytes(*mem).len()
                        &&& e == bounds_error(name.ptr, name.len)
                    }
                    ||| {
                        &&& name.ptr + name.len <= guest_bytes(*mem).len()
                        &&& exists|data: Seq<u8>|
                            {
                                &&& e == #[trigger] utf8_error(data)
                                &&& data.len() == name.len && !valid_utf8(data)
                                &&& !guest_shared(*mem) ==> data == guest_bytes(*mem).subrange(
                                    name.ptr as int,
                                    name.ptr + name.len,
                                )
                            }
                    }
                }
            },
            _ => exists|c: &mut C, text: &str, reply: HostResult<u64>|
                {
                    &&& *c == old(ctx).host() && *final(c) == final(ctx).host()
                    &&& name.ptr + name.len <= guest_bytes(*mem).len()
                    &&& encode_utf8(text@).len() == name.len
                    &&& !guest_shared(*mem) ==> encode_utf8(text@) == guest_bytes(
                        *mem,
                    ).subrange(name.ptr as int, name.ptr + name.len)
                    &&& #[trigger] call.ensures((c, handle.0, text), reply)
                    &&& r == match reply {
                        Ok(v) => Ok(v),
                        Err(e) => Err(WasiCryptoError::Crypto(e)),
                    }
                },
        },
{
    broadcast use encode_utf8_valid_utf8;

}

/// `symmetric_state_clone` calls the host once, on the guest's own handles and values;
/// it hands on the reply.
pub proof fn law_symmetric_state_clone<C, F>(
    ctx: &mut WasiCryptoCtx<C>,
    handle: SymmetricState,
    call: F,
    r: WResult<SymmetricState>,
) where
    F: FnOnce(&mut C, Handle) -> HostResult<Handle>,
    requires
        call_ensures(WasiCryptoCtx::<C>::symmetric_state_clone::<F>, (ctx, handle, call), r),
    ensures
        exists|c: &mut C, reply: HostResult<Handle>|
            {
                &&& *c == old(ctx).host() && *final(c) == final(ctx).host()
                &&& #[trigger] call.ensures((c, handle.0), reply)
                &&& r == match reply {
                    Ok(h) => Ok(SymmetricState(h)),
                    Err(e) => Err(WasiCryptoError::Crypto(e)),
                }
            },
{
}

/// `symmetric_state_close` calls the host once, on the guest's own handles and values;
/// it hands on the reply.
pub proof fn law_symmetric_state_close<C, F>(
    ctx: &mut WasiCryptoCtx<C>,
    handle: SymmetricState,
    call: F,
    r: WResult<()>,
) where
    F: FnOnce(&mut C, Handle) -> HostResult<()>,
    requires
        call_ensures(WasiCryptoCtx::<C>::symmetric_state_close::<F>, (ctx, handle, call), r),
    ensures
        exists|c: &mut C, reply: HostResult<()>|
            {
                &&& *c == old(ctx).host() && *final(c) == final(ctx).host()
                &&& #[trigger] call.ensures((c, handle.0), reply)
                &&& r == match reply {
                    Ok(()) => Ok(()),
                    Err(e) => Err(WasiCryptoError::Crypto(e)),
                }
            },
{
}

/// `symmetric_state_absorb` reads its input from guest memory, faults exactly where the
/// input does not lie there and then leaves the host alone, and otherwise calls the
/// host once, on what it read; it hands on the reply.
pub proof fn law_symmetric_state_absorb<C, F>(
    ctx: &mut WasiCryptoCtx<C>,
    mem: &GuestMemory<'_>,
    handle: SymmetricState,
    data: GuestAddr,
    data_len: Size,
    call: F,
    r: WResult<()>,
) where
    F: FnOnce(&mut C, Handle, &[u8]) -> HostResult<()>,
    requires
        guest_bytes(*mem).len() <= usize::MAX,
        call_ensures(
            WasiCryptoCtx::<C>::symmetric_state_absorb::<F>,
            (ctx, mem, handle, data, data_len, call),
            r,
        ),
    ensures
        match r {
            Err(WasiCryptoError::Guest(e)) => {
                &&& final(ctx).host() == old(ctx).host()
                &&& {
                    ||| {
                        &&& data + data_len > guest_bytes(*mem).len()
                        &&& e == bounds_error(data, data_len)
                    }
                }
            },
            _ => exists|c: &mut C, bytes: &[u8], reply: HostResult<()>|
                {
                    &&& *c == old(ctx).host() && *final(c) == final(ctx).host()
                    &&& data + data_len <= guest_bytes(*mem).len()
                    &&& bytes@.len() == data_len
                    &&& !guest_shared(*mem) ==> bytes@ == guest_bytes(*mem).subrange(
                        data as int,
                        data + data_len,
                    )
                    &&& #[trigger] call.ensures((c, handle.0, bytes), reply)
                    &&& r == match reply {
                        Ok(()) => Ok(()),
                        Err(e) => Err(WasiCryptoError::Crypto(e)),
                    }
                },
        },
{
}

/// `symmetric_state_squeeze` calls the host once, on the guest's own handles and
/// values; it lends the host zeros of exactly the guest's length, and writes what the
/// host left, or nothing where the host refuses or the room does not suffice.
pub proof fn law_symmetric_state_squeeze<C, F>(
    ctx: &mut WasiCryptoCtx<C>,
    mem: &mut GuestMemory<'_>,
    handle: SymmetricState,
    out: GuestAddr,
    out_len: Size,
    call: F,
    r: WResult<()>,
    before: GuestMemory<'_>,
    after: GuestMemory<'_>,
) where
    F: FnOnce(&mut C, Handle, &mut [u8]) -> HostResult<()>,
    requires
        before == *old(mem) && after == *final(mem),
        guest_bytes(before).len() <= usize::MAX,
        call_ensures(
            WasiCryptoCtx::<C>::symmetric_state_squeeze::<F>,
            (ctx, mem, handle, out, out_len, call),
            r,
        ),
    ensures
        exists|c: &mut C, buffer: &mut [u8], reply: HostResult<()>|
            {
                &&& *c == old(ctx).host() && *final(c) == final(ctx).host()
                &&& buffer@.len() == out_len
                &&& forall|i: int| 0 <= i < out_len ==> #[trigger] buffer@[i] == 0
                &&& #[trigger] call.ensures((c, handle.0, buffer), reply)
                &&& match reply {
                    Ok(()) => {
                        if final(buffer)@.len() > out_len {
                            &&& r == Err::<(), WasiCryptoError>(
                                WasiCryptoError::Crypto(CryptoError::Overflow),
                            )
                            &&& guest_shared(after) == guest_shared(before)
                            &&& guest_bytes(after).len() == guest_bytes(before).len()
                            &&& guest_sent(after) == guest_sent(before)
                            &&& !guest_shared(before) ==> guest_bytes(after) == guest_bytes(before)
                        } else if final(buffer)@.len() > 0 && out + final(buffer)@.len()
                            > guest_bytes(before).len() {
                            &&& r == Err::<(), WasiCryptoError>(
                                WasiCryptoError::Guest(
                                    bounds_error(out, final(buffer)@.len() as Size),
                                ),
                            )
                            &&& guest_shared(after) == guest_shared(before)
                            &&& guest_bytes(after).len() == guest_bytes(before).len()
                            &&& guest_sent(after) == guest_sent(before)
                            &&& !guest_shared(before) ==> guest_bytes(after) == guest_bytes(before)
                        } else {
                            &&& r == Ok::<(), WasiCryptoError>(())
                            &&& guest_shared(after) == guest_shared(before)
                            &&& guest_bytes(after).len() == guest_bytes(before).len()
                            &&& !guest_shared(before) ==> forall|i: int|
                                0 <= i < guest_bytes(before).len()
                                    ==> #[trigger] guest_bytes(after)[i] == (
                                if out <= i < out + final(buffer)@.len() {
                                    final(buffer)@[i - out]
                                } else {
                                    guest_bytes(before)[i]
                                })
                            &&& guest_shared(before) ==> guest_sent(after)
                                == guest_sent(before).push(
                                (out, final(buffer)@),
                            )
                        }
                    },
                    Err(e) => {
                        &&& r == Err::<(), WasiCryptoError>(
                            WasiCryptoError::Crypto(e),
                        )
                        &&& guest_shared(after) == guest_shared(before)
                        &&& guest_bytes(after).len() == guest_bytes(before).len()
                        &&& guest_sent(after) == guest_sent(before)
                        &&& !guest_shared(before) ==> guest_bytes(after) == guest_bytes(before)
                    },
                }
            },
{
}

/// `symmetric_state_squeeze_tag` calls the host once, on the guest's own handles and
/// values; it hands on the reply.
pub proof fn law_symmetric_state_squeeze_tag<C, F>(
    ctx: &mut WasiCryptoCtx<C>,
    handle: SymmetricState,
    call: F,
    r: WResult<SymmetricTag>,
) where
    F: FnOnce(&mut C, Handle) -> HostResult<Handle>,
    requires
        call_ensures(WasiCryptoCtx::<C>::symmetric_state_squeeze_tag::<F>, (ctx, handle, call), r),
    ensures
        exists|c: &mut C, reply: HostResult<Handle>|
            {
                &&& *c == old(ctx).host() && *final(c) == final(ctx).host()
                &&& #[trigger] call.ensures((c, handle.0), reply)
                &&& r == match reply {
                    Ok(h) => Ok(SymmetricTag(h)),
                    Err(e) => Err(WasiCryptoError::Crypto(e)),
                }
            },
{
}

/// `symmetric_state_squeeze_key` reads its input from guest memory, faults exactly
/// where the input does not lie there or is no text and then leaves the host alone, and
/// otherwise calls the host once, on what it read; it hands on the reply.
pub proof fn law_symmetric_state_squeeze_key<C, F>(
    ctx: &mut WasiCryptoCtx<C>,
    mem: &GuestMemory<'_>,
    handle: SymmetricState,
    alg_str: GuestStr,
    call: F,
    r: WResult<SymmetricKey>,
) where
    F: FnOnce(&mut C, Handle, &str) -> HostResult<Handle>,
    requires
        guest_bytes(*mem).len() <= usize::MAX,
        call_ensures(
            WasiCryptoCtx::<C>::symmetric_state_squeeze_key::<F>,
            (ctx, mem, handle, alg_str, call),
            r,
        ),
    ensures
        match r {
            Err(WasiCryptoError::Guest(e)) => {
                &&& final(ctx).host() == old(ctx).host()
                &&& {
                    ||| {
                        &&& alg_str.ptr + alg_str.len > guest_bytes(*mem).len()
                        &&& e == bounds_error(alg_str.ptr, alg_str.len)
                    }
                    ||| {
                        &&& alg_str.ptr + alg_str.len <= guest_bytes(*mem).len()
                        &&& exists|data: Seq<u8>|
                            {
                                &&& e == #[trigger] utf8_error(data)
                                &&& data.len() == alg_str.len && !valid_utf8(data)
                                &&& !guest_shared(*mem) ==> data == guest_bytes(*mem).subrange(
                                    alg_str.ptr as int,
                                    alg_str.ptr + alg_str.len,
                                )
                            }
                    }
                }
            },
            _ => exists|c: &mut C, alg: &str, reply: HostResult<Handle>|
                {
                    &&& *c == old(ctx).host() && *final(c) == final(ctx).host()
                    &&& alg_str.ptr + alg_str.len <= guest_bytes(*mem).len()
                    &&& encode_utf8(alg@).len() == alg_str.len
                    &&& !guest_shared(*mem) ==> encode_utf8(alg@) == guest_bytes(
                        *mem,
                    ).subrange(alg_str.ptr as int, alg_str.ptr + alg_str.len)
                    &&& #[trigger] call.ensures((c, handle.0, alg), reply)
                    &&& r == match reply {
                        Ok(h) => Ok(SymmetricKey(h)),
                        Err(e) => Err(WasiCryptoError::Crypto(e)),
                    }
                },
        },
{
    broadcast use encode_utf8_valid_utf8;

}

/// `symmetric_state_max_tag_len` calls the host once, on the guest's own handles and
/// values; it hands on the reply.
pub proof fn law_symmetric_state_max_tag_len<C, F>(
    ctx: &mut WasiCryptoCtx<C>,
    handle: SymmetricState,
    call: F,
    r: WResult<Size>,
) where
    F: FnOnce(&mut C, Handle) -> HostResult<usize>,
    requires
        call_ensures(WasiCryptoCtx::<C>::symmetric_state_max_tag_len::<F>, (ctx, handle, call), r),
    ensures
        exists|c: &mut C, reply: HostResult<usize>|
            {
                &&& *c == old(ctx).host() && *final(c) == final(ctx).host()
                &&& #[trigger] call.ensures((c, handle.0), reply)
                &&& r == match reply {
                    Ok(n) => Ok(n as Size),
                    Err(e) => Err(WasiCryptoError::Crypto(e)),
                }
            },
{
}

/// `symmetric_state_encrypt` reads its input from guest memory, faults exactly where
/// the input does not lie there and then leaves the host alone, and otherwise calls the
/// host once, on what it read; it lends the host a buffer of exactly the guest's
/// length, the guest's own in unshared memory and zeros for shared memory, leaves what
/// the host put there (of a shared memory what it counted), and tells the count.
pub proof fn law_symmetric_state_encrypt<C, F>(
    ctx: &mut WasiCryptoCtx<C>,
    mem: &mut GuestMemory<'_>,
    handle: SymmetricState,
    out: GuestAddr,
    out_len: Size,
    data: GuestAddr,
    data_len: Size,
    call: F,
    r: WResult<Size>,
    before: GuestMemory<'_>,
    after: GuestMemory<'_>,
) where
    F: FnOnce(&mut C, Handle, &mut [u8], &[u8]) -> HostResult<usize>,
    requires
        before == *old(mem) && after == *final(mem),
        guest_bytes(before).len() <= usize::MAX,
        call_ensures(
            WasiCryptoCtx::<C>::symmetric_state_encrypt::<F>,
            (ctx, mem, handle, out, out_len, data, data_len, call),
            r,
        ),
        guest_shared(before) ==> forall|c: &mut C, buffer: &mut [u8], bytes: &[u8], n: usize|
            call.ensures((c, handle.0, buffer, bytes), Ok(n)) ==> n <= final(buffer)@.len(),
    ensures
        match r {
            Err(WasiCryptoError::Guest(e)) => {
                &&& final(ctx).host() == old(ctx).host()
                &&& guest_shared(after) == guest_shared(before)
                &&& guest_bytes(after).len() == guest_bytes(before).len()
                &&& guest_sent(after) == guest_sent(before)
                &&& !guest_shared(before) ==> guest_bytes(after) == guest_bytes(before)
                &&& {
                    ||| {
                        &&& data + data_len > guest_bytes(before).len()
                        &&& e == bounds_error(data, data_len)
                    }
                    ||| {
                        &&& data + data_len <= guest_bytes(before).len()
                        &&& out + out_len > guest_bytes(before).len()
                        &&& e == bounds_error(out, out_len)
                    }
                }
            },
            _ => exists|c: &mut C, buffer: &mut [u8], bytes: &[u8], reply: HostResult<usize>|
                {
                    &&& *c == old(ctx).host() && *final(c) == final(ctx).host()
                    &&& data + data_len <= guest_bytes(before).len()
                    &&& bytes@.len() == data_len
                    &&& !guest_shared(before) ==> bytes@ == guest_bytes(before).subrange(
                        data as int,
                        data + data_len,
                    )
                    &&& out + out_len <= guest_bytes(before).len()
                    &&& buffer@.len() == out_len
                    &&& forall|i: int|
                        0 <= i < out_len ==> #[trigger] buffer@[i] == if guest_shared(before) {
                            0
                        } else {
                            guest_bytes(before)[out + i]
                        }
                    &&& #[trigger] call.ensures((c, handle.0, buffer, bytes), reply)
                    &&& match reply {
                        Ok(n) => if guest_shared(before) && n > out_len {
                            &&& r == Err::<Size, WasiCryptoError>(
                                WasiCryptoError::Crypto(CryptoError::Overflow),
                            )
                            &&& guest_shared(after) == guest_shared(before)
                            &&& guest_bytes(after).len() == guest_bytes(before).len()
                            &&& guest_sent(after) == guest_sent(before)
                            &&& !guest_shared(before) ==> guest_bytes(after) == guest_bytes(before)
                        } else {
                            r == Ok::<Size, WasiCryptoError>(n as Size)
                        },
                        Err(e) => r == Err::<Size, WasiCryptoError>(WasiCryptoError::Crypto(e)),
                    }
                    &&& guest_shared(after) == guest_shared(before)
                    &&& guest_bytes(after).len() == guest_bytes(before).len()
                    &&& guest_shared(before) ==> guest_sent(after) == match reply {
                        Ok(n) => if n <= out_len {
                            guest_sent(before).push((out, final(buffer)@.subrange(0, n as int)))
                        } else {
                            guest_sent(before)
                        },
                        Err(_) => guest_sent(before),
                    }
                    &&& !guest_shared(before) ==> final(buffer)@.len() == out_len && forall|i: int|
                        0 <= i < guest_bytes(before).len() ==> #[trigger] guest_bytes(after)[i] == (
                        if out <= i < out + out_len {
                            final(buffer)@[i - out]
                        } else {
                            guest_bytes(before)[i]
                        })
                },
        },
{
}

/// `symmetric_state_encrypt_detached` reads its input from guest memory, faults exactly
/// where the input does not lie there and then leaves the host alone, and otherwise
/// calls the host once, on what it read; it lends the host zeros of exactly the guest's
/// length, and writes what the host left, or nothing where the host refuses or the room
/// does not suffice.
pub proof fn law_symmetric_state_encrypt_detached<C, F>(
    ctx: &mut WasiCryptoCtx<C>,
    mem: &mut GuestMemory<'_>,
    handle: SymmetricState,
    out: GuestAddr,
    out_len: Size,
    data: GuestAddr,
    data_len: Size,
    call: F,
    r: WResult<SymmetricTag>,
    before: GuestMemory<'_>,
    after: GuestMemory<'_>,
) where
    F: FnOnce(&mut C, Handle, &mut [u8], &[u8]) -> HostResult<Handle>,
    requires
        before == *old(mem) && after == *final(mem),
        guest_bytes(before).len() <= usize::MAX,
        call_ensures(
            WasiCryptoCtx::<C>::symmetric_state_encrypt_detached::<F>,
            (ctx, mem, handle, out, out_len, data, data_len, call),
            r,
        ),
    ensures
        if data + data_len > guest_bytes(before).len() {
            &&& r == Err::<SymmetricTag, WasiCryptoError>(
                WasiCryptoError::Guest(bounds_error(data, data_len)),
            )
            &&& final(ctx).host() == old(ctx).host()
            &&& guest_shared(after) == guest_shared(before)
            &&& guest_bytes(after).len() == guest_bytes(before).len()
            &&& guest_sent(after) == guest_sent(before)
            &&& !guest_shared(before) ==> guest_bytes(after) == guest_bytes(before)
        } else {
            exists|c: &mut C, buffer: &mut [u8], bytes: &[u8], reply: HostResult<Handle>|
                {
                    &&& *c == old(ctx).host() && *final(c) == final(ctx).host()
                    &&& data + data_len <= guest_bytes(before).len()
                    &&& bytes@.len() == data_len
                    &&& !guest_shared(before) ==> bytes@ == guest_bytes(before).subrange(
                        data as int,
                        data + data_len,
                    )
                    &&& buffer@.len() == out_len
                    &&& forall|i: int| 0 <= i < out_len ==> #[trigger] buffer@[i] == 0
                    &&& #[trigger] call.ensures((c, handle.0, buffer, bytes), reply)
                    &&& match reply {
                        Ok(tag) => {
                            if final(buffer)@.len() > out_len {
                                &&& r == Err::<SymmetricTag, WasiCryptoError>(
                                    WasiCryptoError::Crypto(CryptoError::Overflow),
                                )
                                &&& guest_shared(after) == guest_shared(before)
                                &&& guest_bytes(after).len() == guest_bytes(before).len()
                                &&& guest_sent(after) == guest_sent(before)
                                &&& !guest_shared(before)
                                    ==> guest_bytes(after) == guest_bytes(before)
                            } else if final(buffer)@.len() > 0 && out + final(buffer)@.len()
                                > guest_bytes(before).len() {
                                &&& r == Err::<SymmetricTag, WasiCryptoError>(
                                    WasiCryptoError::Guest(
                                        bounds_error(out, final(buffer)@.len() as Size),
                                    ),
                                )
                                &&& guest_shared(after) == guest_shared(before)
                                &&& guest_bytes(after).len() == guest_bytes(before).len()
                                &&& guest_sent(after) == guest_sent(before)
                                &&& !guest_shared(before)
                                    ==> guest_bytes(after) == guest_bytes(before)
                            } else {
                                &&& r == Ok::<SymmetricTag, WasiCryptoError>(
                                    SymmetricTag(tag),
                                )
                                &&& guest_shared(after) == guest_shared(before)
                                &&& guest_bytes(after).len() == guest_bytes(before).len()
                                &&& !guest_shared(before) ==> forall|i: int|
                                    0 <= i < guest_bytes(before).len()
                                        ==> #[trigger] guest_bytes(after)[i] == (
                                    if out <= i < out + final(buffer)@.len() {
                                        final(buffer)@[i - out]
                                    } else {
                                        guest_bytes(before)[i]
                                    })
                                &&& guest_shared(before) ==> guest_sent(after)
                                    == guest_sent(before).push(
                                    (out, final(buffer)@),
                                )
                            }
                        },
                        Err(e) => {
                            &&& r == Err::<SymmetricTag, WasiCryptoError>(
                                WasiCryptoError::Crypto(e),
                            )
                            &&& guest_shared(after) == guest_shared(before)
                            &&& guest_bytes(after).len() == guest_bytes(before).len()
                            &&& guest_sent(after) == guest_sent(before)
                            &&& !guest_shared(before) ==> guest_bytes(after) == guest_bytes(before)
                        },
                    }
                }
        },
{
}

/// `symmetric_state_decrypt` reads its input from guest memory, faults exactly where
/// the input does not lie there and then leaves the host alone, and otherwise calls the
/// host once, on what it read; it lends the host a buffer of exactly the guest's
/// length, the guest's own in unshared memory and zeros for shared memory, leaves what
/// the host put there (of a shared memory what it counted), and tells the count.
pub proof fn law_symmetric_state_decrypt<C, F>(
    ctx: &mut WasiCryptoCtx<C>,
    mem: &mut GuestMemory<'_>,
    handle: SymmetricState,
    out: GuestAddr,
    out_len: Size,
    data: GuestAddr,
    data_len: Size,
    call: F,
    r: WResult<Size>,
    before: GuestMemory<'_>,
    after: GuestMemory<'_>,
) where
    F: FnOnce(&mut C, Handle, &mut [u8], &[u8]) -> HostResult<usize>,
    requires
        before == *old(mem) && after == *final(mem),
        guest_bytes(before).len() <= usize::MAX,
        call_ensures(
            WasiCryptoCtx::<C>::symmetric_state_decrypt::<F>,
            (ctx, mem, handle, out, out_len, data, data_len, call),
            r,
        ),
        guest_shared(before) ==> forall|c: &mut C, buffer: &mut [u8], bytes: &[u8], n: usize|
            call.ensures((c, handle.0, buffer, bytes), Ok(n)) ==> n <= final(buffer)@.len(),
    ensures
        match r {
            Err(WasiCryptoError::Guest(e)) => {
                &&& final(ctx).host() == old(ctx).host()
                &&& guest_shared(after) == guest_shared(before)
                &&& guest_bytes(after).len() == guest_bytes(before).len()
                &&& guest_sent(after) == guest_sent(before)
                &&& !guest_shared(before) ==> guest_bytes(after) == guest_bytes(before)
                &&& {
                    ||| {
                        &&& data + data_len > guest_bytes(before).len()
                        &&& e == bounds_error(data, data_len)
                    }
                    ||| {
                        &&& data + data_len <= guest_bytes(before).len()
                        &&& out + out_len > guest_bytes(before).len()
                        &&& e == bounds_error(out, out_len)
                    }
                }
            },
            _ => exists|c: &mut C, buffer: &mut [u8], bytes: &[u8], reply: HostResult<usize>|
                {
                    &&& *c == old(ctx).host() && *final(c) == final(ctx).host()
                    &&& data + data_len <= guest_bytes(before).len()
                    &&& bytes@.len() == data_len
                    &&& !guest_shared(before) ==> bytes@ == guest_bytes(before).subrange(
                        data as int,
                        data + data_len,
                    )
                    &&& out + out_len <= guest_bytes(before).len()
                    &&& buffer@.len() == out_len
                    &&& forall|i: int|
                        0 <= i < out_len ==> #[trigger] buffer@[i] == if guest_shared(before) {
                            0
                        } else {
                            guest_bytes(before)[out + i]
                        }
                    &&& #[trigger] call.ensures((c, handle.0, buffer, bytes), reply)
                    &&& match reply {
                        Ok(n) => if guest_shared(before) && n > out_len {
                            &&& r == Err::<Size, WasiCryptoError>(
                                WasiCryptoError::Crypto(CryptoError::Overflow),
                            )
                            &&& guest_shared(after) == guest_shared(before)
                            &&& guest_bytes(after).len() == guest_bytes(before).len()
                            &&& guest_sent(after) == guest_sent(before)
                            &&& !guest_shared(before) ==> guest_bytes(after) == guest_bytes(before)
                        } else {
                            r == Ok::<Size, WasiCryptoError>(n as Size)
                        },
                        Err(e) => r == Err::<Size, WasiCryptoError>(WasiCryptoError::Crypto(e)),
                    }
                    &&& guest_shared(after) == guest_shared(before)
                    &&& guest_bytes(after).len() == guest_bytes(before).len()
                    &&& guest_shared(before) ==> guest_sent(after) == match reply {
                        Ok(n) => if n <= out_len {
                            guest_sent(before).push((out, final(buffer)@.subrange(0, n as int)))
                        } else {
                            guest_sent(before)
                        },
                        Err(_) => guest_sent(before),
                    }
                    &&& !guest_shared(before) ==> final(buffer)@.len() == out_len && forall|i: int|
                        0 <= i < guest_bytes(before).len() ==> #[trigger] guest_bytes(after)[i] == (
                        if out <= i < out + out_len {
                            final(buffer)@[i - out]
                        } else {
                            guest_bytes(before)[i]
                        })
                },
        },
{
}

/// `symmetric_state_decrypt_detached` reads its input from guest memory, faults exactly
/// where the input does not lie there and then leaves the host alone, and otherwise
/// calls the host once, on what it read; it lends the host a buffer of exactly the
/// guest's length, the guest's own in unshared memory and zeros for shared memory,
/// leaves what the host put there (of a shared memory what it counted), and tells the
/// count.
pub proof fn law_symmetric_state_decrypt_detached<C, F>(
    ctx: &mut WasiCryptoCtx<C>,
    mem: &mut GuestMemory<'_>,
    handle: SymmetricState,
    out: GuestAddr,
    out_len: Size,
    data: GuestAddr,
    data_len: Size,
    raw_tag: GuestAddr,
    raw_tag_len: Size,
    call: F,
    r: WResult<Size>,
    before: GuestMemory<'_>,
    after: GuestMemory<'_>,
) where
    F: FnOnce(&mut C, Handle, &mut [u8], &[u8], &[u8]) -> HostResult<usize>,
    requires
        before == *old(mem) && after == *final(mem),
        guest_bytes(before).len() <= usize::MAX,
        call_ensures(
            WasiCryptoCtx::<C>::symmetric_state_decrypt_detached::<F>,
            (ctx, mem, handle, out, out_len, data, data_len, raw_tag, raw_tag_len, call),
            r,
        ),
        guest_shared(before) ==> forall|
            c: &mut C,
            buffer: &mut [u8],
            bytes: &[u8],
            tag: &[u8],
            n: usize,
        |
            call.ensures((c, handle.0, buffer, bytes, tag), Ok(n)) ==> n <= final(buffer)@.len(),
    ensures
        match r {
            Err(WasiCryptoError::Guest(e)) => {
                &&& final(ctx).host() == old(ctx).host()
                &&& guest_shared(after) == guest_shared(before)
                &&& guest_bytes(after).len() == guest_bytes(before).len()
                &&& guest_sent(after) == guest_sent(before)
                &&& !guest_shared(before) ==> guest_bytes(after) == guest_bytes(before)
                &&& {
                    ||| {
                        &&& data + data_len > guest_bytes(before).len()
                        &&& e == bounds_error(data, data_len)
                    }
                    ||| {
                        &&& data + data_len <= guest_bytes(before).len()
                        &&& raw_tag + raw_tag_len > guest_bytes(before).len()
                        &&& e == bounds_error(raw_tag, raw_tag_len)
                    }
                    ||| {
                        &&& data + data_len <= guest_bytes(before).len()
                        &&& raw_tag + raw_tag_len <= guest_bytes(before).len()
                        &&& out + out_len > guest_bytes(before).len()
                        &&& e == bounds_error(out, out_len)
                    }
                }
            },
            _ => exists|
                c: &mut C,
                buffer: &mut [u8],
                bytes: &[u8],
                tag: &[u8],
                reply: HostResult<usize>,
            |
                {
                    &&& *c == old(ctx).host() && *final(c) == final(ctx).host()
                    &&& data + data_len <= guest_bytes(before).len()
                    &&& bytes@.len() == data_len
                    &&& !guest_shared(before) ==> bytes@ == guest_bytes(before).subrange(
                        data as int,
                        data + data_len,
                    )
                    &&& raw_tag + raw_tag_len <= guest_bytes(before).len()
                    &&& tag@.len() == raw_tag_len
                    &&& !guest_shared(before) ==> tag@ == guest_bytes(before).subrange(
                        raw_tag as int,
                        raw_tag + raw_tag_len,
                    )
                    &&& out + out_len <= guest_bytes(before).len()
                    &&& buffer@.len() == out_len
                    &&& forall|i: int|
                        0 <= i < out_len ==> #[trigger] buffer@[i] == if guest_shared(before) {
                            0
                        } else {
                            guest_bytes(before)[out + i]
                        }
                    &&& #[trigger] call.ensures((c, handle.0, buffer, bytes, tag), reply)
                    &&& match reply {
                        Ok(n) => if guest_shared(before) && n > out_len {
                            &&& r == Err::<Size, WasiCryptoError>(
                                WasiCryptoError::Crypto(CryptoError::Overflow),
                            )
                            &&& guest_shared(after) == guest_shared(before)
                            &&& guest_bytes(after).len() == guest_bytes(before).len()
                            &&& guest_sent(after) == guest_sent(before)
                            &&& !guest_shared(before) ==> guest_bytes(after) == guest_bytes(before)
                        } else {
                            r == Ok::<Size, WasiCryptoError>(n as Size)
                        },
                        Err(e) => r == Err::<Size, WasiCryptoError>(WasiCryptoError::Crypto(e)),
                    }
                    &&& guest_shared(after) == guest_shared(before)
                    &&& guest_bytes(after).len() == guest_bytes(before).len()
                    &&& guest_shared(before) ==> guest_sent(after) == match reply {
                        Ok(n) => if n <= out_len {
                            guest_sent(before).push((out, final(buffer)@.subrange(0, n as int)))
                        } else {
                            guest_sent(before)
                        },
                        Err(_) => guest_sent(before),
                    }
                    &&& !guest_shared(before) ==> final(buffer)@.len() == out_len && forall|i: int|
                        0 <= i < guest_bytes(before).len() ==> #[trigger] guest_bytes(after)[i] == (
                        if out <= i < out + out_len {
                            final(buffer)@[i - out]
                        } else {
                            guest_bytes(before)[i]
                        })
                },
        },
{
}

/// `symmetric_state_ratchet` calls the host once, on the guest's own handles and
/// values; it hands on the reply.
pub proof fn law_symmetric_state_ratchet<C, F>(
    ctx: &mut WasiCryptoCtx<C>,
    handle: SymmetricState,
    call: F,
    r: WResult<()>,
) where
    F: FnOnce(&mut C, Handle) -> HostResult<()>,
    requires
        call_ensures(WasiCryptoCtx::<C>::symmetric_state_ratchet::<F>, (ctx, handle, call), r),
    ensures
        exists|c: &mut C, reply: HostResult<()>|
            {
                &&& *c == old(ctx).host() && *final(c) == final(ctx).host()
                &&& #[trigger] call.ensures((c, handle.0), reply)
                &&& r == match reply {
                    Ok(()) => Ok(()),
                    Err(e) => Err(WasiCryptoError::Crypto(e)),
                }
            },
{
}

/// `symmetric_tag_len` calls the host once, on the guest's own handles and values; it
/// hands on the reply.
pub proof fn law_symmetric_tag_len<C, F>(
    ctx: &mut WasiCryptoCtx<C>,
    symmetric_tag: SymmetricTag,
    call: F,
    r: WResult<Size>,
) where
    F: FnOnce(&mut C, Handle) -> HostResult<usize>,
    requires
        call_ensures(WasiCryptoCtx::<C>::symmetric_tag_len::<F>, (ctx, symmetric_tag, call), r),
    ensures
        exists|c: &mut C, reply: HostResult<usize>|
            {
                &&& *c == old(ctx).host() && *final(c) == final(ctx).host()
                &&& #[trigger] call.ensures((c, symmetric_tag.0), reply)
                &&& r == match reply {
                    Ok(n) => Ok(n as Size),
                    Err(e) => Err(WasiCryptoError::Crypto(e)),
                }
            },
{
}

/// `symmetric_tag_pull` calls the host once, on the guest's own handles and values; it
/// lends the host a buffer of exactly the guest's length, the guest's own in unshared
/// memory and zeros for shared memory, leaves what the host put there (of a shared
/// memory what it counted), and tells the count.
pub proof fn law_symmetric_tag_pull<C, F>(
    ctx: &mut WasiCryptoCtx<C>,
    mem: &mut GuestMemory<'_>,
    symmetric_tag: SymmetricTag,
    buf: GuestAddr,
    buf_len: Size,
    call: F,
    r: WResult<Size>,
    before: GuestMemory<'_>,
    after: GuestMemory<'_>,
) where
    F: FnOnce(&mut C, Handle, &mut [u8]) -> HostResult<usize>,
    requires
        before == *old(mem) && after == *final(mem),
        guest_bytes(before).len() <= usize::MAX,
        call_ensures(
            WasiCryptoCtx::<C>::symmetric_tag_pull::<F>,
            (ctx, mem, symmetric_tag, buf, buf_len, call),
            r,
        ),
        guest_shared(before) ==> forall|c: &mut C, buffer: &mut [u8], n: usize|
            call.ensures((c, symmetric_tag.0, buffer), Ok(n)) ==> n <= final(buffer)@.len(),
    ensures
        match r {
            Err(WasiCryptoError::Guest(e)) => {
                &&& final(ctx).host() == old(ctx).host()
                &&& guest_shared(after) == guest_shared(before)
                &&& guest_bytes(after).len() == guest_bytes(before).len()
                &&& guest_sent(after) == guest_sent(before)
                &&& !guest_shared(before) ==> guest_bytes(after) == guest_bytes(before)
                &&& {
                    ||| {
                        &&& buf + buf_len > guest_bytes(before).len()
                        &&& e == bounds_error(buf, buf_len)
                    }
                }
            },
            _ => exists|c: &mut C, buffer: &mut [u8], reply: HostResult<usize>|
                {
                    &&& *c == old(ctx).host() && *final(c) == final(ctx).host()
                    &&& buf + buf_len <= guest_bytes(before).len()
                    &&& buffer@.len() == buf_len
                    &&& forall|i: int|
                        0 <= i < buf_len ==> #[trigger] buffer@[i] == if guest_shared(before) {
                            0
                        } else {
                            guest_bytes(before)[buf + i]
                        }
                    &&& #[trigger] call.ensures((c, symmetric_tag.0, buffer), reply)
                    &&& match reply {
                        Ok(n) => if guest_shared(before) && n > buf_len {
                            &&& r == Err::<Size, WasiCryptoError>(
                                WasiCryptoError::Crypto(CryptoError::Overflow),
                            )
                            &&& guest_shared(after) == guest_shared(before)
                            &&& guest_bytes(after).len() == guest_bytes(before).len()
                            &&& guest_sent(after) == guest_sent(before)
                            &&& !guest_shared(before) ==> guest_bytes(after) == guest_bytes(before)
                        } else {
                            r == Ok::<Size, WasiCryptoError>(n as Size)
                        },
                        Err(e) => r == Err::<Size, WasiCryptoError>(WasiCryptoError::Crypto(e)),
                    }
                    &&& guest_shared(after) == guest_shared(before)
                    &&& guest_bytes(after).len() == guest_bytes(before).len()
                    &&& guest_shared(before) ==> guest_sent(after) == match reply {
                        Ok(n) => if n <= buf_len {
                            guest_sent(before).push((buf, final(buffer)@.subrange(0, n as int)))
                        } else {
                            guest_sent(before)
                        },
                        Err(_) => guest_sent(before),
                    }
                    &&& !guest_shared(before) ==> final(buffer)@.len() == buf_len && forall|i: int|
                        0 <= i < guest_bytes(before).len() ==> #[trigger] guest_bytes(after)[i] == (
                        if buf <= i < buf + buf_len {
                            final(buffer)@[i - buf]
                        } else {
                            guest_bytes(before)[i]
                        })
                },
        },
{
}

/// `symmetric_tag_verify` reads its input from guest memory, faults exactly where the
/// input does not lie there and then leaves the host alone, and otherwise calls the
/// host once, on what it read; it hands on the reply.
pub proof fn law_symmetric_tag_verify<C, F>(
    ctx: &mut WasiCryptoCtx<C>,
    mem: &GuestMemory<'_>,
    symmetric_tag: SymmetricTag,
    expected_raw_tag_ptr: GuestAddr,
    expected_raw_tag_len: Size,
    call: F,
    r: WResult<()>,
) where
    F: FnOnce(&mut C, Handle, &[u8]) -> HostResult<()>,
    requires
        guest_bytes(*mem).len() <= usize::MAX,
        call_ensures(
            WasiCryptoCtx::<C>::symmetric_tag_verify::<F>,
            (ctx, mem, symmetric_tag, expected_raw_tag_ptr, expected_raw_tag_len, call),
            r,
        ),
    ensures
        match r {
            Err(WasiCryptoError::Guest(e)) => {
                &&& final(ctx).host() == old(ctx).host()
                &&& {
                    ||| {
                        &&& expected_raw_tag_ptr + expected_raw_tag_len > guest_bytes(*mem).len()
                        &&& e == bounds_error(expected_raw_tag_ptr, expected_raw_tag_len)
                    }
                }
            },
            _ => exists|c: &mut C, bytes: &[u8], reply: HostResult<()>|
                {
                    &&& *c == old(ctx).host() && *final(c) == final(ctx).host()
                    &&& expected_raw_tag_ptr + expected_raw_tag_len <= guest_bytes(*mem).len()
                    &&& bytes@.len() == expected_raw_tag_len
                    &&& !guest_shared(*mem) ==> bytes@ == guest_bytes(*mem).subrange(
                        expected_raw_tag_ptr as int,
                        expected_raw_tag_ptr + expected_raw_tag_len,
                    )
                    &&& #[trigger] call.ensures((c, symmetric_tag.0, bytes), reply)
                    &&& r == match reply {
                        Ok(()) => Ok(()),
                        Err(e) => Err(WasiCryptoError::Crypto(e)),
                    }
                },
        },
{
}

/// `symmetric_tag_close` calls the host once, on the guest's own handles and values; it
/// hands on the reply.
pub proof fn law_symmetric_tag_close<C, F>(
    ctx: &mut WasiCryptoCtx<C>,
    symmetric_tag: SymmetricTag,
    call: F,
    r: WResult<()>,
) where
    F: FnOnce(&mut C, Handle) -> HostResult<()>,
    requires
        call_ensures(WasiCryptoCtx::<C>::symmetric_tag_close::<F>, (ctx, symmetric_tag, call), r),
    ensures
        exists|c: &mut C, reply: HostResult<()>|
            {
                &&& *c == old(ctx).host() && *final(c) == final(ctx).host()
                &&& #[trigger] call.ensures((c, symmetric_tag.0), reply)
                &&& r == match reply {
                    Ok(()) => Ok(()),
                    Err(e) => Err(WasiCryptoError::Crypto(e)),
                }
            },
{
}

} // verus!
