//! What the functions on key pairs, public keys and secret keys do, each
//! stated of a call in terms of the bytes in guest memory, the host function's contract
//! and the result.

use crate::ctx::WasiCryptoCtx;
use crate::error::{WResult, WasiCryptoError};
use crate::host;
use crate::host::{CryptoError, Handle, HostResult};
use crate::memory::{bounds_error, guest_bytes, guest_sent, guest_shared, utf8_error};
use crate::types;
use crate::types::{
    ArrayOutput, GuestAddr, GuestStr, Keypair, OptOptions, Options, Publickey, Secretkey,
    SecretsManager, Size,
};
use vstd::prelude::*;
use vstd::utf8::{encode_utf8, encode_utf8_valid_utf8, valid_utf8};
use wiggle::GuestMemory;

verus! {

/// `keypair_generate` reads its input from guest memory, faults exactly where the input
/// does not lie there or is no text and then leaves the host alone, and otherwise calls
/// the host once, on what it read; it hands on the reply.
pub proof fn law_keypair_generate<C, F>(
    ctx: &mut WasiCryptoCtx<C>,
    mem: &GuestMemory<'_>,
    algorithm_type: types::AlgorithmType,
    algorithm: GuestStr,
    options: &OptOptions,
    call: F,
    r: WResult<Keypair>,
) where
    F: FnOnce(&mut C, host::AlgorithmType, &str, Option<Handle>) -> HostResult<Handle>,
    requires
        guest_bytes(*mem).len() <= usize::MAX,
        call_ensures(
            WasiCryptoCtx::<C>::keypair_generate::<F>,
            (ctx, mem, algorithm_type, algorithm, options, call),
            r,
        ),
    ensures
        match r {
            Err(WasiCryptoError::Guest(e)) => {
                &&& final(ctx).host() == old(ctx).host()
                &&& {
                    ||| {
                        &&& algorithm.ptr + algorithm.len > guest_bytes(*mem).len()
                        &&& e == bounds_error(algorithm.ptr, algorithm.len)
                    }
                    ||| {
                        &&& algorithm.ptr + algorithm.len <= guest_bytes(*mem).len()
                        &&& exists|data: Seq<u8>|
                            {
                                &&& e == #[trigger] utf8_error(data)
                                &&& data.len() == algorithm.len && !valid_utf8(data)
                                &&& !guest_shared(*mem) ==> data == guest_bytes(*mem).subrange(
                                    algorithm.ptr as int,
                                    algorithm.ptr + algorithm.len,
                                )
                            }
                    }
                }
            },
            _ => exists|
                c: &mut C,
                family: host::AlgorithmType,
                alg: &str,
                given: Option<Handle>,
                reply: HostResult<Handle>,
            |
                {
                    &&& *c == old(ctx).host() && *final(c) == final(ctx).host()
                    &&& algorithm.ptr + algorithm.len <= guest_bytes(*mem).len()
                    &&& encode_utf8(alg@).len() == algorithm.len
                    &&& !guest_shared(*mem) ==> encode_utf8(alg@) == guest_bytes(
                        *mem,
                    ).subrange(algorithm.ptr as int, algorithm.ptr + algorithm.len)
                    &&& (family is Signatures <==> algorithm_type is Signatures)
                    &&& (family is Symmetric <==> algorithm_type is Symmetric)
                    &&& (family is KeyExchange <==> algorithm_type is KeyExchange)
                    &&& (given is None <==> options is Absent)
                    &&& (given matches Some(h) ==> *options == OptOptions::Present(Options(h)))
                    &&& #[trigger] call.ensures((c, family, alg, given), reply)
                    &&& r == match reply {
                        Ok(h) => Ok(Keypair(h)),
                        Err(e) => Err(WasiCryptoError::Crypto(e)),
                    }
                },
        },
{
    broadcast use encode_utf8_valid_utf8;

}

/// `keypair_import` reads its input from guest memory, faults exactly where the input
/// does not lie there or is no text and then leaves the host alone, and otherwise calls
/// the host once, on what it read; it hands on the reply.
pub proof fn law_keypair_import<C, F>(
    ctx: &mut WasiCryptoCtx<C>,
    mem: &GuestMemory<'_>,
    algorithm_type: types::AlgorithmType,
    algorithm: GuestStr,
    encoded: GuestAddr,
    encoded_len: Size,
    encoding: types::KeypairEncoding,
    call: F,
    r: WResult<Keypair>,
) where
    F: FnOnce(
        &mut C,
        host::AlgorithmType,
        &str,
        &[u8],
        host::KeyPairEncoding,
    ) -> HostResult<Handle>,
    requires
        guest_bytes(*mem).len() <= usize::MAX,
        call_ensures(
            WasiCryptoCtx::<C>::keypair_import::<F>,
            (ctx, mem, algorithm_type, algorithm, encoded, encoded_len, encoding, call),
            r,
        ),
    ensures
        match r {
            Err(WasiCryptoError::Guest(e)) => {
                &&& final(ctx).host() == old(ctx).host()
                &&& {
                    ||| {
                        &&& algorithm.ptr + algorithm.len > guest_bytes(*mem).len()
                        &&& e == bounds_error(algorithm.ptr, algorithm.len)
                    }
                    ||| {
                        &&& algorithm.ptr + algorithm.len <= guest_bytes(*mem).len()
                        &&& exists|data: Seq<u8>|
                            {
                                &&& e == #[trigger] utf8_error(data)
                                &&& data.len() == algorithm.len && !valid_utf8(data)
                                &&& !guest_shared(*mem) ==> data == guest_bytes(*mem).subrange(
                                    algorithm.ptr as int,
                                    algorithm.ptr + algorithm.len,
                                )
                            }
                    }
                    ||| {
                        &&& algorithm.ptr + algorithm.len <= guest_bytes(*mem).len()
                        &&& !guest_shared(*mem) ==> valid_utf8(
                            guest_bytes(*mem).subrange(
                                algorithm.ptr as int,
                                algorithm.ptr + algorithm.len,
                            ),
                        )
                        &&& encoded + encoded_len > guest_bytes(*mem).len()
                        &&& e == bounds_error(encoded, encoded_len)
                    }
                }
            },
            _ => exists|
                c: &mut C,
                family: host::AlgorithmType,
                alg: &str,
                bytes: &[u8],
                format: host::KeyPairEncoding,
                reply: HostResult<Handle>,
            |
                {
                    &&& *c == old(ctx).host() && *final(c) == final(ctx).host()
                    &&& algorithm.ptr + algorithm.len <= guest_bytes(*mem).len()
                    &&& encode_utf8(alg@).len() == algorithm.len
                    &&& !guest_shared(*mem) ==> encode_utf8(alg@) == guest_bytes(
                        *mem,
                    ).subrange(algorithm.ptr as int, algorithm.ptr + algorithm.len)
                    &&& encoded + encoded_len <= guest_bytes(*mem).len()
                    &&& bytes@.len() == encoded_len
                    &&& !guest_shared(*mem) ==> bytes@ == guest_bytes(*mem).subrange(
                        encoded as int,
                        encoded + encoded_len,
                    )
                    &&& (family is Signatures <==> algorithm_type is Signatures)
                    &&& (family is Symmetric <==> algorithm_type is Symmetric)
                    &&& (family is KeyExchange <==> algorithm_type is KeyExchange)
                    &&& (format is Raw <==> encoding is Raw)
                    &&& (format is Pkcs8 <==> encoding is Pkcs8)
                    &&& (format is Pem <==> encoding is Pem)
                    &&& (format is Local <==> encoding is Local)
                    &&& #[trigger] call.ensures((c, family, alg, bytes, format), reply)
                    &&& r == match reply {
                        Ok(h) => Ok(Keypair(h)),
                        Err(e) => Err(WasiCryptoError::Crypto(e)),
                    }
                },
        },
{
    broadcast use encode_utf8_valid_utf8;

}

/// `keypair_generate_managed` reads its input from guest memory, faults exactly where
/// the input does not lie there or is no text and then leaves the host alone, and
/// otherwise calls the host once, on what it read; it hands on the reply.
pub proof fn law_keypair_generate_managed<C, F>(
    ctx: &mut WasiCryptoCtx<C>,
    mem: &GuestMemory<'_>,
    secrets_manager: SecretsManager,
    algorithm_type: types::AlgorithmType,
    algorithm: GuestStr,
    options: &OptOptions,
    call: F,
    r: WResult<Keypair>,
) where
    F: FnOnce(&mut C, Handle, host::AlgorithmType, &str, Option<Handle>) -> HostResult<Handle>,
    requires
        guest_bytes(*mem).len() <= usize::MAX,
        call_ensures(
            WasiCryptoCtx::<C>::keypair_generate_managed::<F>,
            (ctx, mem, secrets_manager, algorithm_type, algorithm, options, call),
            r,
        ),
    ensures
        match r {
            Err(WasiCryptoError::Guest(e)) => {
                &&& final(ctx).host() == old(ctx).host()
                &&& {
                    ||| {
                        &&& algorithm.ptr + algorithm.len > guest_bytes(*mem).len()
                        &&& e == bounds_error(algorithm.ptr, algorithm.len)
                    }
                    ||| {
                        &&& algorithm.ptr + algorithm.len <= guest_bytes(*mem).len()
                        &&& exists|data: Seq<u8>|
                            {
                                &&& e == #[trigger] utf8_error(data)
                                &&& data.len() == algorithm.len && !valid_utf8(data)
                                &&& !guest_shared(*mem) ==> data == guest_bytes(*mem).subrange(
                                    algorithm.ptr as int,
                                    algorithm.ptr + algorithm.len,
                                )
                            }
                    }
                }
            },
            _ => exists|
                c: &mut C,
                family: host::AlgorithmType,
                alg: &str,
                given: Option<Handle>,
                reply: HostResult<Handle>,
            |
                {
                    &&& *c == old(ctx).host() && *final(c) == final(ctx).host()
                    &&& algorithm.ptr + algorithm.len <= guest_bytes(*mem).len()
                    &&& encode_utf8(alg@).len() == algorithm.len
                    &&& !guest_shared(*mem) ==> encode_utf8(alg@) == guest_bytes(
                        *mem,
                    ).subrange(algorithm.ptr as int, algorithm.ptr + algorithm.len)
                    &&& (family is Signatures <==> algorithm_type is Signatures)
                    &&& (family is Symmetric <==> algorithm_type is Symmetric)
                    &&& (family is KeyExchange <==> algorithm_type is KeyExchange)
                    &&& (given is None <==> options is Absent)
                    &&& (given matches Some(h) ==> *options == OptOptions::Present(Options(h)))
                    &&& #[trigger] call.ensures((c, secrets_manager.0, family, alg, given), reply)
                    &&& r == match reply {
                        Ok(h) => Ok(Keypair(h)),
                        Err(e) => Err(WasiCryptoError::Crypto(e)),
                    }
                },
        },
{
    broadcast use encode_utf8_valid_utf8;

}

/// `keypair_store_managed` calls the host once, on the guest's own handles and values;
/// it lends the host zeros of exactly the guest's length, and writes what the host
/// left, or nothing where the host refuses or the room does not suffice.
pub proof fn law_keypair_store_managed<C, F>(
    ctx: &mut WasiCryptoCtx<C>,
    mem: &mut GuestMemory<'_>,
    secrets_manager: SecretsManager,
    kp: Keypair,
    kp_id: GuestAddr,
    kp_id_max_len: Size,
    call: F,
    r: WResult<()>,
    before: GuestMemory<'_>,
    after: GuestMemory<'_>,
) where
    F: FnOnce(&mut C, Handle, Handle, &mut [u8]) -> HostResult<()>,
    requires
        before == *old(mem) && after == *final(mem),
        guest_bytes(before).len() <= usize::MAX,
        call_ensures(
            WasiCryptoCtx::<C>::keypair_store_managed::<F>,
            (ctx, mem, secrets_manager, kp, kp_id, kp_id_max_len, call),
            r,
        ),
    ensures
        exists|c: &mut C, buffer: &mut [u8], reply: HostResult<()>|
            {
                &&& *c == old(ctx).host() && *final(c) == final(ctx).host()
                &&& buffer@.len() == kp_id_max_len
                &&& forall|i: int| 0 <= i < kp_id_max_len ==> #[trigger] buffer@[i] == 0
                &&& #[trigger] call.ensures((c, secrets_manager.0, kp.0, buffer), reply)
                &&& match reply {
                    Ok(()) => {
                        if final(buffer)@.len() > kp_id_max_len {
                            &&& r == Err::<(), WasiCryptoError>(
                                WasiCryptoError::Crypto(CryptoError::Overflow),
                            )
                            &&& guest_shared(after) == guest_shared(before)
                            &&& guest_bytes(after).len() == guest_bytes(before).len()
                            &&& guest_sent(after) == guest_sent(before)
                            &&& !guest_shared(before) ==> guest_bytes(after) == guest_bytes(before)
                        } else if final(buffer)@.len() > 0 && kp_id + final(buffer)@.len()
                            > guest_bytes(before).len() {
                            &&& r == Err::<(), WasiCryptoError>(
                                WasiCryptoError::Guest(
                                    bounds_error(kp_id, final(buffer)@.len() as Size),
                                ),
                            )
                            &&& guest_shared(after) == guest_shared(before)
                            &&& guest_bytes(after).len() == guest_bytes(before).len()
                            &&& guest_sent(after) == guest_sent(before)
                            &&& !guest_shared(before) ==> guest_bytes(after) == guest_bytes(before)
                        } else {
                            &&& r == Ok::<(), WasiCryptoError>(())
                            &&& guest_shared(after) == guest_shared(before)
                            &&& guest_bytes(after).len() == guest_bytes(before).len()
                            &&& !guest_shared(before) ==> forall|i: int|
                                0 <= i < guest_bytes(before).len()
                                    ==> #[trigger] guest_bytes(after)[i] == (
                                if kp_id <= i < kp_id + final(buffer)@.len() {
                                    final(buffer)@[i - kp_id]
                                } else {
                                    guest_bytes(before)[i]
                                })
                            &&& guest_shared(before) ==> guest_sent(after)
                                == guest_sent(before).push(
                                (kp_id, final(buffer)@),
                            )
                        }
                    },
                    Err(e) => {
                        &&& r == Err::<(), WasiCryptoError>(
                            WasiCryptoError::Crypto(e),
                        )
                        &&& guest_shared(after) == guest_shared(before)
                        &&& guest_bytes(after).len() == guest_bytes(before).len()
                        &&& guest_sent(after) == guest_sent(before)
                        &&& !guest_shared(before) ==> guest_bytes(after) == guest_bytes(before)
                    },
                }
            },
{
}

/// `keypair_replace_managed` calls the host once, on the guest's own handles and
/// values; it hands on the reply.
pub proof fn law_keypair_replace_managed<C, F>(
    ctx: &mut WasiCryptoCtx<C>,
    secrets_manager: SecretsManager,
    kp_old: Keypair,
    kp_new: Keypair,
    call: F,
    r: WResult<types::Version>,
) where
    F: FnOnce(&mut C, Handle, Handle, Handle) -> HostResult<host::Version>,
    requires
        call_ensures(
            WasiCryptoCtx::<C>::keypair_replace_managed::<F>,
            (ctx, secrets_manager, kp_old, kp_new, call),
            r,
        ),
    ensures
        exists|c: &mut C, reply: HostResult<host::Version>|
            {
                &&& *c == old(ctx).host() && *final(c) == final(ctx).host()
                &&& #[trigger] call.ensures((c, secrets_manager.0, kp_old.0, kp_new.0), reply)
                &&& r == match reply {
                    Ok(version) => Ok(version.0),
                    Err(e) => Err(WasiCryptoError::Crypto(e)),
                }
            },
{
}

/// `keypair_id` calls the host once, on the guest's own handles and values; it writes
/// the identifier where the room suffices, and tells its length and version.
pub proof fn law_keypair_id<C, F>(
    ctx: &mut WasiCryptoCtx<C>,
    mem: &mut GuestMemory<'_>,
    kp: Keypair,
    kp_id: GuestAddr,
    kp_id_max_len: Size,
    call: F,
    r: WResult<(Size, types::Version)>,
    before: GuestMemory<'_>,
    after: GuestMemory<'_>,
) where
    F: FnOnce(&mut C, Handle) -> HostResult<(Vec<u8>, host::Version)>,
    requires
        before == *old(mem) && after == *final(mem),
        guest_bytes(before).len() <= usize::MAX,
        call_ensures(
            WasiCryptoCtx::<C>::keypair_id::<F>,
            (ctx, mem, kp, kp_id, kp_id_max_len, call),
            r,
        ),
    ensures
        exists|c: &mut C, reply: HostResult<(Vec<u8>, host::Version)>|
            {
                &&& *c == old(ctx).host() && *final(c) == final(ctx).host()
                &&& #[trigger] call.ensures((c, kp.0), reply)
                &&& match reply {
                    Ok((id, version)) => {
                        if id@.len() > kp_id_max_len {
                            &&& r == Err::<(Size, types::Version), WasiCryptoError>(
                                WasiCryptoError::Crypto(CryptoError::Overflow),
                            )
                            &&& guest_shared(after) == guest_shared(before)
                            &&& guest_bytes(after).len() == guest_bytes(before).len()
                            &&& guest_sent(after) == guest_sent(before)
                            &&& !guest_shared(before) ==> guest_bytes(after) == guest_bytes(before)
                        } else if id@.len() > 0 && kp_id + id@.len()
                            > guest_bytes(before).len() {
                            &&& r == Err::<(Size, types::Version), WasiCryptoError>(
                                WasiCryptoError::Guest(
                                    bounds_error(kp_id, id@.len() as Size),
                                ),
                            )
                            &&& guest_shared(after) == guest_shared(before)
                            &&& guest_bytes(after).len() == guest_bytes(before).len()
                            &&& guest_sent(after) == guest_sent(before)
                            &&& !guest_shared(before) ==> guest_bytes(after) == guest_bytes(before)
                        } else {
                            &&& r == Ok::<(Size, types::Version), WasiCryptoError>(
                                (id@.len() as Size, version.0),
                            )
                            &&& guest_shared(after) == guest_shared(before)
                            &&& guest_bytes(after).len() == guest_bytes(before).len()
                            &&& !guest_shared(before) ==> forall|i: int|
                                0 <= i < guest_bytes(before).len()
                                    ==> #[trigger] guest_bytes(after)[i] == (
                                if kp_id <= i < kp_id + id@.len() {
                                    id@[i - kp_id]
                                } else {
                                    guest_bytes(before)[i]
                                })
                            &&& guest_shared(before) ==> guest_sent(after)
                                == guest_sent(before).push(
                                (kp_id, id@),
                            )
                        }
                    },
                    Err(e) => {
                        &&& r == Err::<(Size, types::Version), WasiCryptoError>(
                            WasiCryptoError::Crypto(e),
                        )
                        &&& guest_shared(after) == guest_shared(before)
                        &&& guest_bytes(after).len() == guest_bytes(before).len()
                        &&& guest_sent(after) == guest_sent(before)
                        &&& !guest_shared(before) ==> guest_bytes(after) == guest_bytes(before)
                    },
                }
            },
{
}

/// `keypair_from_id` reads its input from guest memory, faults exactly where the input
/// does not lie there and then leaves the host alone, and otherwise calls the host
/// once, on what it read; it hands on the reply.
pub proof fn law_keypair_from_id<C, F>(
    ctx: &mut WasiCryptoCtx<C>,
    mem: &GuestMemory<'_>,
    secrets_manager: SecretsManager,
    kp_id: GuestAddr,
    kp_id_len: Size,
    kp_version: types::Version,
    call: F,
    r: WResult<Keypair>,
) where
    F: FnOnce(&mut C, Handle, &[u8], host::Version) -> HostResult<Handle>,
    requires
        guest_bytes(*mem).len() <= usize::MAX,
        call_ensures(
            WasiCryptoCtx::<C>::keypair_from_id::<F>,
            (ctx, mem, secrets_manager, kp_id, kp_id_len, kp_version, call),
            r,
        ),
    ensures
        match r {
            Err(WasiCryptoError::Guest(e)) => {
                &&& final(ctx).host() == old(ctx).host()
                &&& {
                    ||| {
                        &&& kp_id + kp_id_len > guest_bytes(*mem).len()
                        &&& e == bounds_error(kp_id, kp_id_len)
                    }
                }
            },
            _ => exists|c: &mut C, bytes: &[u8], reply: HostResult<Handle>|
                {
                    &&& *c == old(ctx).host() && *final(c) == final(ctx).host()
                    &&& kp_id + kp_id_len <= guest_bytes(*mem).len()
                    &&& bytes@.len() == kp_id_len
                    &&& !guest_shared(*mem) ==> bytes@ == guest_bytes(*mem).subrange(
                        kp_id as int,
                        kp_id + kp_id_len,
                    )
                    &&& #[trigger] call.ensures(
                        (c, secrets_manager.0, bytes, host::Version(kp_version)),
                        reply,
                    )
                    &&& r == match reply {
                        Ok(h) => Ok(Keypair(h)),
                        Err(e) => Err(WasiCryptoError::Crypto(e)),
                    }
                },
        },
{
}

/// `keypair_from_pk_and_sk` calls the host once, on the guest's own handles and values;
/// it hands on the reply.
pub proof fn law_keypair_from_pk_and_sk<C, F>(
    ctx: &mut WasiCryptoCtx<C>,
    publickey: Publickey,
    secretkey: Secretkey,
    call: F,
    r: WResult<Keypair>,
) where
    F: FnOnce(&mut C, Handle, Handle) -> HostResult<Handle>,
    requires
        call_ensures(
            WasiCryptoCtx::<C>::keypair_from_pk_and_sk::<F>,
            (ctx, publickey, secretkey, call),
            r,
        ),
    ensures
        exists|c: &mut C, reply: HostResult<Handle>|
            {
                &&& *c == old(ctx).host() && *final(c) == final(ctx).host()
                &&& #[trigger] call.ensures((c, publickey.0, secretkey.0), reply)
                &&& r == match reply {
                    Ok(h) => Ok(Keypair(h)),
                    Err(e) => Err(WasiCryptoError::Crypto(e)),
                }
            },
{
}

/// `keypair_export` calls the host once, on the guest's own handles and values; it
/// hands on the reply.
pub proof fn law_keypair_export<C, F>(
    ctx: &mut WasiCryptoCtx<C>,
    kp: Keypair,
    encoding: types::KeypairEncoding,
    call: F,
    r: WResult<ArrayOutput>,
) where
    F: FnOnce(&mut C, Handle, host::KeyPairEncoding) -> HostResult<Handle>,
    requires
        call_ensures(WasiCryptoCtx::<C>::keypair_export::<F>, (ctx, kp, encoding, call), r),
    ensures
        exists|c: &mut C, format: host::KeyPairEncoding, reply: HostResult<Handle>|
            {
                &&& *c == old(ctx).host() && *final(c) == final(ctx).host()
                &&& (format is Raw <==> encoding is Raw)
                &&& (format is Pkcs8 <==> encoding is Pkcs8)
                &&& (format is Pem <==> encoding is Pem)
                &&& (format is Local <==> encoding is Local)
                &&& #[trigger] call.ensures((c, kp.0, format), reply)
                &&& r == match reply {
                    Ok(h) => Ok(ArrayOutput(h)),
                    Err(e) => Err(WasiCryptoError::Crypto(e)),
                }
            },
{
}

/// `keypair_publickey` calls the host once, on the guest's own handles and values; it
/// hands on the reply.
pub proof fn law_keypair_publickey<C, F>(
    ctx: &mut WasiCryptoCtx<C>,
    kp: Keypair,
    call: F,
    r: WResult<Publickey>,
) where
    F: FnOnce(&mut C, Handle) -> HostResult<Handle>,
    requires
        call_ensures(WasiCryptoCtx::<C>::keypair_publickey::<F>, (ctx, kp, call), r),
    ensures
        exists|c: &mut C, reply: HostResult<Handle>|
            {
                &&& *c == old(ctx).host() && *final(c) == final(ctx).host()
                &&& #[trigger] call.ensures((c, kp.0), reply)
                &&& r == match reply {
                    Ok(h) => Ok(Publickey(h)),
                    Err(e) => Err(WasiCryptoError::Crypto(e)),
                }
            },
{
}

/// `keypair_secretkey` calls the host once, on the guest's own handles and values; it
/// hands on the reply.
pub proof fn law_keypair_secretkey<C, F>(
    ctx: &mut WasiCryptoCtx<C>,
    kp: Keypair,
    call: F,
    r: WResult<Secretkey>,
) where
    F: FnOnce(&mut C, Handle) -> HostResult<Handle>,
    requires
        call_ensures(WasiCryptoCtx::<C>::keypair_secretkey::<F>, (ctx, kp, call), r),
    ensures
        exists|c: &mut C, reply: HostResult<Handle>|
            {
                &&& *c == old(ctx).host() && *final(c) == final(ctx).host()
                &&& #[trigger] call.ensures((c, kp.0), reply)
                &&& r == match reply {
                    Ok(h) => Ok(Secretkey(h)),
                    Err(e) => Err(WasiCryptoError::Crypto(e)),
                }
            },
{
}

/// `keypair_close` calls the host once, on the guest's own handles and values; it hands
/// on the reply.
pub proof fn law_keypair_close<C, F>(
    ctx: &mut WasiCryptoCtx<C>,
    kp: Keypair,
    call: F,
    r: WResult<()>,
) where
    F: FnOnce(&mut C, Handle) -> HostResult<()>,
    requires
        call_ensures(WasiCryptoCtx::<C>::keypair_close::<F>, (ctx, kp, call), r),
    ensures
        exists|c: &mut C, reply: HostResult<()>|
            {
                &&& *c == old(ctx).host() && *final(c) == final(ctx).host()
                &&& #[trigger] call.ensures((c, kp.0), reply)
                &&& r == match reply {
                    Ok(()) => Ok(()),
                    Err(e) => Err(WasiCryptoError::Crypto(e)),
                }
            },
{
}

/// `publickey_import` reads its input from guest memory, faults exactly where the input
/// does not lie there or is no text and then leaves the host alone, and otherwise calls
/// the host once, on what it read; it hands on the reply.
pub proof fn law_publickey_import<C, F>(
    ctx: &mut WasiCryptoCtx<C>,
    mem: &GuestMemory<'_>,
    algorithm_type: types::AlgorithmType,
    algorithm: GuestStr,
    encoded: GuestAddr,
    encoded_len: Size,
    encoding: types::PublickeyEncoding,
    call: F,
    r: WResult<Publickey>,
) where
    F: FnOnce(
        &mut C,
        host::AlgorithmType,
        &str,
        &[u8],
        host::PublicKeyEncoding,
    ) -> HostResult<Handle>,
    requires
        guest_bytes(*mem).len() <= usize::MAX,
        call_ensures(
            WasiCryptoCtx::<C>::publickey_import::<F>,
            (ctx, mem, algorithm_type, algorithm, encoded, encoded_len, encoding, call),
            r,
        ),
    ensures
        match r {
            Err(WasiCryptoError::Guest(e)) => {
                &&& final(ctx).host() == old(ctx).host()
                &&& {
                    ||| {
                        &&& algorithm.ptr + algorithm.len > guest_bytes(*mem).len()
                        &&& e == bounds_error(algorithm.ptr, algorithm.len)
                    }
                    ||| {
                        &&& algorithm.ptr + algorithm.len <= guest_bytes(*mem).len()
                        &&& exists|data: Seq<u8>|
                            {
                                &&& e == #[trigger] utf8_error(data)
                                &&& data.len() == algorithm.len && !valid_utf8(data)
                                &&& !guest_shared(*mem) ==> data == guest_bytes(*mem).subrange(
                                    algorithm.ptr as int,
                                    algorithm.ptr + algorithm.len,
                                )
                            }
                    }
                    ||| {
                        &&& algorithm.ptr + algorithm.len <= guest_bytes(*mem).len()
                        &&& !guest_shared(*mem) ==> valid_utf8(
                            guest_bytes(*mem).subrange(
                                algorithm.ptr as int,
                                algorithm.ptr + algorithm.len,
                            ),
                        )
                        &&& encoded + encoded_len > guest_bytes(*mem).len()
                        &&& e == bounds_error(encoded, encoded_len)
                    }
                }
            },
            _ => exists|
                c: &mut C,
                family: host::AlgorithmType,
                alg: &str,
                bytes: &[u8],
                format: host::PublicKeyEncoding,
                reply: HostResult<Handle>,
            |
                {
                    &&& *c == old(ctx).host() && *final(c) == final(ctx).host()
                    &&& algorithm.ptr + algorithm.len <= guest_bytes(*mem).len()
                    &&& encode_utf8(alg@).len() == algorithm.len
                    &&& !guest_shared(*mem) ==> encode_utf8(alg@) == guest_bytes(
                        *mem,
                    ).subrange(algorithm.ptr as int, algorithm.ptr + algorithm.len)
                    &&& encoded + encoded_len <= guest_bytes(*mem).len()
                    &&& bytes@.len() == encoded_len
                    &&& !guest_shared(*mem) ==> bytes@ == guest_bytes(*mem).subrange(
                        encoded as int,
                        encoded + encoded_len,
                    )
                    &&& (family is Signatures <==> algorithm_type is Signatures)
                    &&& (family is Symmetric <==> algorithm_type is Symmetric)
                    &&& (family is KeyExchange <==> algorithm_type is KeyExchange)
                    &&& (format is Raw <==> encoding is Raw)
                    &&& (format is Pkcs8 <==> encoding is Pkcs8)
                    &&& (format is Pem <==> encoding is Pem)
                    &&& (format is Sec <==> encoding is Sec)
                    &&& (format is Local <==> encoding is Local)
                    &&& #[trigger] call.ensures((c, family, alg, bytes, format), reply)
                    &&& r == match reply {
                        Ok(h) => Ok(Publickey(h)),
                        Err(e) => Err(WasiCryptoError::Crypto(e)),
                    }
                },
        },
{
    broadcast use encode_utf8_valid_utf8;

}

/// `publickey_export` calls the host once, on the guest's own handles and values; it
/// hands on the reply.
pub proof fn law_publickey_export<C, F>(
    ctx: &mut WasiCryptoCtx<C>,
    pk: Publickey,
    encoding: types::PublickeyEncoding,
    call: F,
    r: WResult<ArrayOutput>,
) where
    F: FnOnce(&mut C, Handle, host::PublicKeyEncoding) -> HostResult<Handle>,
    requires
        call_ensures(WasiCryptoCtx::<C>::publickey_export::<F>, (ctx, pk, encoding, call), r),
    ensures
        exists|c: &mut C, format: host::PublicKeyEncoding, reply: HostResult<Handle>|
            {
                &&& *c == old(ctx).host() && *final(c) == final(ctx).host()
                &&& (format is Raw <==> encoding is Raw)
                &&& (format is Pkcs8 <==> encoding is Pkcs8)
                &&& (format is Pem <==> encoding is Pem)
                &&& (format is Sec <==> encoding is Sec)
                &&& (format is Local <==> encoding is Local)
                &&& #[trigger] call.ensures((c, pk.0, format), reply)
                &&& r == match reply {
                    Ok(h) => Ok(ArrayOutput(h)),
                    Err(e) => Err(WasiCryptoError::Crypto(e)),
                }
            },
{
}

/// `publickey_verify` calls the host once, on the guest's own handles and values; it
/// hands on the reply.
pub proof fn law_publickey_verify<C, F>(
    ctx: &mut WasiCryptoCtx<C>,
    pk: Publickey,
    call: F,
    r: WResult<()>,
) where
    F: FnOnce(&mut C, Handle) -> HostResult<()>,
    requires
        call_ensures(WasiCryptoCtx::<C>::publickey_verify::<F>, (ctx, pk, call), r),
    ensures
        exists|c: &mut C, reply: HostResult<()>|
            {
                &&& *c == old(ctx).host() && *final(c) == final(ctx).host()
                &&& #[trigger] call.ensures((c, pk.0), reply)
                &&& r == match reply {
                    Ok(()) => Ok(()),
                    Err(e) => Err(WasiCryptoError::Crypto(e)),
                }
            },
{
}

/// `publickey_from_secretkey` calls the host once, on the guest's own handles and
/// values; it hands on the reply.
pub proof fn law_publickey_from_secretkey<C, F>(
    ctx: &mut WasiCryptoCtx<C>,
    sk: Secretkey,
    call: F,
    r: WResult<Publickey>,
) where
    F: FnOnce(&mut C, Handle) -> HostResult<Handle>,
    requires
        call_ensures(WasiCryptoCtx::<C>::publickey_from_secretkey::<F>, (ctx, sk, call), r),
    ensures
        exists|c: &mut C, reply: HostResult<Handle>|
            {
                &&& *c == old(ctx).host() && *final(c) == final(ctx).host()
                &&& #[trigger] call.ensures((c, sk.0), reply)
                &&& r == match reply {
                    Ok(h) => Ok(Publickey(h)),
                    Err(e) => Err(WasiCryptoError::Crypto(e)),
                }
            },
{
}

/// `publickey_close` calls the host once, on the guest's own handles and values; it
/// hands on the reply.
pub proof fn law_publickey_close<C, F>(
    ctx: &mut WasiCryptoCtx<C>,
    pk: Publickey,
    call: F,
    r: WResult<()>,
) where
    F: FnOnce(&mut C, Handle) -> HostResult<()>,
    requires
        call_ensures(WasiCryptoCtx::<C>::publickey_close::<F>, (ctx, pk, call), r),
    ensures
        exists|c: &mut C, reply: HostResult<()>|
            {
                &&& *c == old(ctx).host() && *final(c) == final(ctx).host()
                &&& #[trigger] call.ensures((c, pk.0), reply)
                &&& r == match reply {
                    Ok(()) => Ok(()),
                    Err(e) => Err(WasiCryptoError::Crypto(e)),
                }
            },
{
}

/// `secretkey_import` reads its input from guest memory, faults exactly where the input
/// does not lie there or is no text and then leaves the host alone, and otherwise calls
/// the host once, on what it read; it hands on the reply.
pub proof fn law_secretkey_import<C, F>(
    ctx: &mut WasiCryptoCtx<C>,
    mem: &GuestMemory<'_>,
    algorithm_type: types::AlgorithmType,
    algorithm: GuestStr,
    encoded: GuestAddr,
    encoded_len: Size,
    encoding: types::SecretkeyEncoding,
    call: F,
    r: WResult<Secretkey>,
) where
    F: FnOnce(
        &mut C,
        host::AlgorithmType,
        &str,
        &[u8],
        host::SecretKeyEncoding,
    ) -> HostResult<Handle>,
    requires
        guest_bytes(*mem).len() <= usize::MAX,
        call_ensures(
            WasiCryptoCtx::<C>::secretkey_import::<F>,
            (ctx, mem, algorithm_type, algorithm, encoded, encoded_len, encoding, call),
            r,
        ),
    ensures
        match r {
            Err(WasiCryptoError::Guest(e)) => {
                &&& final(ctx).host() == old(ctx).host()
                &&& {
                    ||| {
                        &&& algorithm.ptr + algorithm.len > guest_bytes(*mem).len()
                        &&& e == bounds_error(algorithm.ptr, algorithm.len)
                    }
                    ||| {
                        &&& algorithm.ptr + algorithm.len <= guest_bytes(*mem).len()
                        &&& exists|data: Seq<u8>|
                            {
                                &&& e == #[trigger] utf8_error(data)
                                &&& data.len() == algorithm.len && !valid_utf8(data)
                                &&& !guest_shared(*mem) ==> data == guest_bytes(*mem).subrange(
                                    algorithm.ptr as int,
                                    algorithm.ptr + algorithm.len,
                                )
                            }
                    }
                    ||| {
                        &&& algorithm.ptr + algorithm.len <= guest_bytes(*mem).len()
                        &&& !guest_shared(*mem) ==> valid_utf8(
                            guest_bytes(*mem).subrange(
                                algorithm.ptr as int,
                                algorithm.ptr + algorithm.len,
                            ),
                        )
                        &&& encoded + encoded_len > guest_bytes(*mem).len()
                        &&& e == bounds_error(encoded, encoded_len)
                    }
                }
            },
            _ => exists|
                c: &mut C,
                family: host::AlgorithmType,
                alg: &str,
                bytes: &[u8],
                format: host::SecretKeyEncoding,
                reply: HostResult<Handle>,
            |
                {
                    &&& *c == old(ctx).host() && *final(c) == final(ctx).host()
                    &&& algorithm.ptr + algorithm.len <= guest_bytes(*mem).len()
                    &&& encode_utf8(alg@).len() == algorithm.len
                    &&& !guest_shared(*mem) ==> encode_utf8(alg@) == guest_bytes(
                        *mem,
                    ).subrange(algorithm.ptr as int, algorithm.ptr + algorithm.len)
                    &&& encoded + encoded_len <= guest_bytes(*mem).len()
                    &&& bytes@.len() == encoded_len
                    &&& !guest_shared(*mem) ==> bytes@ == guest_bytes(*mem).subrange(
                        encoded as int,
                        encoded + encoded_len,
                    )
                    &&& (family is Signatures <==> algorithm_type is Signatures)
                    &&& (family is Symmetric <==> algorithm_type is Symmetric)
                    &&& (family is KeyExchange <==> algorithm_type is KeyExchange)
                    &&& (format is Raw <==> encoding is Raw)
                    &&& (format is Pkcs8 <==> encoding is Pkcs8)
                    &&& (format is Pem <==> encoding is Pem)
                    &&& (format is Sec <==> encoding is Sec)
                    &&& (format is Local <==> encoding is Local)
                    &&& #[trigger] call.ensures((c, family, alg, bytes, format), reply)
                    &&& r == match reply {
                        Ok(h) => Ok(Secretkey(h)),
                        Err(e) => Err(WasiCryptoError::Crypto(e)),
                    }
                },
        },
{
    broadcast use encode_utf8_valid_utf8;

}

/// `secretkey_export` calls the host once, on the guest's own handles and values; it
/// hands on the reply.
pub proof fn law_secretkey_export<C, F>(
    ctx: &mut WasiCryptoCtx<C>,
    sk: Secretkey,
    encoding: types::SecretkeyEncoding,
    call: F,
    r: WResult<ArrayOutput>,
) where
    F: FnOnce(&mut C, Handle, host::SecretKeyEncoding) -> HostResult<Handle>,
    requires
        call_ensures(WasiCryptoCtx::<C>::secretkey_export::<F>, (ctx, sk, encoding, call), r),
    ensures
        exists|c: &mut C, format: host::SecretKeyEncoding, reply: HostResult<Handle>|
            {
                &&& *c == old(ctx).host() && *final(c) == final(ctx).host()
                &&& (format is Raw <==> encoding is Raw)
                &&& (format is Pkcs8 <==> encoding is Pkcs8)
                &&& (format is Pem <==> encoding is Pem)
                &&& (format is Sec <==> encoding is Sec)
                &&& (format is Local <==> encoding is Local)
                &&& #[trigger] call.ensures((c, sk.0, format), reply)
                &&& r == match reply {
                    Ok(h) => Ok(ArrayOutput(h)),
                    Err(e) => Err(WasiCryptoError::Crypto(e)),
                }
            },
{
}

/// `secretkey_close` calls the host once, on the guest's own handles and values; it
/// hands on the reply.
pub proof fn law_secretkey_close<C, F>(
    ctx: &mut WasiCryptoCtx<C>,
    sk: Secretkey,
    call: F,
    r: WResult<()>,
) where
    F: FnOnce(&mut C, Handle) -> HostResult<()>,
    requires
        call_ensures(WasiCryptoCtx::<C>::secretkey_close::<F>, (ctx, sk, call), r),
    ensures
        exists|c: &mut C, reply: HostResult<()>|
            {
                &&& *c == old(ctx).host() && *final(c) == final(ctx).host()
                &&& #[trigger] call.ensures((c, sk.0), reply)
                &&& r == match reply {
                    Ok(()) => Ok(()),
                    Err(e) => Err(WasiCryptoError::Crypto(e)),
                }
            },
{
}

} // verus!
