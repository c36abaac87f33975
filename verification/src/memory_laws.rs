//! What reading and writing guest memory, error codes and names come to, each stated of
//! a call in terms of the bytes in guest memory and the result.

use crate::convert::{opt_options, opt_symmetric_key};
use crate::ctx::WasiCryptoCtx;
use crate::error::{lift, to_errno, WResult, WasiCryptoError};
use crate::host;
use crate::host::{CryptoError, Handle, HostResult};
use crate::memory::{
    bounds_error, buffer_lent, fill_out_buf, fits, guest_bytes, guest_sent, guest_shared,
    read_bytes, read_str, staged, tell_size, utf8_error, write_bytes, write_effect, write_result,
    zeroed, zeros,
};
use crate::types;
use crate::types::{
    CryptoErrno, GuestAddr, GuestStr, OptOptions, OptSymmetricKey, Options, Size, SymmetricKey,
    SymmetricState,
};
use vstd::prelude::*;
use vstd::utf8::{encode_utf8, encode_utf8_valid_utf8, valid_utf8};
use wiggle::{GuestError, GuestMemory};

verus! {

// --- Where an access may go ---------------------------------------------------

/// An access faults only where the region does not lie in guest memory, whatever its
/// address and length are.
pub proof fn law_access_faults_only_outside(mem: GuestMemory<'_>, ptr: GuestAddr, len: nat)
    requires
        guest_bytes(mem).len() <= usize::MAX,
    ensures
        fits(mem, ptr, len) <==> ptr + len <= guest_bytes(mem).len(),
{
}

/// Of two regions, one inside the other, the inner one is accessible if the outer one is.
pub proof fn law_access_to_a_part(
    mem: GuestMemory<'_>,
    ptr: GuestAddr,
    len: nat,
    inner: GuestAddr,
    inner_len: nat,
)
    requires
        fits(mem, ptr, len),
        ptr <= inner,
        inner + inner_len <= ptr + len,
    ensures
        fits(mem, inner, inner_len),
{
}

// --- Reading ------------------------------------------------------------------

/// Reading bytes gives as many as were asked for, each as it stands in unshared memory,
/// exactly where all of them lie in guest memory; elsewhere it faults with the region.
pub proof fn law_read_bytes(
    mem: &GuestMemory<'_>,
    ptr: GuestAddr,
    len: Size,
    r: WResult<Vec<u8>>,
)
    requires
        guest_bytes(*mem).len() <= usize::MAX,
        call_ensures(read_bytes, (mem, ptr, len), r),
    ensures
        if ptr + len <= guest_bytes(*mem).len() {
            &&& r is Ok
            &&& r->Ok_0@.len() == len
            &&& !guest_shared(*mem) ==> forall|i: int|
                0 <= i < len ==> #[trigger] r->Ok_0@[i] == guest_bytes(*mem)[ptr + i]
        } else {
            r == Err::<Vec<u8>, WasiCryptoError>(WasiCryptoError::Guest(bounds_error(ptr, len)))
        },
{
}

/// Reading a region in two parts gives what reading it in one gives.
pub proof fn law_read_bytes_in_parts(
    mem: &GuestMemory<'_>,
    ptr: GuestAddr,
    first: Size,
    second: Size,
    whole: WResult<Vec<u8>>,
    start: WResult<Vec<u8>>,
    rest: WResult<Vec<u8>>,
)
    requires
        !guest_shared(*mem),
        first + second <= Size::MAX,
        ptr + first <= GuestAddr::MAX,
        call_ensures(read_bytes, (mem, ptr, (first + second) as Size), whole),
        call_ensures(read_bytes, (mem, ptr, first), start),
        call_ensures(read_bytes, (mem, (ptr + first) as GuestAddr, second), rest),
    ensures
        whole is Ok ==> {
            &&& start is Ok
            &&& rest is Ok
            &&& whole->Ok_0@ == start->Ok_0@ + rest->Ok_0@
        },
{
    if whole is Ok {
        assert(whole->Ok_0@ =~= start->Ok_0@ + rest->Ok_0@);
    }
}

/// Reading a string of unshared memory gives the text that its bytes encode, exactly
/// where they lie in guest memory and are UTF-8; elsewhere it faults with the region or
/// with the error of the bytes. Of a shared memory the bytes may be any.
pub proof fn law_read_str(mem: &GuestMemory<'_>, s: GuestStr, r: WResult<String>)
    requires
        guest_bytes(*mem).len() <= usize::MAX,
        call_ensures(read_str, (mem, s), r),
    ensures
        s.ptr + s.len > guest_bytes(*mem).len() ==> r == Err::<String, WasiCryptoError>(
            WasiCryptoError::Guest(bounds_error(s.ptr, s.len)),
        ),
        s.ptr + s.len <= guest_bytes(*mem).len() && !guest_shared(*mem) ==> ({
            let held = guest_bytes(*mem).subrange(s.ptr as int, s.ptr + s.len);
            if valid_utf8(held) {
                r is Ok && encode_utf8(r->Ok_0@) == held
            } else {
                r == Err::<String, WasiCryptoError>(WasiCryptoError::Guest(utf8_error(held)))
            }
        }),
        s.ptr + s.len <= guest_bytes(*mem).len() && guest_shared(*mem) ==> match r {
            Ok(text) => encode_utf8(text@).len() == s.len,
            Err(e) => exists|data: Seq<u8>|
                {
                    &&& e == WasiCryptoError::Guest(#[trigger] utf8_error(data))
                    &&& data.len() == s.len && !valid_utf8(data)
                },
        },
{
    broadcast use encode_utf8_valid_utf8;

}

// --- Writing ------------------------------------------------------------------

/// Writing succeeds exactly where the data are no longer than the room and lie in guest
/// memory, or are empty; the length is told, the data are there and no other byte is
/// touched. Elsewhere it is an overflow or a fault, and nothing is touched.
pub proof fn law_write_bytes(
    mem: &mut GuestMemory<'_>,
    ptr: GuestAddr,
    max_len: Size,
    data: &[u8],
    r: WResult<Size>,
    before: GuestMemory<'_>,
    after: GuestMemory<'_>,
)
    requires
        before == *old(mem) && after == *final(mem),
        guest_bytes(before).len() <= usize::MAX,
        call_ensures(write_bytes, (mem, ptr, max_len, data), r),
    ensures
        if data@.len() > max_len {
            &&& r == Err::<Size, WasiCryptoError>(WasiCryptoError::Crypto(CryptoError::Overflow))
            &&& guest_shared(after) == guest_shared(before)
            &&& guest_bytes(after).len() == guest_bytes(before).len()
            &&& guest_sent(after) == guest_sent(before)
            &&& !guest_shared(before) ==> guest_bytes(after) == guest_bytes(before)
        } else if data@.len() > 0 && ptr + data@.len() > guest_bytes(before).len() {
            &&& r == Err::<Size, WasiCryptoError>(
                WasiCryptoError::Guest(bounds_error(ptr, data@.len() as Size)),
            )
            &&& guest_shared(after) == guest_shared(before)
            &&& guest_bytes(after).len() == guest_bytes(before).len()
            &&& guest_sent(after) == guest_sent(before)
            &&& !guest_shared(before) ==> guest_bytes(after) == guest_bytes(before)
        } else {
            &&& r is Ok
            &&& r->Ok_0 == data@.len()
            &&& guest_shared(after) == guest_shared(before)
            &&& guest_bytes(after).len() == guest_bytes(before).len()
            &&& !guest_shared(before) ==> forall|i: int|
                0 <= i < guest_bytes(before).len() ==> #[trigger] guest_bytes(after)[i] == (
                if ptr <= i < ptr + data@.len() {
                    data@[i - ptr]
                } else {
                    guest_bytes(before)[i]
                })
            &&& guest_shared(before) ==> guest_sent(after) == guest_sent(before).push((ptr, data@))
        },
{
}

/// The guest's buffer may be larger than the data: a write with room to spare succeeds
/// and tells the length of the data.
pub proof fn law_write_with_room(
    mem: GuestMemory<'_>,
    ptr: GuestAddr,
    max_len: Size,
    data: Seq<u8>,
)
    requires
        guest_bytes(mem).len() <= usize::MAX,
        data.len() <= max_len,
        data.len() == 0 || ptr + data.len() <= guest_bytes(mem).len(),
    ensures
        write_result(mem, ptr, max_len, data) is Ok,
        write_result(mem, ptr, max_len, data)->Ok_0 == data.len(),
{
}

/// How much room there is beyond the data makes no difference to a write: two calls that
/// differ in the room alone, both with enough of it, give the same result and leave the
/// same bytes.
pub proof fn law_room_makes_no_difference(
    mem1: &mut GuestMemory<'_>,
    mem2: &mut GuestMemory<'_>,
    ptr: GuestAddr,
    room1: Size,
    room2: Size,
    data: &[u8],
    r1: WResult<Size>,
    r2: WResult<Size>,
)
    requires
        *old(mem1) == *old(mem2),
        data@.len() <= room1 && data@.len() <= room2,
        call_ensures(write_bytes, (mem1, ptr, room1, data), r1),
        call_ensures(write_bytes, (mem2, ptr, room2, data), r2),
    ensures
        r1 == r2,
        !guest_shared(*old(mem1)) ==> guest_bytes(*final(mem1)) == guest_bytes(*final(mem2)),
        guest_shared(*old(mem1)) ==> guest_sent(*final(mem1)) == guest_sent(*final(mem2)),
{
}

/// What was written is read back, over the calls themselves: where a write into unshared
/// memory succeeds, a read of as many bytes at the same address gives the data.
pub proof fn law_write_bytes_then_read_bytes(
    mem: &mut GuestMemory<'_>,
    later: &GuestMemory<'_>,
    ptr: GuestAddr,
    max_len: Size,
    data: &[u8],
    n: Size,
    r: WResult<Vec<u8>>,
)
    requires
        !guest_shared(*old(mem)),
        guest_bytes(*old(mem)).len() <= usize::MAX,
        data@.len() > 0 || ptr <= guest_bytes(*old(mem)).len(),
        call_ensures(write_bytes, (mem, ptr, max_len, data), Ok(n)),
        *later == *final(mem),
        call_ensures(read_bytes, (later, ptr, n), r),
    ensures
        r is Ok,
        r->Ok_0@ == data@,
{
    assert(r->Ok_0@ =~= data@);
}

// --- Buffers that the host fills ----------------------------------------------

/// Scratch space is as long as was asked for and all zeros.
pub proof fn law_zeroed(len: Size, r: Vec<u8>)
    requires
        call_ensures(zeroed, (len,), r),
    ensures
        r@.len() == len,
        forall|i: int| 0 <= i < len ==> #[trigger] r@[i] == 0,
{
}

/// Scratch space as the contracts speak of it is as long as the guest's buffer and all
/// zeros.
pub proof fn law_zeros(len: Size)
    ensures
        zeros(len).len() == len,
        forall|i: int| 0 <= i < len ==> #[trigger] zeros(len)[i] == 0,
{
}

/// The output buffer that the host is lent has exactly the length that the guest passed.
/// In unshared memory it is the guest's own, with what stands there; for a shared one it
/// is zeros.
pub proof fn law_lent_buffer(mem: GuestMemory<'_>, ptr: GuestAddr, len: Size, found: Seq<u8>)
    requires
        buffer_lent(mem, ptr, len, found),
    ensures
        found.len() == len,
        ptr + len <= guest_bytes(mem).len(),
        !guest_shared(mem) ==> found == guest_bytes(mem).subrange(ptr as int, ptr + len),
        guest_shared(mem) ==> forall|i: int| 0 <= i < len ==> #[trigger] found[i] == 0,
{
}

/// A count is told as it is if the guest's integers hold it, and by its low bits if not.
pub proof fn law_tell_size(n: usize, r: Size)
    requires
        call_ensures(tell_size, (n,), r),
    ensures
        n <= Size::MAX ==> r == n,
        r as int == n as int % 0x1_0000_0000,
{
    let m: u64 = n as u64;
    assert(m as u32 as u64 == m % 0x1_0000_0000u64) by (bit_vector);
}

/// The host is lent zeros of exactly the length asked for, once, and what comes back are
/// the bytes that it counted, or its refusal.
pub proof fn law_staged<C, F>(ctx: &mut C, len: Size, fill: F, r: HostResult<Vec<u8>>) where
    F: FnOnce(&mut C, &mut [u8]) -> HostResult<usize>,
    requires
        forall|c: &mut C, out: &mut [u8], n: usize|
            fill.ensures((c, out), Ok(n)) ==> n <= final(out)@.len(),
        call_ensures(staged::<C, F>, (ctx, len, fill), r),
    ensures
        exists|c: &mut C, out: &mut [u8], reply: HostResult<usize>|
            {
                &&& *c == *old(ctx) && *final(c) == *final(ctx)
                &&& out@.len() == len
                &&& forall|i: int| 0 <= i < len ==> #[trigger] out@[i] == 0
                &&& #[trigger] fill.ensures((c, out), reply)
                &&& match reply {
                    Ok(n) => {
                        &&& r is Ok
                        &&& r->Ok_0@.len() == n
                        &&& forall|i: int|
                            0 <= i < n ==> #[trigger] r->Ok_0@[i] == final(out)@[i]
                    },
                    Err(e) => r == Err::<Vec<u8>, CryptoError>(e),
                }
            },
{
}

/// Filling an output buffer faults exactly where the buffer does not lie in guest memory,
/// and then leaves the host alone. Elsewhere the host is lent a buffer of exactly the
/// guest's length, once: in unshared memory the guest's own, where what it leaves stays,
/// for a shared one zeros, of which what it counts is copied. Its count or its refusal is
/// told.
pub proof fn law_fill_out_buf<C, F>(
    ctx: &mut C,
    mem: &mut GuestMemory<'_>,
    ptr: GuestAddr,
    len: Size,
    fill: F,
    r: WResult<Size>,
    before: GuestMemory<'_>,
    after: GuestMemory<'_>,
) where F: FnOnce(&mut C, &mut [u8]) -> HostResult<usize>
    requires
        before == *old(mem) && after == *final(mem),
        guest_bytes(before).len() <= usize::MAX,
        guest_shared(before) ==> forall|c: &mut C, out: &mut [u8], n: usize|
            fill.ensures((c, out), Ok(n)) ==> n <= final(out)@.len(),
        call_ensures(fill_out_buf::<C, F>, (ctx, mem, ptr, len, fill), r),
    ensures
        if ptr + len > guest_bytes(before).len() {
            &&& r == Err::<Size, WasiCryptoError>(WasiCryptoError::Guest(bounds_error(ptr, len)))
            &&& *final(ctx) == *old(ctx)
            &&& guest_shared(after) == guest_shared(before)
            &&& guest_bytes(after).len() == guest_bytes(before).len()
            &&& guest_sent(after) == guest_sent(before)
            &&& !guest_shared(before) ==> guest_bytes(after) == guest_bytes(before)
        } else {
            exists|c: &mut C, out: &mut [u8], reply: HostResult<usize>|
                {
                    &&& *c == *old(ctx) && *final(c) == *final(ctx)
                    &&& out@.len() == len
                    &&& forall|i: int|
                        0 <= i < len ==> #[trigger] out@[i] == if guest_shared(before) {
                            0
                        } else {
                            guest_bytes(before)[ptr + i]
                        }
                    &&& #[trigger] fill.ensures((c, out), reply)
                    &&& guest_shared(after) == guest_shared(before)
                    &&& guest_bytes(after).len() == guest_bytes(before).len()
                    &&& match reply {
                        Ok(n) => if guest_shared(before) && n > len {
                            r == Err::<Size, WasiCryptoError>(
                                WasiCryptoError::Crypto(CryptoError::Overflow),
                            )
                        } else {
                            r == Ok::<Size, WasiCryptoError>(n as Size)
                        },
                        Err(e) => r == Err::<Size, WasiCryptoError>(WasiCryptoError::Crypto(e)),
                    }
                    &&& guest_shared(before) ==> guest_sent(after) == match reply {
                        Ok(n) => if n <= len {
                            guest_sent(before).push((ptr, final(out)@.subrange(0, n as int)))
                        } else {
                            guest_sent(before)
                        },
                        Err(_) => guest_sent(before),
                    }
                    &&& !guest_shared(before) ==> final(out)@.len() == len && forall|i: int|
                        0 <= i < guest_bytes(before).len() ==> #[trigger] guest_bytes(after)[i] == (
                        if ptr <= i < ptr + len {
                            final(out)@[i - ptr]
                        } else {
                            guest_bytes(before)[i]
                        })
                }
        },
{
}

/// A squeeze that the host grants into a buffer that lies in guest memory succeeds, and the
/// bytes of the buffer are those that the host left in the space it was lent, which is as
/// long as the buffer.
pub proof fn law_granted_squeeze<C, F>(
    ctx: &mut WasiCryptoCtx<C>,
    mem: &mut GuestMemory<'_>,
    handle: SymmetricState,
    out: GuestAddr,
    out_len: Size,
    call: F,
    r: WResult<()>,
) where F: FnOnce(&mut C, Handle, &mut [u8]) -> HostResult<()>
    requires
        !guest_shared(*old(mem)),
        guest_bytes(*old(mem)).len() <= usize::MAX,
        out + out_len <= guest_bytes(*old(mem)).len(),
        forall|c: &mut C, buffer: &mut [u8], reply: HostResult<()>|
            buffer@.len() == out_len && #[trigger] call.ensures((c, handle.0, buffer), reply) ==> {
                &&& reply is Ok
                &&& final(buffer)@.len() == out_len
            },
        call_ensures(
            WasiCryptoCtx::<C>::symmetric_state_squeeze::<F>,
            (ctx, mem, handle, out, out_len, call),
            r,
        ),
    ensures
        r is Ok,
        exists|c: &mut C, buffer: &mut [u8], reply: HostResult<()>|
            {
                &&& *c == old(ctx).host() && *final(c) == final(ctx).host()
                &&& buffer@.len() == out_len
                &&& #[trigger] call.ensures((c, handle.0, buffer), reply)
                &&& reply is Ok
                &&& guest_bytes(*final(mem)).subrange(out as int, out + out_len) == final(buffer)@
            },
{
    assert forall|left: Seq<u8>| #[trigger]
        write_effect(*old(mem), *final(mem), out, out_len, left) && left.len()
            == out_len implies guest_bytes(*final(mem)).subrange(out as int, out + out_len)
        == left by {
        assert(guest_bytes(*final(mem)).subrange(out as int, out + out_len) =~= left);
    }
}

// --- Errors -------------------------------------------------------------------

/// A reply is passed on: its value as it is, its error as a crypto error.
pub proof fn law_lift<T>(reply: HostResult<T>, r: WResult<T>)
    requires
        call_ensures(lift::<T>, (reply,), r),
    ensures
        match reply {
            Ok(v) => r == Ok::<T, WasiCryptoError>(v),
            Err(e) => r == Err::<T, WasiCryptoError>(WasiCryptoError::Crypto(e)),
        },
{
}

/// The guest is handed the code of the same name as the host's error, and `GuestError` for
/// every fault in guest memory.
pub proof fn law_to_errno(e: WasiCryptoError, r: CryptoErrno)
    requires
        call_ensures(to_errno, (e,), r),
    ensures
        r is Success <==> e is Crypto && e->Crypto_0 is Success,
        r is GuestError <==> e is Guest || (e is Crypto && e->Crypto_0 is GuestError),
        r is NotImplemented <==> e is Crypto && e->Crypto_0 is NotImplemented,
        r is UnsupportedFeature <==> e is Crypto && e->Crypto_0 is UnsupportedFeature,
        r is ProhibitedOperation <==> e is Crypto && e->Crypto_0 is ProhibitedOperation,
        r is UnsupportedEncoding <==> e is Crypto && e->Crypto_0 is UnsupportedEncoding,
        r is UnsupportedAlgorithm <==> e is Crypto && e->Crypto_0 is UnsupportedAlgorithm,
        r is UnsupportedOption <==> e is Crypto && e->Crypto_0 is UnsupportedOption,
        r is InvalidKey <==> e is Crypto && e->Crypto_0 is InvalidKey,
        r is InvalidLength <==> e is Crypto && e->Crypto_0 is InvalidLength,
        r is VerificationFailed <==> e is Crypto && e->Crypto_0 is VerificationFailed,
        r is RngError <==> e is Crypto && e->Crypto_0 is RNGError,
        r is AlgorithmFailure <==> e is Crypto && e->Crypto_0 is AlgorithmFailure,
        r is InvalidSignature <==> e is Crypto && e->Crypto_0 is InvalidSignature,
        r is Closed <==> e is Crypto && e->Crypto_0 is Closed,
        r is InvalidHandle <==> e is Crypto && e->Crypto_0 is InvalidHandle,
        r is Overflow <==> e is Crypto && e->Crypto_0 is Overflow,
        r is InternalError <==> e is Crypto && e->Crypto_0 is InternalError,
        r is TooManyHandles <==> e is Crypto && e->Crypto_0 is TooManyHandles,
        r is KeyNotSupported <==> e is Crypto && e->Crypto_0 is KeyNotSupported,
        r is KeyRequired <==> e is Crypto && e->Crypto_0 is KeyRequired,
        r is InvalidTag <==> e is Crypto && e->Crypto_0 is InvalidTag,
        r is InvalidOperation <==> e is Crypto && e->Crypto_0 is InvalidOperation,
        r is NonceRequired <==> e is Crypto && e->Crypto_0 is NonceRequired,
        r is InvalidNonce <==> e is Crypto && e->Crypto_0 is InvalidNonce,
        r is OptionNotSet <==> e is Crypto && e->Crypto_0 is OptionNotSet,
        r is NotFound <==> e is Crypto && e->Crypto_0 is NotFound,
        r is ParametersMissing <==> e is Crypto && e->Crypto_0 is ParametersMissing,
        r is IncompatibleKeys <==> e is Crypto && e->Crypto_0 is IncompatibleKeys,
        r is Expired <==> e is Crypto && e->Crypto_0 is Expired,
{
}

/// An error of the host becomes a crypto error, and one of guest memory a guest error.
pub proof fn law_error_kinds(
    c: CryptoError,
    from_crypto: WasiCryptoError,
    g: GuestError,
    from_guest: WasiCryptoError,
)
    requires
        call_ensures(<WasiCryptoError as From<CryptoError>>::from, (c,), from_crypto),
        call_ensures(<WasiCryptoError as From<GuestError>>::from, (g,), from_guest),
    ensures
        from_crypto == WasiCryptoError::Crypto(c),
        from_guest == WasiCryptoError::Guest(g),
{
}

// --- Names --------------------------------------------------------------------

/// An algorithm family keeps its name on the way to the host.
pub proof fn law_algorithm_type_keeps_its_name(
    x: types::AlgorithmType,
    r: host::AlgorithmType,
)
    requires
        call_ensures(<host::AlgorithmType as From<types::AlgorithmType>>::from, (x,), r),
    ensures
        r is Signatures <==> x is Signatures,
        r is Symmetric <==> x is Symmetric,
        r is KeyExchange <==> x is KeyExchange,
{
}

/// A key pair encoding keeps its name on the way to the host.
pub proof fn law_keypair_encoding_keeps_its_name(
    x: types::KeypairEncoding,
    r: host::KeyPairEncoding,
)
    requires
        call_ensures(<host::KeyPairEncoding as From<types::KeypairEncoding>>::from, (x,), r),
    ensures
        r is Raw <==> x is Raw,
        r is Pkcs8 <==> x is Pkcs8,
        r is Pem <==> x is Pem,
        r is Local <==> x is Local,
{
}

/// A public key encoding keeps its name on the way to the host.
pub proof fn law_publickey_encoding_keeps_its_name(
    x: types::PublickeyEncoding,
    r: host::PublicKeyEncoding,
)
    requires
        call_ensures(<host::PublicKeyEncoding as From<types::PublickeyEncoding>>::from, (x,), r),
    ensures
        r is Raw <==> x is Raw,
        r is Pkcs8 <==> x is Pkcs8,
        r is Pem <==> x is Pem,
        r is Sec <==> x is Sec,
        r is Local <==> x is Local,
{
}

/// A secret key encoding keeps its name on the way to the host.
pub proof fn law_secretkey_encoding_keeps_its_name(
    x: types::SecretkeyEncoding,
    r: host::SecretKeyEncoding,
)
    requires
        call_ensures(<host::SecretKeyEncoding as From<types::SecretkeyEncoding>>::from, (x,), r),
    ensures
        r is Raw <==> x is Raw,
        r is Pkcs8 <==> x is Pkcs8,
        r is Pem <==> x is Pem,
        r is Sec <==> x is Sec,
        r is Local <==> x is Local,
{
}

/// A signature encoding keeps its name on the way to the host.
pub proof fn law_signature_encoding_keeps_its_name(
    x: types::SignatureEncoding,
    r: host::SignatureEncoding,
)
    requires
        call_ensures(<host::SignatureEncoding as From<types::SignatureEncoding>>::from, (x,), r),
    ensures
        r is Raw <==> x is Raw,
        r is Der <==> x is Der,
{
}

/// The host gets an options handle exactly when the guest gives one, and the same one.
pub proof fn law_opt_options(o: &OptOptions, r: Option<Handle>)
    requires
        call_ensures(opt_options, (o,), r),
    ensures
        r is None <==> o is Absent,
        r matches Some(h) ==> *o == OptOptions::Present(Options(h)),
{
}

/// The host gets a symmetric key handle exactly when the guest gives one, and the same one.
pub proof fn law_opt_symmetric_key(o: &OptSymmetricKey, r: Option<Handle>)
    requires
        call_ensures(opt_symmetric_key, (o,), r),
    ensures
        r is None <==> o is Absent,
        r matches Some(h) ==> *o == OptSymmetricKey::Present(SymmetricKey(h)),
{
}

/// The functions start out on the context that they are put before.
pub proof fn law_new<C>(ctx: C, r: WasiCryptoCtx<C>)
    requires
        call_ensures(WasiCryptoCtx::<C>::new, (ctx,), r),
    ensures
        r.host() == ctx,
{
}

} // verus!
