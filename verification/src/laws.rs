//! What holds of the interface as a whole, stated over the models that the
//! functions' contracts speak of.

use crate::convert::{
    host_algorithm_type, host_keypair_encoding, host_publickey_encoding, host_secretkey_encoding,
    host_signature_encoding, options_handle, symmetric_key_handle,
};
use crate::ctx::WasiCryptoCtx;
use crate::error::{errno, host_errno, lifted, WResult, WasiCryptoError};
use crate::host;
use crate::host::{CryptoError, Handle, HostResult};
use crate::memory::{
    bounds_error, buffer_returned, bytes_fault, bytes_seen, fits, guest_bytes, guest_sent,
    guest_shared, once_written, overwritten, replayed, same_guest, text_fault, text_readable,
    text_seen, told, undisturbed, utf8_error, write_effect, write_result, written_guest,
};
use crate::types;
use crate::types::{
    CryptoErrno, GuestAddr, GuestStr, Keypair, Publickey, Secretkey, Signature, Size, SymmetricKey,
    SymmetricState, SymmetricTag,
};
use vstd::prelude::*;
use vstd::utf8::{
    decode_utf8, decode_utf8_encode_utf8, encode_utf8, encode_utf8_decode_utf8,
    encode_utf8_valid_utf8, valid_utf8,
};
use wiggle::{GuestError, GuestMemory};

verus! {

// --- Error codes ------------------------------------------------------------

/// The guest is told of success only where the host's own error says so. No
/// memory fault and no other host error passes for success.
pub proof fn law_errno_success(e: WasiCryptoError)
    ensures
        errno(e) == CryptoErrno::Success <==> e == WasiCryptoError::Crypto(CryptoError::Success),
{
}

/// Every fault in guest memory has the code `GuestError`, and no host error has
/// that code but the host's own of that name.
pub proof fn law_errno_guest_fault(e: WasiCryptoError)
    ensures
        errno(e) == CryptoErrno::GuestError <==> e is Guest || e == WasiCryptoError::Crypto(
            CryptoError::GuestError,
        ),
{
}

/// Different host errors have different codes, so the guest can tell them apart.
pub proof fn law_errno_distinct(a: CryptoError, b: CryptoError)
    ensures
        host_errno(a) == host_errno(b) <==> a == b,
{
}

/// A host refusal reaches the guest as the code of the host's error, and never as a
/// memory fault.
pub proof fn law_refusal_is_passed_on<T>(reply: HostResult<T>)
    ensures
        lifted(reply) is Ok <==> reply is Ok,
        reply matches Err(e) ==> {
            &&& lifted(reply) == Err::<T, WasiCryptoError>(WasiCryptoError::Crypto(e))
            &&& errno(lifted(reply)->Err_0) == host_errno(e)
        },
{
}

// --- Names ------------------------------------------------------------------

/// Different algorithm families of the guest are different ones of the host.
pub proof fn law_algorithm_types_distinct(a: types::AlgorithmType, b: types::AlgorithmType)
    ensures
        host_algorithm_type(a) == host_algorithm_type(b) <==> a == b,
{
}

/// Different key pair encodings of the guest are different ones of the host.
pub proof fn law_keypair_encodings_distinct(a: types::KeypairEncoding, b: types::KeypairEncoding)
    ensures
        host_keypair_encoding(a) == host_keypair_encoding(b) <==> a == b,
{
}

/// Different public key encodings of the guest are different ones of the host.
pub proof fn law_publickey_encodings_distinct(
    a: types::PublickeyEncoding,
    b: types::PublickeyEncoding,
)
    ensures
        host_publickey_encoding(a) == host_publickey_encoding(b) <==> a == b,
{
}

/// Different secret key encodings of the guest are different ones of the host.
pub proof fn law_secretkey_encodings_distinct(
    a: types::SecretkeyEncoding,
    b: types::SecretkeyEncoding,
)
    ensures
        host_secretkey_encoding(a) == host_secretkey_encoding(b) <==> a == b,
{
}

/// Different signature encodings of the guest are different ones of the host.
pub proof fn law_signature_encodings_distinct(
    a: types::SignatureEncoding,
    b: types::SignatureEncoding,
)
    ensures
        host_signature_encoding(a) == host_signature_encoding(b) <==> a == b,
{
}

/// The host gets an options handle exactly when the guest gives one, and the same
/// one.
pub proof fn law_options_handle(o: types::OptOptions)
    ensures
        options_handle(o) is None <==> o is Absent,
        forall|h: u32|
            options_handle(o) == Some(h) <==> o == types::OptOptions::Present(types::Options(h)),
{
    assert forall|h: u32| options_handle(o) == Some(h) implies o == types::OptOptions::Present(
        types::Options(h),
    ) by {
        assert(o->Present_0 == types::Options(h));
    }
}

/// The host gets a symmetric key handle exactly when the guest gives one, and the
/// same one.
pub proof fn law_symmetric_key_handle(o: types::OptSymmetricKey)
    ensures
        symmetric_key_handle(o) is None <==> o is Absent,
        forall|h: u32|
            symmetric_key_handle(o) == Some(h) <==> o == types::OptSymmetricKey::Present(
                types::SymmetricKey(h),
            ),
{
    assert forall|h: u32|
        symmetric_key_handle(o) == Some(h) implies o == types::OptSymmetricKey::Present(
        types::SymmetricKey(h),
    ) by {
        assert(o->Present_0 == types::SymmetricKey(h));
    }
}

// --- Reading ----------------------------------------------------------------

/// A read of bytes succeeds exactly when the region lies in guest memory.
pub proof fn law_read_bytes_success(mem: GuestMemory<'_>, ptr: GuestAddr, len: Size)
    ensures
        (exists|data: Seq<u8>| bytes_seen(mem, ptr, len, data)) <==> fits(mem, ptr, len as nat),
        (exists|e: GuestError| bytes_fault(mem, ptr, len, e)) <==> !fits(mem, ptr, len as nat),
{
    if fits(mem, ptr, len as nat) {
        let data = guest_bytes(mem).subrange(ptr as int, ptr + len);
        assert(bytes_seen(mem, ptr, len, data));
    } else {
        assert(bytes_fault(mem, ptr, len, bounds_error(ptr, len)));
    }
}

/// In unshared memory a read of bytes has one outcome.
pub proof fn law_read_bytes_outcome(
    mem: GuestMemory<'_>,
    ptr: GuestAddr,
    len: Size,
    a: Seq<u8>,
    b: Seq<u8>,
)
    requires
        !guest_shared(mem),
        bytes_seen(mem, ptr, len, a),
        bytes_seen(mem, ptr, len, b),
    ensures
        a == b,
{
}

/// In unshared memory a read of a string succeeds exactly when the region lies in
/// guest memory and holds UTF-8, and it faults exactly when it does not succeed.
pub proof fn law_read_str_success(mem: GuestMemory<'_>, s: GuestStr)
    requires
        !guest_shared(mem),
    ensures
        text_readable(mem, s) <==> {
            &&& fits(mem, s.ptr, s.len as nat)
            &&& valid_utf8(guest_bytes(mem).subrange(s.ptr as int, s.ptr + s.len))
        },
        (exists|e: GuestError| text_fault(mem, s, e)) <==> !text_readable(mem, s),
{
    let held = guest_bytes(mem).subrange(s.ptr as int, s.ptr + s.len);
    assert forall|text: Seq<char>| text_seen(mem, s, text) implies valid_utf8(held) by {
        encode_utf8_valid_utf8(text);
    }
    if !fits(mem, s.ptr, s.len as nat) {
        assert(text_fault(mem, s, bounds_error(s.ptr, s.len)));
    } else if valid_utf8(held) {
        decode_utf8_encode_utf8(held);
        assert(text_seen(mem, s, decode_utf8(held)));
    } else {
        assert(bytes_seen(mem, s.ptr, s.len, held));
        assert(text_fault(mem, s, utf8_error(held)));
    }
}

/// In unshared memory a read of a string has one outcome.
pub proof fn law_read_str_outcome(
    mem: GuestMemory<'_>,
    s: GuestStr,
    a: Seq<char>,
    b: Seq<char>,
)
    requires
        !guest_shared(mem),
        text_seen(mem, s, a),
        text_seen(mem, s, b),
    ensures
        a == b,
{
    encode_utf8_decode_utf8(a);
    encode_utf8_decode_utf8(b);
}

// --- Writing ----------------------------------------------------------------

/// The guest's buffer may be larger than the data, but never smaller: a smaller one
/// is refused as `Overflow`, and then guest memory is left alone, a shared one too.
pub proof fn law_short_buffer_is_overflow(
    before: GuestMemory<'_>,
    after: GuestMemory<'_>,
    ptr: GuestAddr,
    max_len: Size,
    data: Seq<u8>,
)
    requires
        write_effect(before, after, ptr, max_len, data),
    ensures
        data.len() > max_len <==> write_result(before, ptr, max_len, data) == Err::<
            Size,
            WasiCryptoError,
        >(WasiCryptoError::Crypto(CryptoError::Overflow)),
        data.len() > max_len ==> errno(write_result(before, ptr, max_len, data)->Err_0)
            == CryptoErrno::Overflow,
        data.len() > max_len ==> same_guest(before, after),
{
}

/// A write to unshared memory that succeeds reports the length of the data, and
/// reading that many bytes back gives the data and nothing else. (An empty write
/// succeeds at any address; reading there is another matter.)
pub proof fn law_write_then_read(
    before: GuestMemory<'_>,
    after: GuestMemory<'_>,
    ptr: GuestAddr,
    max_len: Size,
    data: Seq<u8>,
    n: Size,
)
    requires
        !guest_shared(before),
        write_result(before, ptr, max_len, data) == Ok::<Size, WasiCryptoError>(n),
        write_effect(before, after, ptr, max_len, data),
        data.len() > 0 || fits(before, ptr, 0),
    ensures
        n == data.len(),
        forall|seen: Seq<u8>| bytes_seen(after, ptr, n, seen) <==> seen == data,
{
    assert(guest_bytes(after).subrange(ptr as int, ptr + n) =~= data);
}

/// A string that was written to unshared memory as UTF-8 is read back as that string,
/// and never faults.
pub proof fn law_write_then_read_str(
    before: GuestMemory<'_>,
    after: GuestMemory<'_>,
    ptr: GuestAddr,
    max_len: Size,
    text: Seq<char>,
    n: Size,
)
    requires
        !guest_shared(before),
        write_result(before, ptr, max_len, encode_utf8(text)) == Ok::<Size, WasiCryptoError>(n),
        write_effect(before, after, ptr, max_len, encode_utf8(text)),
        text.len() > 0 || fits(before, ptr, 0),
    ensures
        forall|seen: Seq<char>|
            text_seen(after, GuestStr { ptr, len: n }, seen) <==> seen == text,
        forall|e: GuestError| !text_fault(after, GuestStr { ptr, len: n }, e),
{
    let data = encode_utf8(text);
    encode_utf8_decode_utf8(text);
    encode_utf8_valid_utf8(text);
    if text.len() > 0 && data.len() == 0 {
        assert(data =~= encode_utf8(Seq::empty()));
        encode_utf8_decode_utf8(Seq::empty());
    }
    law_write_then_read(before, after, ptr, max_len, data, n);
    assert forall|seen: Seq<char>| text_seen(after, GuestStr { ptr, len: n }, seen) implies seen
        == text by {
        encode_utf8_decode_utf8(seen);
    }
}

/// A guest memory of either kind that no one else writes holds, after a write that
/// succeeds, the data at their place and everywhere else what it held. A read of that
/// place that sees what the memory holds gives the data and nothing else.
pub proof fn law_write_undisturbed(
    before: GuestMemory<'_>,
    held: Seq<u8>,
    after: GuestMemory<'_>,
    now: Seq<u8>,
    ptr: GuestAddr,
    max_len: Size,
    data: Seq<u8>,
    n: Size,
)
    requires
        write_result(before, ptr, max_len, data) == Ok::<Size, WasiCryptoError>(n),
        write_effect(before, after, ptr, max_len, data),
        data.len() > 0 || fits(before, ptr, 0),
        undisturbed(before, held, after, now),
    ensures
        n == data.len(),
        now.len() == held.len(),
        forall|i: int|
            0 <= i < held.len() ==> #[trigger] now[i] == if ptr <= i < ptr + n {
                data[i - ptr]
            } else {
                held[i]
            },
        forall|seen: Seq<u8>|
            #![trigger bytes_seen(after, ptr, n, seen)]
            bytes_seen(after, ptr, n, seen) && seen == now.subrange(ptr as int, ptr + n) <==> seen
                == data,
{
    lemma_written(before, held, after, now, ptr, data);
    assert(now.subrange(ptr as int, ptr + n) =~= data);
}

/// A guest memory of either kind that no one else writes holds, after a write that is
/// refused, what it held.
pub proof fn law_refused_write_undisturbed(
    before: GuestMemory<'_>,
    held: Seq<u8>,
    after: GuestMemory<'_>,
    now: Seq<u8>,
    ptr: GuestAddr,
    max_len: Size,
    data: Seq<u8>,
)
    requires
        write_result(before, ptr, max_len, data) is Err,
        write_effect(before, after, ptr, max_len, data),
        undisturbed(before, held, after, now),
    ensures
        now == held,
{
    lemma_left_alone(before, held, after, now);
}

/// A write changes neither the size of guest memory nor what is read outside the
/// bytes written. This holds of a write that is refused, too.
pub proof fn law_write_keeps_the_rest(
    before: GuestMemory<'_>,
    after: GuestMemory<'_>,
    ptr: GuestAddr,
    max_len: Size,
    data: Seq<u8>,
    other: GuestAddr,
    len: Size,
    seen: Seq<u8>,
)
    requires
        write_effect(before, after, ptr, max_len, data),
        other + len <= ptr || ptr + data.len() <= other,
    ensures
        guest_shared(after) == guest_shared(before),
        guest_bytes(after).len() == guest_bytes(before).len(),
        bytes_seen(after, other, len, seen) <==> bytes_seen(before, other, len, seen),
{
    if fits(before, other, len as nat) && !guest_shared(before) {
        assert(guest_bytes(after).subrange(other as int, other + len) =~= guest_bytes(
            before,
        ).subrange(other as int, other + len));
    }
}

/// An output that is as long as the guest's buffer is never refused as too long: it
/// is written, or the buffer does not lie in guest memory.
pub proof fn law_whole_buffer_write<T>(
    mem: GuestMemory<'_>,
    ptr: GuestAddr,
    len: Size,
    left: Seq<u8>,
    v: T,
)
    requires
        left.len() == len,
    ensures
        once_written(write_result(mem, ptr, len, left), v) == if len == 0 || fits(
            mem,
            ptr,
            len as nat,
        ) {
            Ok::<T, WasiCryptoError>(v)
        } else {
            Err(WasiCryptoError::Guest(bounds_error(ptr, len)))
        },
{
}

/// What a memory that no one else writes holds after one write.
proof fn lemma_written(
    before: GuestMemory<'_>,
    held: Seq<u8>,
    after: GuestMemory<'_>,
    now: Seq<u8>,
    ptr: GuestAddr,
    data: Seq<u8>,
)
    requires
        written_guest(before, after, ptr, data),
        undisturbed(before, held, after, now),
    ensures
        now == overwritten(held, ptr as int, data),
{
    if guest_shared(before) {
        let sent = guest_sent(after).subrange(
            guest_sent(before).len() as int,
            guest_sent(after).len() as int,
        );
        assert(sent =~= seq![(ptr, data)]);
        assert(sent.drop_last() =~= Seq::empty());
        assert(replayed(held, sent.drop_last()) == held);
    }
}

/// What a memory that no one else writes holds after it was left alone.
proof fn lemma_left_alone(
    before: GuestMemory<'_>,
    held: Seq<u8>,
    after: GuestMemory<'_>,
    now: Seq<u8>,
)
    requires
        same_guest(before, after),
        undisturbed(before, held, after, now),
    ensures
        now == held,
{
    if guest_shared(before) {
        let sent = guest_sent(after).subrange(
            guest_sent(before).len() as int,
            guest_sent(after).len() as int,
        );
        assert(sent =~= Seq::empty());
    }
}

// --- Output buffers that the host fills -------------------------------------

/// Whether guest memory is shared or not makes no difference to what the guest is
/// told of a filled buffer: the host's count, which is at most the buffer's length,
/// or the host's refusal.
pub proof fn law_fill_is_told_alike(
    before: GuestMemory<'_>,
    after: GuestMemory<'_>,
    ptr: GuestAddr,
    len: Size,
    left: Seq<u8>,
    reply: HostResult<usize>,
    r: WResult<Size>,
)
    requires
        fits(before, ptr, len as nat),
        left.len() == len,
        reply matches Ok(n) ==> n <= len,
        buffer_returned(before, after, ptr, len, left, reply, r),
    ensures
        r == told(reply),
        reply matches Ok(n) ==> r == Ok::<Size, WasiCryptoError>(n as Size) && n as Size == n,
{
}

/// A fill of shared memory copies exactly the bytes that the host counted to the
/// buffer, in one copy, and nothing else, whatever the host wrote beyond them.
pub proof fn law_shared_fill_copies_the_count(
    before: GuestMemory<'_>,
    after: GuestMemory<'_>,
    ptr: GuestAddr,
    len: Size,
    left: Seq<u8>,
    n: usize,
    r: WResult<Size>,
)
    requires
        guest_shared(before),
        fits(before, ptr, len as nat),
        n <= left.len(),
        n <= len,
        buffer_returned(before, after, ptr, len, left, Ok(n), r),
    ensures
        r == Ok::<Size, WasiCryptoError>(n as Size),
        guest_sent(after) == guest_sent(before).push((ptr, left.subrange(0, n as int))),
{
}

/// A fill that the host refuses is told as the host's error, and a shared memory is
/// left alone: nothing of what the host wrote is copied.
pub proof fn law_refused_fill(
    before: GuestMemory<'_>,
    after: GuestMemory<'_>,
    ptr: GuestAddr,
    len: Size,
    left: Seq<u8>,
    e: CryptoError,
    r: WResult<Size>,
)
    requires
        buffer_returned(before, after, ptr, len, left, Err(e), r),
    ensures
        r == Err::<Size, WasiCryptoError>(WasiCryptoError::Crypto(e)),
        guest_shared(before) ==> same_guest(before, after),
        guest_shared(before) ==> forall|held: Seq<u8>, now: Seq<u8>| #[trigger]
            undisturbed(before, held, after, now) ==> now == held,
{
    if guest_shared(before) {
        assert forall|held: Seq<u8>, now: Seq<u8>| #[trigger]
            undisturbed(before, held, after, now) implies now == held by {
            lemma_left_alone(before, held, after, now);
        }
    }
}

/// A guest memory of either kind that no one else writes holds, after a fill, the bytes
/// that the host counted at the start of the buffer, and outside the buffer what it
/// held. A shared memory holds what it held in the rest of the buffer, too.
pub proof fn law_fill_undisturbed(
    before: GuestMemory<'_>,
    held: Seq<u8>,
    after: GuestMemory<'_>,
    now: Seq<u8>,
    ptr: GuestAddr,
    len: Size,
    left: Seq<u8>,
    n: usize,
    r: WResult<Size>,
)
    requires
        fits(before, ptr, len as nat),
        n <= left.len(),
        n <= len,
        buffer_returned(before, after, ptr, len, left, Ok(n), r),
        undisturbed(before, held, after, now),
    ensures
        r == Ok::<Size, WasiCryptoError>(n as Size),
        now.len() == held.len(),
        forall|i: int| 0 <= i < n ==> now[ptr + i] == #[trigger] left[i],
        forall|i: int|
            0 <= i < ptr || ptr + len <= i < held.len() ==> #[trigger] now[i] == held[i],
        guest_shared(before) ==> forall|i: int|
            ptr + n <= i < ptr + len ==> #[trigger] now[i] == held[i],
{
    if guest_shared(before) {
        lemma_written(before, held, after, now, ptr, left.subrange(0, n as int));
    } else {
        lemma_written(before, held, after, now, ptr, left);
    }
}

/// An unshared and a shared memory that hold the same bytes, and that no one else
/// writes, end up alike where the host fills both alike: the guest is told the same,
/// and the bytes that the host counted and all bytes outside the buffer are the same.
/// Of the bytes that a host leaves in its buffer only those that it counts need to be
/// the same.
pub proof fn law_fill_alike(
    unshared_before: GuestMemory<'_>,
    unshared_after: GuestMemory<'_>,
    unshared_now: Seq<u8>,
    unshared_left: Seq<u8>,
    unshared_r: WResult<Size>,
    shared_before: GuestMemory<'_>,
    shared_after: GuestMemory<'_>,
    shared_now: Seq<u8>,
    shared_left: Seq<u8>,
    shared_r: WResult<Size>,
    held: Seq<u8>,
    ptr: GuestAddr,
    len: Size,
    reply: HostResult<usize>,
)
    requires
        !guest_shared(unshared_before),
        guest_shared(shared_before),
        fits(unshared_before, ptr, len as nat),
        buffer_returned(
            unshared_before,
            unshared_after,
            ptr,
            len,
            unshared_left,
            reply,
            unshared_r,
        ),
        buffer_returned(shared_before, shared_after, ptr, len, shared_left, reply, shared_r),
        undisturbed(unshared_before, held, unshared_after, unshared_now),
        undisturbed(shared_before, held, shared_after, shared_now),
        reply matches Ok(n) ==> {
            &&& n <= len
            &&& n <= shared_left.len()
            &&& unshared_left.subrange(0, n as int) == shared_left.subrange(0, n as int)
        },
    ensures
        unshared_r == shared_r,
        unshared_now.len() == held.len(),
        shared_now.len() == held.len(),
        reply matches Ok(n) ==> unshared_now.subrange(ptr as int, ptr + n)
            == shared_now.subrange(ptr as int, ptr + n),
        forall|i: int|
            0 <= i < ptr || ptr + len <= i < held.len() ==> #[trigger] unshared_now[i]
                == shared_now[i],
{
    lemma_written(unshared_before, held, unshared_after, unshared_now, ptr, unshared_left);
    match reply {
        Ok(n) => {
            let counted = shared_left.subrange(0, n as int);
            lemma_written(shared_before, held, shared_after, shared_now, ptr, counted);
            assert forall|i: int| 0 <= i < n implies unshared_left[i] == counted[i] by {
                assert(unshared_left.subrange(0, n as int)[i] == counted[i]);
            }
            assert(unshared_now.subrange(ptr as int, ptr + n) =~= shared_now.subrange(
                ptr as int,
                ptr + n,
            ));
        },
        Err(_) => {
            lemma_left_alone(shared_before, held, shared_after, shared_now);
        },
    }
}

/// What the guest reads of its buffer in unshared memory after the host has filled it
/// is what the host left there, as far as the host counted.
pub proof fn law_fill_then_read(
    before: GuestMemory<'_>,
    after: GuestMemory<'_>,
    ptr: GuestAddr,
    len: Size,
    left: Seq<u8>,
    n: Size,
    r: WResult<Size>,
)
    requires
        !guest_shared(before),
        fits(before, ptr, len as nat),
        n <= len,
        buffer_returned(before, after, ptr, len, left, Ok(n as usize), r),
    ensures
        forall|seen: Seq<u8>|
            bytes_seen(after, ptr, n, seen) <==> seen == left.subrange(0, n as int),
{
    assert(guest_bytes(after).subrange(ptr as int, ptr + n) =~= left.subrange(0, n as int));
}

/// Filling a buffer changes neither the size of guest memory nor what is read
/// outside the buffer, whatever the host replies.
pub proof fn law_fill_keeps_the_rest(
    before: GuestMemory<'_>,
    after: GuestMemory<'_>,
    ptr: GuestAddr,
    len: Size,
    left: Seq<u8>,
    reply: HostResult<usize>,
    r: WResult<Size>,
    other: GuestAddr,
    other_len: Size,
    seen: Seq<u8>,
)
    requires
        buffer_returned(before, after, ptr, len, left, reply, r),
        other + other_len <= ptr || ptr + len <= other,
    ensures
        guest_shared(after) == guest_shared(before),
        guest_bytes(after).len() == guest_bytes(before).len(),
        bytes_seen(after, other, other_len, seen) <==> bytes_seen(before, other, other_len, seen),
{
    if fits(before, other, other_len as nat) && !guest_shared(before) {
        assert(guest_bytes(after).subrange(other as int, other + other_len) =~= guest_bytes(
            before,
        ).subrange(other as int, other + other_len));
    }
}

// --- Two calls --------------------------------------------------------------

/// The region of `len` bytes at `p` in `a` and the one at `q` in `b` hold the same
/// bytes, of memories that no one else can write.
pub open spec fn regions_alike(
    a: GuestMemory<'_>,
    p: GuestAddr,
    b: GuestMemory<'_>,
    q: GuestAddr,
    len: Size,
) -> bool {
    &&& !guest_shared(a) && fits(a, p, len as nat)
    &&& !guest_shared(b) && fits(b, q, len as nat)
    &&& guest_bytes(a).subrange(p as int, p + len) == guest_bytes(b).subrange(q as int, q + len)
}

/// The strings `s` in `a` and `t` in `b` hold the same bytes.
pub open spec fn strings_alike(
    a: GuestMemory<'_>,
    s: GuestStr,
    b: GuestMemory<'_>,
    t: GuestStr,
) -> bool {
    &&& s.len == t.len
    &&& regions_alike(a, s.ptr, b, t.ptr, s.len)
}

/// Strings of the same bytes are the same text, or none of them is any.
proof fn lemma_strings_alike(a: GuestMemory<'_>, s: GuestStr, b: GuestMemory<'_>, t: GuestStr)
    requires
        strings_alike(a, s, b, t),
    ensures
        forall|x: Seq<char>, y: Seq<char>| text_seen(a, s, x) && text_seen(b, t, y) ==> x == y,
        forall|x: Seq<char>, e: GuestError| text_seen(a, s, x) ==> !text_fault(b, t, e),
        forall|x: Seq<char>, e: GuestError| text_seen(b, t, x) ==> !text_fault(a, s, e),
{
    broadcast use encode_utf8_valid_utf8;

    assert forall|x: Seq<char>, y: Seq<char>| text_seen(a, s, x) && text_seen(b, t, y) implies x
        == y by {
        encode_utf8_decode_utf8(x);
        encode_utf8_decode_utf8(y);
    }
}

/// The bytes that the host counted are those at the start of the guest's buffer.
proof fn lemma_counted(
    before: GuestMemory<'_>,
    after: GuestMemory<'_>,
    ptr: GuestAddr,
    len: Size,
    r: WResult<Size>,
)
    requires
        !guest_shared(before),
        fits(before, ptr, len as nat),
    ensures
        forall|left: Seq<u8>, reply: HostResult<usize>|
            #![trigger buffer_returned(before, after, ptr, len, left, reply, r)]
            buffer_returned(before, after, ptr, len, left, reply, r) ==> {
                reply matches Ok(n) ==> n <= len ==> left.subrange(0, n as int) == guest_bytes(
                    after,
                ).subrange(ptr as int, ptr + n)
            },
{
    assert forall|left: Seq<u8>, n: usize|
        n <= len && buffer_returned(before, after, ptr, len, left, Ok(n), r) implies left.subrange(
        0,
        n as int,
    ) == guest_bytes(after).subrange(ptr as int, ptr + n) by {
        assert(left.subrange(0, n as int) =~= guest_bytes(after).subrange(ptr as int, ptr + n));
    }
}

/// Importing a key pair depends on the bytes that the guest points to and on nothing else
/// of its memory: two calls from the same host state, on the same bytes at whatever
/// addresses, give the same result and the same host state, where the host function
/// has one outcome.
pub proof fn law_keypair_import_by_bytes<C, F>(
    call: F,
    algorithm_type: types::AlgorithmType,
    encoding: types::KeypairEncoding,
    encoded_len: Size,
    ctx1: &mut WasiCryptoCtx<C>,
    mem1: &GuestMemory<'_>,
    algorithm1: GuestStr,
    encoded1: GuestAddr,
    r1: WResult<Keypair>,
    ctx2: &mut WasiCryptoCtx<C>,
    mem2: &GuestMemory<'_>,
    algorithm2: GuestStr,
    encoded2: GuestAddr,
    r2: WResult<Keypair>,
) where
    F: FnOnce(
        &mut C,
        host::AlgorithmType,
        &str,
        &[u8],
        host::KeyPairEncoding,
    ) -> HostResult<Handle>,
    requires
        call_ensures(
            WasiCryptoCtx::<C>::keypair_import::<F>,
            (ctx1, mem1, algorithm_type, algorithm1, encoded1, encoded_len, encoding, call),
            r1,
        ),
        call_ensures(
            WasiCryptoCtx::<C>::keypair_import::<F>,
            (ctx2, mem2, algorithm_type, algorithm2, encoded2, encoded_len, encoding, call),
            r2,
        ),
        old(ctx1).host() == old(ctx2).host(),
        strings_alike(*mem1, algorithm1, *mem2, algorithm2),
        regions_alike(*mem1, encoded1, *mem2, encoded2, encoded_len),
        forall|
            c1: &mut C,
            alg1: &str,
            bytes1: &[u8],
            reply1: HostResult<Handle>,
            c2: &mut C,
            alg2: &str,
            bytes2: &[u8],
            reply2: HostResult<Handle>,
        |
            {
                &&& *c1 == *c2 && alg1@ == alg2@ && bytes1@ == bytes2@
                &&& #[trigger] call.ensures(
                    (
                        c1,
                        host_algorithm_type(algorithm_type),
                        alg1,
                        bytes1,
                        host_keypair_encoding(encoding),
                    ),
                    reply1,
                )
                &&& #[trigger] call.ensures(
                    (
                        c2,
                        host_algorithm_type(algorithm_type),
                        alg2,
                        bytes2,
                        host_keypair_encoding(encoding),
                    ),
                    reply2,
                )
            } ==> reply1 == reply2 && *final(c1) == *final(c2),
    ensures
        r1 == r2,
        final(ctx1).host() == final(ctx2).host(),
{
    lemma_strings_alike(*mem1, algorithm1, *mem2, algorithm2);
}

/// Importing a public key depends on the bytes that the guest points to and on nothing else
/// of its memory: two calls from the same host state, on the same bytes at whatever
/// addresses, give the same result and the same host state, where the host function
/// has one outcome.
pub proof fn law_publickey_import_by_bytes<C, F>(
    call: F,
    algorithm_type: types::AlgorithmType,
    encoding: types::PublickeyEncoding,
    encoded_len: Size,
    ctx1: &mut WasiCryptoCtx<C>,
    mem1: &GuestMemory<'_>,
    algorithm1: GuestStr,
    encoded1: GuestAddr,
    r1: WResult<Publickey>,
    ctx2: &mut WasiCryptoCtx<C>,
    mem2: &GuestMemory<'_>,
    algorithm2: GuestStr,
    encoded2: GuestAddr,
    r2: WResult<Publickey>,
) where
    F: FnOnce(
        &mut C,
        host::AlgorithmType,
        &str,
        &[u8],
        host::PublicKeyEncoding,
    ) -> HostResult<Handle>,
    requires
        call_ensures(
            WasiCryptoCtx::<C>::publickey_import::<F>,
            (ctx1, mem1, algorithm_type, algorithm1, encoded1, encoded_len, encoding, call),
            r1,
        ),
        call_ensures(
            WasiCryptoCtx::<C>::publickey_import::<F>,
            (ctx2, mem2, algorithm_type, algorithm2, encoded2, encoded_len, encoding, call),
            r2,
        ),
        old(ctx1).host() == old(ctx2).host(),
        strings_alike(*mem1, algorithm1, *mem2, algorithm2),
        regions_alike(*mem1, encoded1, *mem2, encoded2, encoded_len),
        forall|
            c1: &mut C,
            alg1: &str,
            bytes1: &[u8],
            reply1: HostResult<Handle>,
            c2: &mut C,
            alg2: &str,
            bytes2: &[u8],
            reply2: HostResult<Handle>,
        |
            {
                &&& *c1 == *c2 && alg1@ == alg2@ && bytes1@ == bytes2@
                &&& #[trigger] call.ensures(
                    (
                        c1,
                        host_algorithm_type(algorithm_type),
                        alg1,
                        bytes1,
                        host_publickey_encoding(encoding),
                    ),
                    reply1,
                )
                &&& #[trigger] call.ensures(
                    (
                        c2,
                        host_algorithm_type(algorithm_type),
                        alg2,
                        bytes2,
                        host_publickey_encoding(encoding),
                    ),
                    reply2,
                )
            } ==> reply1 == reply2 && *final(c1) == *final(c2),
    ensures
        r1 == r2,
        final(ctx1).host() == final(ctx2).host(),
{
    lemma_strings_alike(*mem1, algorithm1, *mem2, algorithm2);
}

/// Importing a secret key depends on the bytes that the guest points to and on nothing else
/// of its memory: two calls from the same host state, on the same bytes at whatever
/// addresses, give the same result and the same host state, where the host function
/// has one outcome.
pub proof fn law_secretkey_import_by_bytes<C, F>(
    call: F,
    algorithm_type: types::AlgorithmType,
    encoding: types::SecretkeyEncoding,
    encoded_len: Size,
    ctx1: &mut WasiCryptoCtx<C>,
    mem1: &GuestMemory<'_>,
    algorithm1: GuestStr,
    encoded1: GuestAddr,
    r1: WResult<Secretkey>,
    ctx2: &mut WasiCryptoCtx<C>,
    mem2: &GuestMemory<'_>,
    algorithm2: GuestStr,
    encoded2: GuestAddr,
    r2: WResult<Secretkey>,
) where
    F: FnOnce(
        &mut C,
        host::AlgorithmType,
        &str,
        &[u8],
        host::SecretKeyEncoding,
    ) -> HostResult<Handle>,
    requires
        call_ensures(
            WasiCryptoCtx::<C>::secretkey_import::<F>,
            (ctx1, mem1, algorithm_type, algorithm1, encoded1, encoded_len, encoding, call),
            r1,
        ),
        call_ensures(
            WasiCryptoCtx::<C>::secretkey_import::<F>,
            (ctx2, mem2, algorithm_type, algorithm2, encoded2, encoded_len, encoding, call),
            r2,
        ),
        old(ctx1).host() == old(ctx2).host(),
        strings_alike(*mem1, algorithm1, *mem2, algorithm2),
        regions_alike(*mem1, encoded1, *mem2, encoded2, encoded_len),
        forall|
            c1: &mut C,
            alg1: &str,
            bytes1: &[u8],
            reply1: HostResult<Handle>,
            c2: &mut C,
            alg2: &str,
            bytes2: &[u8],
            reply2: HostResult<Handle>,
        |
            {
                &&& *c1 == *c2 && alg1@ == alg2@ && bytes1@ == bytes2@
                &&& #[trigger] call.ensures(
                    (
                        c1,
                        host_algorithm_type(algorithm_type),
                        alg1,
                        bytes1,
                        host_secretkey_encoding(encoding),
                    ),
                    reply1,
                )
                &&& #[trigger] call.ensures(
                    (
                        c2,
                        host_algorithm_type(algorithm_type),
                        alg2,
                        bytes2,
                        host_secretkey_encoding(encoding),
                    ),
                    reply2,
                )
            } ==> reply1 == reply2 && *final(c1) == *final(c2),
    ensures
        r1 == r2,
        final(ctx1).host() == final(ctx2).host(),
{
    lemma_strings_alike(*mem1, algorithm1, *mem2, algorithm2);
}

/// Importing a signature depends on the bytes that the guest points to and on nothing else
/// of its memory: two calls from the same host state, on the same bytes at whatever
/// addresses, give the same result and the same host state, where the host function
/// has one outcome.
pub proof fn law_signature_import_by_bytes<C, F>(
    call: F,
    encoding: types::SignatureEncoding,
    encoded_len: Size,
    ctx1: &mut WasiCryptoCtx<C>,
    mem1: &GuestMemory<'_>,
    algorithm1: GuestStr,
    encoded1: GuestAddr,
    r1: WResult<Signature>,
    ctx2: &mut WasiCryptoCtx<C>,
    mem2: &GuestMemory<'_>,
    algorithm2: GuestStr,
    encoded2: GuestAddr,
    r2: WResult<Signature>,
) where
    F: FnOnce(&mut C, &str, &[u8], host::SignatureEncoding) -> HostResult<Handle>,
    requires
        call_ensures(
            WasiCryptoCtx::<C>::signature_import::<F>,
            (ctx1, mem1, algorithm1, encoded1, encoded_len, encoding, call),
            r1,
        ),
        call_ensures(
            WasiCryptoCtx::<C>::signature_import::<F>,
            (ctx2, mem2, algorithm2, encoded2, encoded_len, encoding, call),
            r2,
        ),
        old(ctx1).host() == old(ctx2).host(),
        strings_alike(*mem1, algorithm1, *mem2, algorithm2),
        regions_alike(*mem1, encoded1, *mem2, encoded2, encoded_len),
        forall|
            c1: &mut C,
            alg1: &str,
            bytes1: &[u8],
            reply1: HostResult<Handle>,
            c2: &mut C,
            alg2: &str,
            bytes2: &[u8],
            reply2: HostResult<Handle>,
        |
            {
                &&& *c1 == *c2 && alg1@ == alg2@ && bytes1@ == bytes2@
                &&& #[trigger] call.ensures(
                    (c1, alg1, bytes1, host_signature_encoding(encoding)),
                    reply1,
                )
                &&& #[trigger] call.ensures(
                    (c2, alg2, bytes2, host_signature_encoding(encoding)),
                    reply2,
                )
            } ==> reply1 == reply2 && *final(c1) == *final(c2),
    ensures
        r1 == r2,
        final(ctx1).host() == final(ctx2).host(),
{
    lemma_strings_alike(*mem1, algorithm1, *mem2, algorithm2);
}

/// Importing a symmetric key depends on the bytes that the guest points to and on nothing else
/// of its memory: two calls from the same host state, on the same bytes at whatever
/// addresses, give the same result and the same host state, where the host function
/// has one outcome.
pub proof fn law_symmetric_key_import_by_bytes<C, F>(
    call: F,
    encoded_len: Size,
    ctx1: &mut WasiCryptoCtx<C>,
    mem1: &GuestMemory<'_>,
    algorithm1: GuestStr,
    encoded1: GuestAddr,
    r1: WResult<SymmetricKey>,
    ctx2: &mut WasiCryptoCtx<C>,
    mem2: &GuestMemory<'_>,
    algorithm2: GuestStr,
    encoded2: GuestAddr,
    r2: WResult<SymmetricKey>,
) where
    F: FnOnce(&mut C, &str, &[u8]) -> HostResult<Handle>,
    requires
        call_ensures(
            WasiCryptoCtx::<C>::symmetric_key_import::<F>,
            (ctx1, mem1, algorithm1, encoded1, encoded_len, call),
            r1,
        ),
        call_ensures(
            WasiCryptoCtx::<C>::symmetric_key_import::<F>,
            (ctx2, mem2, algorithm2, encoded2, encoded_len, call),
            r2,
        ),
        old(ctx1).host() == old(ctx2).host(),
        strings_alike(*mem1, algorithm1, *mem2, algorithm2),
        regions_alike(*mem1, encoded1, *mem2, encoded2, encoded_len),
        forall|
            c1: &mut C,
            alg1: &str,
            bytes1: &[u8],
            reply1: HostResult<Handle>,
            c2: &mut C,
            alg2: &str,
            bytes2: &[u8],
            reply2: HostResult<Handle>,
        |
            {
                &&& *c1 == *c2 && alg1@ == alg2@ && bytes1@ == bytes2@
                &&& #[trigger] call.ensures((c1, alg1, bytes1), reply1)
                &&& #[trigger] call.ensures((c2, alg2, bytes2), reply2)
            } ==> reply1 == reply2 && *final(c1) == *final(c2),
    ensures
        r1 == r2,
        final(ctx1).host() == final(ctx2).host(),
{
    lemma_strings_alike(*mem1, algorithm1, *mem2, algorithm2);
}

/// Encryption copies its input before anything is written, so
/// the output may overlap it. Two calls from the same host state, on the same input
/// bytes and with room for the same number of output bytes, give the same result, the
/// same host state and the same output, wherever input and output lie, where the host
/// function has one outcome whatever its output buffer held.
pub proof fn law_symmetric_state_encrypt_may_overlap<C, F>(
    call: F,
    handle: SymmetricState,
    out_len: Size,
    data_len: Size,
    ctx1: &mut WasiCryptoCtx<C>,
    mem1: &mut GuestMemory<'_>,
    out1: GuestAddr,
    data1: GuestAddr,
    r1: WResult<Size>,
    ctx2: &mut WasiCryptoCtx<C>,
    mem2: &mut GuestMemory<'_>,
    out2: GuestAddr,
    data2: GuestAddr,
    r2: WResult<Size>,
) where
    F: FnOnce(&mut C, Handle, &mut [u8], &[u8]) -> HostResult<usize>,
    requires
        call_ensures(
            WasiCryptoCtx::<C>::symmetric_state_encrypt::<F>,
            (ctx1, mem1, handle, out1, out_len, data1, data_len, call),
            r1,
        ),
        call_ensures(
            WasiCryptoCtx::<C>::symmetric_state_encrypt::<F>,
            (ctx2, mem2, handle, out2, out_len, data2, data_len, call),
            r2,
        ),
        old(ctx1).host() == old(ctx2).host(),
        regions_alike(*old(mem1), data1, *old(mem2), data2, data_len),
        fits(*old(mem1), out1, out_len as nat),
        fits(*old(mem2), out2, out_len as nat),
        forall|
            c1: &mut C,
            buffer1: &mut [u8],
            bytes1: &[u8],
            reply1: HostResult<usize>,
            c2: &mut C,
            buffer2: &mut [u8],
            bytes2: &[u8],
            reply2: HostResult<usize>,
        |
            {
                &&& *c1 == *c2 && buffer1@.len() == buffer2@.len() && bytes1@ == bytes2@
                &&& #[trigger] call.ensures((c1, handle.0, buffer1, bytes1), reply1)
                &&& #[trigger] call.ensures((c2, handle.0, buffer2, bytes2), reply2)
            } ==> {
                &&& reply1 == reply2 && *final(c1) == *final(c2)
                &&& reply1 matches Ok(n) ==> {
                    &&& n <= final(buffer1)@.len() && n <= final(buffer2)@.len()
                    &&& final(buffer1)@.subrange(0, n as int) == final(buffer2)@.subrange(
                        0,
                        n as int,
                    )
                }
            },
    ensures
        r1 == r2,
        final(ctx1).host() == final(ctx2).host(),
        r1 matches Ok(n) ==> regions_alike(*final(mem1), out1, *final(mem2), out2, n),
{
    lemma_counted(*old(mem1), *final(mem1), out1, out_len, r1);
    lemma_counted(*old(mem2), *final(mem2), out2, out_len, r2);
}

/// Encryption with the tag apart copies its input before anything is written, so
/// the output may overlap it. Two calls from the same host state, on the same input
/// bytes and with room for the same number of output bytes, give the same result, the
/// same host state and the same output, wherever input and output lie, where the host
/// function has one outcome whatever its output buffer held.
pub proof fn law_symmetric_state_encrypt_detached_may_overlap<C, F>(
    call: F,
    handle: SymmetricState,
    out_len: Size,
    data_len: Size,
    ctx1: &mut WasiCryptoCtx<C>,
    mem1: &mut GuestMemory<'_>,
    out1: GuestAddr,
    data1: GuestAddr,
    r1: WResult<SymmetricTag>,
    ctx2: &mut WasiCryptoCtx<C>,
    mem2: &mut GuestMemory<'_>,
    out2: GuestAddr,
    data2: GuestAddr,
    r2: WResult<SymmetricTag>,
) where
    F: FnOnce(&mut C, Handle, &mut [u8], &[u8]) -> HostResult<Handle>,
    requires
        call_ensures(
            WasiCryptoCtx::<C>::symmetric_state_encrypt_detached::<F>,
            (ctx1, mem1, handle, out1, out_len, data1, data_len, call),
            r1,
        ),
        call_ensures(
            WasiCryptoCtx::<C>::symmetric_state_encrypt_detached::<F>,
            (ctx2, mem2, handle, out2, out_len, data2, data_len, call),
            r2,
        ),
        old(ctx1).host() == old(ctx2).host(),
        regions_alike(*old(mem1), data1, *old(mem2), data2, data_len),
        fits(*old(mem1), out1, out_len as nat),
        fits(*old(mem2), out2, out_len as nat),
        forall|
            c1: &mut C,
            buffer1: &mut [u8],
            bytes1: &[u8],
            reply1: HostResult<Handle>,
            c2: &mut C,
            buffer2: &mut [u8],
            bytes2: &[u8],
            reply2: HostResult<Handle>,
        |
            {
                &&& *c1 == *c2 && buffer1@.len() == buffer2@.len() && bytes1@ == bytes2@
                &&& #[trigger] call.ensures((c1, handle.0, buffer1, bytes1), reply1)
                &&& #[trigger] call.ensures((c2, handle.0, buffer2, bytes2), reply2)
            } ==> {
                &&& reply1 == reply2 && *final(c1) == *final(c2)
                &&& final(buffer1)@.len() == buffer1@.len()
                &&& reply1 is Ok ==> final(buffer1)@ == final(buffer2)@
            },
    ensures
        r1 == r2,
        final(ctx1).host() == final(ctx2).host(),
        r1 is Ok ==> regions_alike(*final(mem1), out1, *final(mem2), out2, out_len),
{
    if r1 is Ok {
        assert(guest_bytes(*final(mem1)).subrange(out1 as int, out1 + out_len) =~= guest_bytes(
            *final(mem2),
        ).subrange(out2 as int, out2 + out_len));
    }
}

/// Decryption copies its input before anything is written, so
/// the output may overlap it. Two calls from the same host state, on the same input
/// bytes and with room for the same number of output bytes, give the same result, the
/// same host state and the same output, wherever input and output lie, where the host
/// function has one outcome whatever its output buffer held.
pub proof fn law_symmetric_state_decrypt_may_overlap<C, F>(
    call: F,
    handle: SymmetricState,
    out_len: Size,
    data_len: Size,
    ctx1: &mut WasiCryptoCtx<C>,
    mem1: &mut GuestMemory<'_>,
    out1: GuestAddr,
    data1: GuestAddr,
    r1: WResult<Size>,
    ctx2: &mut WasiCryptoCtx<C>,
    mem2: &mut GuestMemory<'_>,
    out2: GuestAddr,
    data2: GuestAddr,
    r2: WResult<Size>,
) where
    F: FnOnce(&mut C, Handle, &mut [u8], &[u8]) -> HostResult<usize>,
    requires
        call_ensures(
            WasiCryptoCtx::<C>::symmetric_state_decrypt::<F>,
            (ctx1, mem1, handle, out1, out_len, data1, data_len, call),
            r1,
        ),
        call_ensures(
            WasiCryptoCtx::<C>::symmetric_state_decrypt::<F>,
            (ctx2, mem2, handle, out2, out_len, data2, data_len, call),
            r2,
        ),
        old(ctx1).host() == old(ctx2).host(),
        regions_alike(*old(mem1), data1, *old(mem2), data2, data_len),
        fits(*old(mem1), out1, out_len as nat),
        fits(*old(mem2), out2, out_len as nat),
        forall|
            c1: &mut C,
            buffer1: &mut [u8],
            bytes1: &[u8],
            reply1: HostResult<usize>,
            c2: &mut C,
            buffer2: &mut [u8],
            bytes2: &[u8],
            reply2: HostResult<usize>,
        |
            {
                &&& *c1 == *c2 && buffer1@.len() == buffer2@.len() && bytes1@ == bytes2@
                &&& #[trigger] call.ensures((c1, handle.0, buffer1, bytes1), reply1)
                &&& #[trigger] call.ensures((c2, handle.0, buffer2, bytes2), reply2)
            } ==> {
                &&& reply1 == reply2 && *final(c1) == *final(c2)
                &&& reply1 matches Ok(n) ==> {
                    &&& n <= final(buffer1)@.len() && n <= final(buffer2)@.len()
                    &&& final(buffer1)@.subrange(0, n as int) == final(buffer2)@.subrange(
                        0,
                        n as int,
                    )
                }
            },
    ensures
        r1 == r2,
        final(ctx1).host() == final(ctx2).host(),
        r1 matches Ok(n) ==> regions_alike(*final(mem1), out1, *final(mem2), out2, n),
{
    lemma_counted(*old(mem1), *final(mem1), out1, out_len, r1);
    lemma_counted(*old(mem2), *final(mem2), out2, out_len, r2);
}

/// Decryption with the tag apart copies its input before anything is written, so
/// the output may overlap it. Two calls from the same host state, on the same input
/// bytes and with room for the same number of output bytes, give the same result, the
/// same host state and the same output, wherever input and output lie, where the host
/// function has one outcome whatever its output buffer held.
pub proof fn law_symmetric_state_decrypt_detached_may_overlap<C, F>(
    call: F,
    handle: SymmetricState,
    out_len: Size,
    data_len: Size,
    raw_tag_len: Size,
    ctx1: &mut WasiCryptoCtx<C>,
    mem1: &mut GuestMemory<'_>,
    out1: GuestAddr,
    data1: GuestAddr,
    raw_tag1: GuestAddr,
    r1: WResult<Size>,
    ctx2: &mut WasiCryptoCtx<C>,
    mem2: &mut GuestMemory<'_>,
    out2: GuestAddr,
    data2: GuestAddr,
    raw_tag2: GuestAddr,
    r2: WResult<Size>,
) where
    F: FnOnce(&mut C, Handle, &mut [u8], &[u8], &[u8]) -> HostResult<usize>,
    requires
        call_ensures(
            WasiCryptoCtx::<C>::symmetric_state_decrypt_detached::<F>,
            (ctx1, mem1, handle, out1, out_len, data1, data_len, raw_tag1, raw_tag_len, call),
            r1,
        ),
        call_ensures(
            WasiCryptoCtx::<C>::symmetric_state_decrypt_detached::<F>,
            (ctx2, mem2, handle, out2, out_len, data2, data_len, raw_tag2, raw_tag_len, call),
            r2,
        ),
        old(ctx1).host() == old(ctx2).host(),
        regions_alike(*old(mem1), data1, *old(mem2), data2, data_len),
        regions_alike(*old(mem1), raw_tag1, *old(mem2), raw_tag2, raw_tag_len),
        fits(*old(mem1), out1, out_len as nat),
        fits(*old(mem2), out2, out_len as nat),
        forall|
            c1: &mut C,
            buffer1: &mut [u8],
            bytes1: &[u8],
            tag1: &[u8],
            reply1: HostResult<usize>,
            c2: &mut C,
            buffer2: &mut [u8],
            bytes2: &[u8],
            tag2: &[u8],
            reply2: HostResult<usize>,
        |
            {
                &&& *c1 == *c2 && buffer1@.len() == buffer2@.len() && bytes1@ == bytes2@
                &&& tag1@ == tag2@
                &&& #[trigger] call.ensures((c1, handle.0, buffer1, bytes1, tag1), reply1)
                &&& #[trigger] call.ensures((c2, handle.0, buffer2, bytes2, tag2), reply2)
            } ==> {
                &&& reply1 == reply2 && *final(c1) == *final(c2)
                &&& reply1 matches Ok(n) ==> {
                    &&& n <= final(buffer1)@.len() && n <= final(buffer2)@.len()
                    &&& final(buffer1)@.subrange(0, n as int) == final(buffer2)@.subrange(
                        0,
                        n as int,
                    )
                }
            },
    ensures
        r1 == r2,
        final(ctx1).host() == final(ctx2).host(),
        r1 matches Ok(n) ==> regions_alike(*final(mem1), out1, *final(mem2), out2, n),
{
    lemma_counted(*old(mem1), *final(mem1), out1, out_len, r1);
    lemma_counted(*old(mem2), *final(mem2), out2, out_len, r2);
}

} // verus!
