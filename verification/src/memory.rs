//! Guest memory: reading arguments out of it and writing results back.
//!
//! A guest memory is a sequence of bytes with a flag that says whether other
//! agents share it. An unshared memory holds still between two calls of this
//! crate, so what is read and what is left there is stated byte for byte. A shared
//! one may change at any moment: only its length is lasting, and a read may see
//! any bytes. What this crate puts into it is stated all the same: which bytes are
//! copied to which address, in which order, and that nothing else is.

use crate::error::{WResult, WasiCryptoError};
use crate::host::{CryptoError, HostResult};
use crate::types::{GuestAddr, GuestStr, Size};
use vstd::prelude::*;
use vstd::utf8::{encode_utf8, valid_utf8};
use wiggle::{GuestError, GuestMemory, GuestPtr, Region};

verus! {

/// `wiggle::GuestMemory`, a view of a guest's linear memory. What it holds is
/// spoken of through [`guest_bytes`] and [`guest_shared`].
#[verifier::external_type_specification]
#[verifier::external_body]
pub struct ExGuestMemory<'a>(wiggle::GuestMemory<'a>);

/// The bytes of a guest memory: the slice that `GuestMemory::Unshared` holds. Of a
/// shared memory only the length of this sequence means anything.
pub uninterp spec fn guest_bytes(mem: GuestMemory<'_>) -> Seq<u8>;

/// Whether a guest memory is shared: the `GuestMemory::Shared` variant.
pub uninterp spec fn guest_shared(mem: GuestMemory<'_>) -> bool;

/// The copies that have been made into a shared guest memory through this view of
/// it, oldest first: the address and the bytes of each call of
/// `GuestMemory::copy_from_slice` that was accepted. The view keeps no such list; it
/// is the record of what this side has handed over, whatever others did to the
/// memory meanwhile.
pub uninterp spec fn guest_sent(mem: GuestMemory<'_>) -> Seq<(GuestAddr, Seq<u8>)>;

/// The fault of an access to a region that does not lie in guest memory:
/// `GuestError::PtrOutOfBounds` with that region.
pub uninterp spec fn bounds_error(ptr: GuestAddr, len: Size) -> GuestError;

/// The fault of reading bytes that are not UTF-8 as a string:
/// `GuestError::InvalidUtf8` with the error of `std::str::from_utf8` on them.
pub uninterp spec fn utf8_error(bytes: Seq<u8>) -> GuestError;

// --- What reading and writing mean ------------------------------------------

/// The end of the region of `len` bytes at `ptr` can be written as a host index.
pub open spec fn addressable(ptr: GuestAddr, len: nat) -> bool {
    ptr + len <= usize::MAX
}

/// The region of `len` bytes at `ptr` lies in guest memory.
pub open spec fn fits(mem: GuestMemory<'_>, ptr: GuestAddr, len: nat) -> bool {
    &&& addressable(ptr, len)
    &&& ptr + len <= guest_bytes(mem).len()
}

/// Reading `len` bytes at `ptr` may give `data`.
pub open spec fn bytes_seen(
    mem: GuestMemory<'_>,
    ptr: GuestAddr,
    len: Size,
    data: Seq<u8>,
) -> bool {
    &&& fits(mem, ptr, len as nat)
    &&& data.len() == len
    &&& !guest_shared(mem) ==> data == guest_bytes(mem).subrange(ptr as int, ptr + len)
}

/// Reading `len` bytes at `ptr` faults with `e`.
pub open spec fn bytes_fault(
    mem: GuestMemory<'_>,
    ptr: GuestAddr,
    len: Size,
    e: GuestError,
) -> bool {
    &&& !fits(mem, ptr, len as nat)
    &&& e == bounds_error(ptr, len)
}

/// Reading the string `s` may give `text`: the bytes there are its UTF-8 encoding.
pub open spec fn text_seen(mem: GuestMemory<'_>, s: GuestStr, text: Seq<char>) -> bool {
    bytes_seen(mem, s.ptr, s.len, encode_utf8(text))
}

/// Reading the string `s` may give some text.
pub open spec fn text_readable(mem: GuestMemory<'_>, s: GuestStr) -> bool {
    exists|text: Seq<char>| text_seen(mem, s, text)
}

/// Reading the string `s` may fault with `e`: the region is not in guest memory,
/// or the bytes seen there are not UTF-8.
pub open spec fn text_fault(mem: GuestMemory<'_>, s: GuestStr, e: GuestError) -> bool {
    ||| bytes_fault(mem, s.ptr, s.len, e)
    ||| exists|data: Seq<u8>|
        e == #[trigger] utf8_error(data) && bytes_seen(mem, s.ptr, s.len, data)
            && !valid_utf8(data)
}

/// `bytes` with `data` written over it from `ptr` on.
pub open spec fn overwritten(bytes: Seq<u8>, ptr: int, data: Seq<u8>) -> Seq<u8> {
    Seq::new(
        bytes.len(),
        |i: int|
            if ptr <= i < ptr + data.len() {
                data[i - ptr]
            } else {
                bytes[i]
            },
    )
}

/// Guest memory was left alone: an unshared one holds what it held, and into a
/// shared one nothing was copied.
pub open spec fn same_guest(before: GuestMemory<'_>, after: GuestMemory<'_>) -> bool {
    &&& guest_shared(after) == guest_shared(before)
    &&& guest_bytes(after).len() == guest_bytes(before).len()
    &&& guest_sent(after) == guest_sent(before)
    &&& !guest_shared(before) ==> guest_bytes(after) == guest_bytes(before)
}

/// `data` was written at `ptr`, and nothing else in guest memory was touched: an
/// unshared one holds `data` there, and into a shared one `data` was copied, once,
/// and nothing besides.
pub open spec fn written_guest(
    before: GuestMemory<'_>,
    after: GuestMemory<'_>,
    ptr: GuestAddr,
    data: Seq<u8>,
) -> bool {
    &&& guest_shared(after) == guest_shared(before)
    &&& guest_bytes(after).len() == guest_bytes(before).len()
    &&& !guest_shared(before) ==> guest_bytes(after) == overwritten(
        guest_bytes(before),
        ptr as int,
        data,
    )
    &&& guest_shared(before) ==> guest_sent(after) == guest_sent(before).push((ptr, data))
}

/// What copying `data` into the guest's buffer of `max_len` bytes at `ptr`
/// returns: the number of bytes copied, `Overflow` where the buffer is smaller
/// than the data, or a fault where the bytes to be written do not lie in guest
/// memory. An empty copy never faults.
pub open spec fn write_result(
    mem: GuestMemory<'_>,
    ptr: GuestAddr,
    max_len: Size,
    data: Seq<u8>,
) -> WResult<Size> {
    if data.len() > max_len {
        Err(WasiCryptoError::Crypto(CryptoError::Overflow))
    } else if data.len() > 0 && !fits(mem, ptr, data.len()) {
        Err(WasiCryptoError::Guest(bounds_error(ptr, data.len() as Size)))
    } else {
        Ok(data.len() as Size)
    }
}

/// What that copy does to guest memory: all of `data` is there, or nothing
/// changed.
pub open spec fn write_effect(
    before: GuestMemory<'_>,
    after: GuestMemory<'_>,
    ptr: GuestAddr,
    max_len: Size,
    data: Seq<u8>,
) -> bool {
    if write_result(before, ptr, max_len, data) is Ok {
        written_guest(before, after, ptr, data)
    } else {
        same_guest(before, after)
    }
}

/// A value to be returned once a write has come off, or the write's error.
pub open spec fn once_written<T>(written: WResult<Size>, v: T) -> WResult<T> {
    match written {
        Ok(_) => Ok(v),
        Err(e) => Err(e),
    }
}

/// `len` zero bytes.
pub open spec fn zeros(len: Size) -> Seq<u8> {
    Seq::new(len as nat, |i: int| 0u8)
}

/// A number of bytes as the guest is told it: the low bits that a [`Size`] holds.
pub open spec fn told_size(n: usize) -> Size {
    n as Size
}

/// A host reply that counts bytes, as the guest is told it.
pub open spec fn told(reply: HostResult<usize>) -> WResult<Size> {
    match reply {
        Ok(n) => Ok(told_size(n)),
        Err(e) => Err(WasiCryptoError::Crypto(e)),
    }
}

/// What the host found in the output buffer of `len` bytes at `ptr`. In unshared
/// memory the buffer is the guest's own, with what lies there; for a shared one it
/// is scratch space, all zeros.
pub open spec fn buffer_lent(
    mem: GuestMemory<'_>,
    ptr: GuestAddr,
    len: Size,
    found: Seq<u8>,
) -> bool {
    &&& fits(mem, ptr, len as nat)
    &&& found == if guest_shared(mem) {
        zeros(len)
    } else {
        guest_bytes(mem).subrange(ptr as int, ptr + len)
    }
}

/// `bytes` after the copies `sent` have been made into it one after the other.
pub open spec fn replayed(bytes: Seq<u8>, sent: Seq<(GuestAddr, Seq<u8>)>) -> Seq<u8>
    decreases sent.len(),
{
    if sent.len() == 0 {
        bytes
    } else {
        overwritten(
            replayed(bytes, sent.drop_last()),
            sent.last().0 as int,
            sent.last().1,
        )
    }
}

/// A guest memory that held `held` at `before` and that none but this side has written
/// since holds `now` at `after`. An unshared memory is one that no one else can
/// write; a shared one holds what the copies made since leave of `held`.
pub open spec fn undisturbed(
    before: GuestMemory<'_>,
    held: Seq<u8>,
    after: GuestMemory<'_>,
    now: Seq<u8>,
) -> bool {
    &&& held.len() == guest_bytes(before).len()
    &&& if guest_shared(before) {
        &&& guest_sent(before).is_prefix_of(guest_sent(after))
        &&& now == replayed(
            held,
            guest_sent(after).subrange(
                guest_sent(before).len() as int,
                guest_sent(after).len() as int,
            ),
        )
    } else {
        held == guest_bytes(before) && now == guest_bytes(after)
    }
}

/// What becomes of guest memory and of the host's `reply` once the host has left
/// `left` in its output buffer. In unshared memory `left` already stands in the
/// guest's buffer, whatever the reply. For a shared memory the bytes that the host
/// counts are copied out of the scratch space, and on a refusal none.
pub open spec fn buffer_returned(
    before: GuestMemory<'_>,
    after: GuestMemory<'_>,
    ptr: GuestAddr,
    len: Size,
    left: Seq<u8>,
    reply: HostResult<usize>,
    r: WResult<Size>,
) -> bool {
    if guest_shared(before) {
        match reply {
            Ok(n) => {
                let data = left.subrange(0, n as int);
                &&& r == write_result(before, ptr, len, data)
                &&& write_effect(before, after, ptr, len, data)
            },
            Err(_) => r == told(reply) && same_guest(before, after),
        }
    } else {
        &&& left.len() == len
        &&& written_guest(before, after, ptr, left)
        &&& r == told(reply)
    }
}

// --- The memory layer -------------------------------------------------------

/// Builds `wiggle::GuestError::PtrOutOfBounds` for a region, which is what
/// [`bounds_error`] names.
#[verifier::external_body]
fn out_of_bounds(ptr: GuestAddr, len: Size) -> (e: GuestError)
    ensures
        e == bounds_error(ptr, len),
{
    GuestError::PtrOutOfBounds(Region { start: ptr, len })
}

/// `wiggle::GuestMemory::as_cow`, made an owned copy: the bytes of the region, or
/// the bounds error where the region does not lie in guest memory. Of a shared
/// memory's bytes only the number is stated.
#[verifier::external_body]
fn guest_copy_out(mem: &GuestMemory<'_>, ptr: GuestAddr, len: Size) -> (r: Result<
    Vec<u8>,
    GuestError,
>)
    requires
        addressable(ptr, len as nat),
    ensures
        match r {
            Ok(data) => bytes_seen(*mem, ptr, len, data@),
            Err(e) => bytes_fault(*mem, ptr, len, e),
        },
{
    Ok(mem.as_cow(GuestPtr::<u8>::new(ptr).as_array(len))?.into_owned())
}

/// `wiggle::GuestMemory::as_cow_str`, made an owned copy: the text whose UTF-8
/// encoding the region holds; the bounds error where the region does not lie in
/// guest memory; the UTF-8 error where its bytes encode no text. Of a shared
/// memory's bytes only the number is stated, and the outcome follows from the
/// bytes that the call happened to see.
#[verifier::external_body]
fn guest_text_out(mem: &GuestMemory<'_>, s: GuestStr) -> (r: Result<String, GuestError>)
    requires
        addressable(s.ptr, s.len as nat),
    ensures
        match r {
            Ok(text) => text_seen(*mem, s, text@),
            Err(e) => {
                ||| bytes_fault(*mem, s.ptr, s.len, e)
                ||| exists|data: Seq<u8>|
                    e == #[trigger] utf8_error(data) && bytes_seen(*mem, s.ptr, s.len, data)
                        && !valid_utf8(data)
            },
        },
{
    Ok(mem.as_cow_str(GuestPtr::<str>::new((s.ptr, s.len)))?.into_owned())
}

/// `wiggle::GuestMemory::as_slice_mut`: the region of an unshared memory itself, so
/// that what its holder leaves in it is what guest memory holds afterwards; `None`
/// for a region of a shared memory; the bounds error where the region does not lie
/// in guest memory. A slice keeps its length while it is lent.
#[verifier::external_body]
fn guest_slice_mut<'m>(mem: &'m mut GuestMemory<'_>, ptr: GuestAddr, len: Size) -> (r: Result<
    Option<&'m mut [u8]>,
    GuestError,
>)
    requires
        addressable(ptr, len as nat),
    ensures
        match r {
            Ok(Some(slice)) => {
                &&& fits(*old(mem), ptr, len as nat)
                &&& !guest_shared(*old(mem))
                &&& slice@ == guest_bytes(*old(mem)).subrange(ptr as int, ptr + len)
                &&& final(slice)@.len() == len
                &&& written_guest(*old(mem), *final(mem), ptr, final(slice)@)
            },
            Ok(None) => {
                &&& fits(*old(mem), ptr, len as nat)
                &&& guest_shared(*old(mem))
                &&& same_guest(*old(mem), *final(mem))
            },
            Err(e) => {
                &&& bytes_fault(*old(mem), ptr, len, e)
                &&& same_guest(*old(mem), *final(mem))
            },
        },
{
    mem.as_slice_mut(GuestPtr::<u8>::new(ptr).as_array(len))
}

/// `wiggle::GuestMemory::copy_from_slice` to a region as long as `data`: the region
/// then holds `data`, or nothing is written and the bounds error comes back, where
/// the region does not lie in guest memory. Empty data are accepted whatever the
/// address is. Of a shared memory it is stated that these bytes were copied to this
/// address and nothing else was; what is found there later is not, since others may
/// write it at any time.
#[verifier::external_body]
fn guest_copy_in(mem: &mut GuestMemory<'_>, ptr: GuestAddr, data: &[u8]) -> (r: Result<
    (),
    GuestError,
>)
    requires
        data@.len() <= Size::MAX,
        addressable(ptr, data@.len()),
    ensures
        match r {
            Ok(()) => {
                &&& data@.len() == 0 || fits(*old(mem), ptr, data@.len())
                &&& written_guest(*old(mem), *final(mem), ptr, data@)
                &&& guest_shared(*old(mem)) ==> guest_sent(*final(mem)) == guest_sent(
                    *old(mem),
                ).push((ptr, data@))
            },
            Err(e) => {
                &&& data@.len() > 0
                &&& bytes_fault(*old(mem), ptr, data@.len() as Size, e)
                &&& same_guest(*old(mem), *final(mem))
            },
        },
{
    mem.copy_from_slice(data, GuestPtr::<u8>::new(ptr).as_array(data.len() as Size))
}

// --- Reading and writing ----------------------------------------------------

/// Whether the end of a region can be written as a host index.
fn is_addressable(ptr: GuestAddr, len: Size) -> (b: bool)
    ensures
        b == addressable(ptr, len as nat),
{
    ptr as u64 + len as u64 <= usize::MAX as u64
}

/// Reads a `(pointer, len)` pair out of guest memory into an owned buffer. The copy
/// is eager, so guest memory is free again before any output is written back.
pub fn read_bytes(mem: &GuestMemory<'_>, ptr: GuestAddr, len: Size) -> (r: WResult<Vec<u8>>)
    ensures
        match r {
            Ok(data) => bytes_seen(*mem, ptr, len, data@),
            Err(WasiCryptoError::Guest(e)) => bytes_fault(*mem, ptr, len, e),
            Err(WasiCryptoError::Crypto(_)) => false,
        },
{
    if !is_addressable(ptr, len) {
        return Err(WasiCryptoError::from(out_of_bounds(ptr, len)));
    }
    match guest_copy_out(mem, ptr, len) {
        Ok(data) => Ok(data),
        Err(e) => Err(WasiCryptoError::from(e)),
    }
}

/// Reads a guest string into an owned `String`.
pub fn read_str(mem: &GuestMemory<'_>, s: GuestStr) -> (r: WResult<String>)
    ensures
        match r {
            Ok(text) => text_seen(*mem, s, text@),
            Err(WasiCryptoError::Guest(e)) => text_fault(*mem, s, e),
            Err(WasiCryptoError::Crypto(_)) => false,
        },
{
    if !is_addressable(s.ptr, s.len) {
        return Err(WasiCryptoError::from(out_of_bounds(s.ptr, s.len)));
    }
    match guest_text_out(mem, s) {
        Ok(text) => Ok(text),
        Err(e) => Err(WasiCryptoError::from(e)),
    }
}

/// Copies `data` into a guest `(pointer, max_len)` buffer and returns the number of
/// bytes written. The guest's buffer may be larger than the data, but never
/// smaller.
pub fn write_bytes(
    mem: &mut GuestMemory<'_>,
    ptr: GuestAddr,
    max_len: Size,
    data: &[u8],
) -> (r: WResult<Size>)
    ensures
        r == write_result(*old(mem), ptr, max_len, data@),
        write_effect(*old(mem), *final(mem), ptr, max_len, data@),
{
    if data.len() > max_len as usize {
        return Err(WasiCryptoError::from(CryptoError::Overflow));
    }
    let len: Size = data.len() as Size;
    if !is_addressable(ptr, len) {
        return Err(WasiCryptoError::from(out_of_bounds(ptr, len)));
    }
    match guest_copy_in(mem, ptr, data) {
        Ok(()) => Ok(len),
        Err(e) => Err(WasiCryptoError::from(e)),
    }
}

/// Scratch space for a host function that fills a buffer.
pub fn zeroed(len: Size) -> (r: Vec<u8>)
    ensures
        r@ == zeros(len),
{
    let scratch: Vec<u8> = vec![0u8; len as usize];
    assert(scratch@ =~= zeros(len));
    scratch
}

/// A number of bytes as the guest is told it.
pub fn tell_size(n: usize) -> (r: Size)
    ensures
        r == told_size(n),
{
    n as Size
}

/// Runs a host operation that fills a buffer of `len` zero bytes and returns the bytes
/// that it counted, or its refusal and no byte.
pub fn staged<C, F>(ctx: &mut C, len: Size, fill: F) -> (r: HostResult<Vec<u8>>) where
    F: FnOnce(&mut C, &mut [u8]) -> HostResult<usize>,

    requires
        forall|c: &mut C, out: &mut [u8]| fill.requires((c, out)),
        forall|c: &mut C, out: &mut [u8], n: usize|
            fill.ensures((c, out), Ok(n)) ==> n <= final(out)@.len(),
    ensures
        exists|c: &mut C, out: &mut [u8], reply: HostResult<usize>|
            {
                &&& *c == *old(ctx) && *final(c) == *final(ctx)
                &&& out@ == zeros(len)
                &&& #[trigger] fill.ensures((c, out), reply)
                &&& match (reply, r) {
                    (Ok(n), Ok(data)) => data@ == final(out)@.subrange(0, n as int),
                    (Err(e), Err(refusal)) => refusal == e,
                    _ => false,
                }
            },
{
    let mut scratch: Vec<u8> = zeroed(len);
    match fill(ctx, scratch.as_mut_slice()) {
        Ok(n) => {
            scratch.truncate(n);
            Ok(scratch)
        },
        Err(e) => Err(e),
    }
}

/// Runs a host operation that fills a guest `(pointer, len)` output buffer and
/// reports how many bytes it wrote. On ordinary (unshared) memory the host writes
/// straight into the guest's buffer; for shared memory, of which no `&mut` view can
/// be handed out, it writes to scratch space, which is copied. Either way the
/// host's own bounds checks against the `len`-sized buffer apply. The scratch space
/// can be copied only if the host counts no more bytes than it holds.
pub fn fill_out_buf<C, F>(
    ctx: &mut C,
    mem: &mut GuestMemory<'_>,
    ptr: GuestAddr,
    len: Size,
    fill: F,
) -> (r: WResult<Size>) where F: FnOnce(&mut C, &mut [u8]) -> HostResult<usize>
    requires
        forall|c: &mut C, out: &mut [u8]| fill.requires((c, out)),
        guest_shared(*old(mem)) ==> forall|c: &mut C, out: &mut [u8], n: usize|
            fill.ensures((c, out), Ok(n)) ==> n <= final(out)@.len(),
    ensures
        match r {
            Err(WasiCryptoError::Guest(e)) => {
                &&& bytes_fault(*old(mem), ptr, len, e)
                &&& *final(ctx) == *old(ctx)
                &&& same_guest(*old(mem), *final(mem))
            },
            _ => exists|c: &mut C, out: &mut [u8], reply: HostResult<usize>|
                {
                    &&& *c == *old(ctx) && *final(c) == *final(ctx)
                    &&& buffer_lent(*old(mem), ptr, len, out@)
                    &&& #[trigger] fill.ensures((c, out), reply)
                    &&& buffer_returned(
                        *old(mem),
                        *final(mem),
                        ptr,
                        len,
                        final(out)@,
                        reply,
                        r,
                    )
                },
        },
{
    if !is_addressable(ptr, len) {
        return Err(WasiCryptoError::from(out_of_bounds(ptr, len)));
    }
    match guest_slice_mut(mem, ptr, len) {
        Err(e) => {
            return Err(WasiCryptoError::from(e));
        },
        Ok(Some(dst)) => {
            return match fill(ctx, dst) {
                Ok(n) => Ok(tell_size(n)),
                Err(e) => Err(WasiCryptoError::from(e)),
            };
        },
        Ok(None) => {},
    }
    match staged(ctx, len, fill) {
        Ok(data) => write_bytes(mem, ptr, len, data.as_slice()),
        Err(e) => Err(WasiCryptoError::from(e)),
    }
}

} // verus!
