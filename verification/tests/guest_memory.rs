use std::cell::UnsafeCell;
use wasi_crypto_wasmtime::error::{to_errno, WasiCryptoError};
use wasi_crypto_wasmtime::host::CryptoError;
use wasi_crypto_wasmtime::memory::{
    fill_out_buf, read_bytes, read_str, tell_size, write_bytes, zeroed,
};
use wasi_crypto_wasmtime::types::{CryptoErrno, GuestStr};
use wiggle::{GuestError, GuestMemory, Region};

fn cells(bytes: &[u8]) -> Vec<UnsafeCell<u8>> {
    bytes.iter().map(|b| UnsafeCell::new(*b)).collect()
}

fn held(cells: Vec<UnsafeCell<u8>>) -> Vec<u8> {
    cells.into_iter().map(|c| c.into_inner()).collect()
}

fn is_out_of_bounds(e: &WasiCryptoError, start: u32, len: u32) -> bool {
    matches!(
        e,
        WasiCryptoError::Guest(GuestError::PtrOutOfBounds(r)) if *r == Region { start, len }
    )
}

#[test]
fn read_bytes_copies_the_region() {
    let mut bytes: Vec<u8> = (0..16).collect();
    let mem = GuestMemory::Unshared(&mut bytes);
    assert_eq!(read_bytes(&mem, 3, 4).unwrap(), vec![3, 4, 5, 6]);
    assert_eq!(read_bytes(&mem, 0, 16).unwrap().len(), 16);
    assert_eq!(read_bytes(&mem, 12, 4).unwrap(), vec![12, 13, 14, 15]);
}

#[test]
fn read_bytes_at_the_end_of_memory() {
    let mut bytes = vec![7u8; 16];
    let mem = GuestMemory::Unshared(&mut bytes);
    assert_eq!(read_bytes(&mem, 16, 0).unwrap(), Vec::<u8>::new());
    assert!(is_out_of_bounds(&read_bytes(&mem, 17, 0).unwrap_err(), 17, 0));
    assert!(is_out_of_bounds(&read_bytes(&mem, 13, 4).unwrap_err(), 13, 4));
    let far = read_bytes(&mem, u32::MAX, u32::MAX).unwrap_err();
    assert!(is_out_of_bounds(&far, u32::MAX, u32::MAX));
    assert_eq!(to_errno(far), CryptoErrno::GuestError);
}

#[test]
fn read_bytes_of_shared_memory() {
    let shared = cells(&[1, 2, 3, 4, 5]);
    let mem = GuestMemory::Shared(&shared);
    assert_eq!(read_bytes(&mem, 1, 3).unwrap(), vec![2, 3, 4]);
    assert!(is_out_of_bounds(&read_bytes(&mem, 3, 3).unwrap_err(), 3, 3));
}

#[test]
fn read_str_decodes_utf8() {
    let mut bytes = b"..SHA-256..".to_vec();
    let mem = GuestMemory::Unshared(&mut bytes);
    assert_eq!(read_str(&mem, GuestStr { ptr: 2, len: 7 }).unwrap(), "SHA-256");
    assert_eq!(read_str(&mem, GuestStr { ptr: 11, len: 0 }).unwrap(), "");

    let mut bytes = "déjà vu".as_bytes().to_vec();
    let len = bytes.len() as u32;
    let mem = GuestMemory::Unshared(&mut bytes);
    assert_eq!(read_str(&mem, GuestStr { ptr: 0, len }).unwrap(), "déjà vu");
}

#[test]
fn read_str_refuses_what_is_not_utf8() {
    let mut bytes = vec![b'a', 0xff, b'b'];
    let mem = GuestMemory::Unshared(&mut bytes);
    let e = read_str(&mem, GuestStr { ptr: 0, len: 3 }).unwrap_err();
    assert!(matches!(&e, WasiCryptoError::Guest(GuestError::InvalidUtf8(u)) if u.valid_up_to() == 1));
    assert_eq!(to_errno(e), CryptoErrno::GuestError);
    // Cut in the middle of a character.
    let mut bytes = "é".as_bytes().to_vec();
    let mem = GuestMemory::Unshared(&mut bytes);
    let e = read_str(&mem, GuestStr { ptr: 0, len: 1 }).unwrap_err();
    assert!(matches!(e, WasiCryptoError::Guest(GuestError::InvalidUtf8(_))));
}

#[test]
fn read_str_out_of_bounds() {
    let mut bytes = b"abc".to_vec();
    let mem = GuestMemory::Unshared(&mut bytes);
    let e = read_str(&mem, GuestStr { ptr: 2, len: 2 }).unwrap_err();
    assert!(is_out_of_bounds(&e, 2, 2));
}

#[test]
fn read_str_of_shared_memory() {
    let shared = cells(b"HMAC\xff");
    let mem = GuestMemory::Shared(&shared);
    assert_eq!(read_str(&mem, GuestStr { ptr: 0, len: 4 }).unwrap(), "HMAC");
    let e = read_str(&mem, GuestStr { ptr: 0, len: 5 }).unwrap_err();
    assert!(matches!(e, WasiCryptoError::Guest(GuestError::InvalidUtf8(_))));
}

#[test]
fn write_then_read_gives_the_data_back() {
    let mut bytes = vec![0xaau8; 10];
    let mut mem = GuestMemory::Unshared(&mut bytes);
    assert_eq!(write_bytes(&mut mem, 2, 8, &[1, 2, 3]).unwrap(), 3);
    assert_eq!(read_bytes(&mem, 2, 3).unwrap(), vec![1, 2, 3]);
    assert_eq!(bytes, vec![0xaa, 0xaa, 1, 2, 3, 0xaa, 0xaa, 0xaa, 0xaa, 0xaa]);
}

#[test]
fn written_text_is_read_back() {
    let mut bytes = vec![0u8; 16];
    let mut mem = GuestMemory::Unshared(&mut bytes);
    let n = write_bytes(&mut mem, 5, 11, "naïve".as_bytes()).unwrap();
    assert_eq!(n, 6);
    assert_eq!(read_str(&mem, GuestStr { ptr: 5, len: n }).unwrap(), "naïve");
}

#[test]
fn write_fits_exactly() {
    let mut bytes = vec![0u8; 4];
    let mut mem = GuestMemory::Unshared(&mut bytes);
    assert_eq!(write_bytes(&mut mem, 0, 4, &[9, 8, 7, 6]).unwrap(), 4);
    assert_eq!(bytes, vec![9, 8, 7, 6]);
}

#[test]
fn write_to_a_short_buffer_overflows() {
    let mut bytes = vec![5u8; 8];
    let mut mem = GuestMemory::Unshared(&mut bytes);
    let e = write_bytes(&mut mem, 0, 2, &[1, 2, 3]).unwrap_err();
    assert!(matches!(e, WasiCryptoError::Crypto(CryptoError::Overflow)));
    assert_eq!(to_errno(e), CryptoErrno::Overflow);
    // The buffer is measured before the address is looked at.
    let e = write_bytes(&mut mem, 1000, 2, &[1, 2, 3]).unwrap_err();
    assert!(matches!(e, WasiCryptoError::Crypto(CryptoError::Overflow)));
    assert_eq!(bytes, vec![5u8; 8]);
}

#[test]
fn write_out_of_bounds_leaves_memory_alone() {
    let mut bytes = vec![5u8; 8];
    let mut mem = GuestMemory::Unshared(&mut bytes);
    let e = write_bytes(&mut mem, 6, 100, &[1, 2, 3]).unwrap_err();
    assert!(is_out_of_bounds(&e, 6, 3));
    assert_eq!(bytes, vec![5u8; 8]);
}

#[test]
fn write_checks_the_bytes_and_not_the_buffer() {
    // The buffer reaches past the end of memory, what is written does not.
    let mut bytes = vec![0u8; 8];
    let mut mem = GuestMemory::Unshared(&mut bytes);
    assert_eq!(write_bytes(&mut mem, 6, 100, &[1, 2]).unwrap(), 2);
    assert_eq!(bytes[6..], [1, 2]);
}

#[test]
fn empty_write_is_accepted_anywhere() {
    let mut bytes = vec![5u8; 8];
    let mut mem = GuestMemory::Unshared(&mut bytes);
    assert_eq!(write_bytes(&mut mem, 4_000_000_000, 0, &[]).unwrap(), 0);
    assert_eq!(bytes, vec![5u8; 8]);
}

#[test]
fn write_to_shared_memory() {
    let shared = cells(&[0; 6]);
    let mut mem = GuestMemory::Shared(&shared);
    assert_eq!(write_bytes(&mut mem, 1, 4, &[1, 2, 3]).unwrap(), 3);
    assert!(is_out_of_bounds(&write_bytes(&mut mem, 5, 4, &[1, 2]).unwrap_err(), 5, 2));
    assert_eq!(held(shared), vec![0, 1, 2, 3, 0, 0]);
}

#[test]
fn zeroed_and_told_sizes() {
    assert_eq!(zeroed(3), vec![0, 0, 0]);
    assert!(zeroed(0).is_empty());
    assert_eq!(tell_size(17), 17);
    assert_eq!(tell_size(u32::MAX as usize), u32::MAX);
    assert_eq!(tell_size((1u64 << 32) as usize + 5), 5);
}

#[test]
fn fill_lends_the_guest_buffer_itself() {
    let mut bytes: Vec<u8> = (0..8).collect();
    let mut mem = GuestMemory::Unshared(&mut bytes);
    let mut calls = 0u32;
    let n = fill_out_buf(&mut calls, &mut mem, 2, 4, |calls, out| {
        *calls += 1;
        assert_eq!(out, [2, 3, 4, 5]);
        out[0] = 100;
        out[1] = 101;
        Ok(2)
    });
    assert_eq!(n.unwrap(), 2);
    assert_eq!(calls, 1);
    assert_eq!(bytes, vec![0, 1, 100, 101, 4, 5, 6, 7]);
}

#[test]
fn fill_of_shared_memory_goes_through_scratch_space() {
    let shared = cells(&[9; 8]);
    let mut mem = GuestMemory::Shared(&shared);
    let mut calls = 0u32;
    let n = fill_out_buf(&mut calls, &mut mem, 2, 4, |calls, out| {
        *calls += 1;
        assert_eq!(out, [0, 0, 0, 0]);
        out.copy_from_slice(&[1, 2, 3, 4]);
        Ok(2)
    });
    assert_eq!(n.unwrap(), 2);
    assert_eq!(calls, 1);
    // Only what the host counted is copied.
    assert_eq!(held(shared), vec![9, 9, 1, 2, 9, 9, 9, 9]);
}

#[test]
fn fill_refused_by_the_host() {
    let mut bytes = vec![1u8; 4];
    let mut mem = GuestMemory::Unshared(&mut bytes);
    let r = fill_out_buf(&mut (), &mut mem, 0, 4, |_, out| {
        out[3] = 7;
        Err(CryptoError::InvalidTag)
    });
    assert!(matches!(r, Err(WasiCryptoError::Crypto(CryptoError::InvalidTag))));
    // The host had the guest's own buffer in its hands.
    assert_eq!(bytes, vec![1, 1, 1, 7]);

    let shared = cells(&[1; 4]);
    let mut mem = GuestMemory::Shared(&shared);
    let r = fill_out_buf(&mut (), &mut mem, 0, 4, |_, out| {
        out[3] = 7;
        Err(CryptoError::InvalidTag)
    });
    assert!(matches!(r, Err(WasiCryptoError::Crypto(CryptoError::InvalidTag))));
    assert_eq!(held(shared), vec![1, 1, 1, 1]);
}

#[test]
fn fill_out_of_bounds_does_not_reach_the_host() {
    let mut bytes = vec![1u8; 4];
    let mut mem = GuestMemory::Unshared(&mut bytes);
    let r = fill_out_buf(&mut (), &mut mem, 2, 3, |_, _| unreachable!());
    assert!(is_out_of_bounds(&r.unwrap_err(), 2, 3));
    let shared = cells(&[1; 4]);
    let mut mem = GuestMemory::Shared(&shared);
    let r = fill_out_buf(&mut (), &mut mem, 5, 0, |_, _| unreachable!());
    assert!(is_out_of_bounds(&r.unwrap_err(), 5, 0));
}

#[test]
fn fill_of_an_empty_buffer() {
    let mut bytes = vec![1u8; 4];
    let mut mem = GuestMemory::Unshared(&mut bytes);
    let r = fill_out_buf(&mut (), &mut mem, 4, 0, |_, out| Ok(out.len()));
    assert_eq!(r.unwrap(), 0);
}
