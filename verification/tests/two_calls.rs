use std::cell::UnsafeCell;
use wasi_crypto_wasmtime::error::WasiCryptoError;
use wasi_crypto_wasmtime::host::{CryptoError, Handle, HostResult};
use wasi_crypto_wasmtime::memory::{fill_out_buf, read_bytes, staged, write_bytes};
use wasi_crypto_wasmtime::types::{
    AlgorithmType, GuestStr, Secretkey, SecretkeyEncoding, SymmetricState, SymmetricTag,
};
use wasi_crypto_wasmtime::WasiCryptoCtx;
use wiggle::{GuestError, GuestMemory};

const STATE: SymmetricState = SymmetricState(1);

/// Subtracts the first byte of the tag from the data.
fn decrypt(n: &mut u32, _: Handle, out: &mut [u8], data: &[u8], tag: &[u8]) -> HostResult<usize> {
    *n += 1;
    for (o, d) in out.iter_mut().zip(data) {
        *o = d - tag[0];
    }
    Ok(data.len())
}

fn host_calls(ctx: &mut WasiCryptoCtx<u32>) -> u32 {
    let mut calls = 0;
    ctx.symmetric_state_close(STATE, |n, _| {
        calls = *n;
        Ok(())
    })
    .unwrap();
    calls
}

fn cells(bytes: &[u8]) -> Vec<UnsafeCell<u8>> {
    bytes.iter().map(|b| UnsafeCell::new(*b)).collect()
}

fn held(cells: Vec<UnsafeCell<u8>>) -> Vec<u8> {
    cells.into_iter().map(|c| c.into_inner()).collect()
}

#[test]
fn decrypting_in_place_is_decrypting_apart() {
    let start: Vec<u8> = vec![0, 0, 0, 0, 11, 12, 13, 10, 0, 0, 0, 0];
    // Over the data, over the tag, over part of both, and apart from both.
    for out in [4u32, 7, 6, 0, 9] {
        let mut bytes = start.clone();
        let mut mem = GuestMemory::Unshared(&mut bytes);
        let mut ctx = WasiCryptoCtx::new(0);
        let r = ctx.symmetric_state_decrypt_detached(&mut mem, STATE, out, 3, 4, 3, 7, 1, decrypt);
        assert_eq!(r.unwrap(), 3);
        assert_eq!(host_calls(&mut ctx), 1);
        let at = out as usize;
        assert_eq!(bytes[at..at + 3], [1, 2, 3]);
        assert_eq!(bytes[..at], start[..at]);
        assert_eq!(bytes[at + 3..], start[at + 3..]);
    }
}

#[test]
fn encrypting_in_place_is_encrypting_apart() {
    for out in [2u32, 3, 5] {
        let mut bytes = vec![9, 9, 1, 2, 3, 9, 9, 9];
        let mut mem = GuestMemory::Unshared(&mut bytes);
        let mut ctx = WasiCryptoCtx::new(());
        let r = ctx.symmetric_state_encrypt(&mut mem, STATE, out, 3, 2, 3, |_, _, out, data| {
            for (o, d) in out.iter_mut().zip(data) {
                *o = d * 10;
            }
            Ok(3)
        });
        assert_eq!(r.unwrap(), 3);
        let r = ctx.symmetric_state_decrypt(&mut mem, STATE, out, 3, out, 3, |_, _, out, data| {
            assert_eq!(data, [10, 20, 30]);
            out.copy_from_slice(data);
            Ok(3)
        });
        assert_eq!(r.unwrap(), 3);
        let r = ctx.symmetric_state_encrypt_detached(
            &mut mem,
            STATE,
            out,
            3,
            out,
            3,
            |_, _, out, data| {
                for (o, d) in out.iter_mut().zip(data) {
                    *o = d + 1;
                }
                Ok(8)
            },
        );
        assert_eq!(r.unwrap(), SymmetricTag(8));
        assert_eq!(bytes[out as usize..out as usize + 3], [11, 21, 31]);
    }
}

#[test]
fn an_import_depends_on_the_bytes_and_not_on_their_addresses() {
    let mut here = b"X25519......key.".to_vec();
    let mut there = b"??key?????X25519".to_vec();
    let mut results = vec![];
    for (bytes, name, key) in [(&mut here, 0u32, 12u32), (&mut there, 10, 2)] {
        let mem = GuestMemory::Unshared(bytes);
        let mut ctx = WasiCryptoCtx::new(0u32);
        let r = ctx.secretkey_import(
            &mem,
            AlgorithmType::KeyExchange,
            GuestStr { ptr: name, len: 6 },
            key,
            3,
            SecretkeyEncoding::Raw,
            |n, _, alg, bytes, _| {
                *n = alg.len() as u32 * 1000 + bytes.iter().map(|b| *b as u32).sum::<u32>();
                Ok(*n)
            },
        );
        results.push((r.unwrap(), host_calls(&mut ctx)));
    }
    assert_eq!(results[0], results[1]);
    assert_eq!(results[0].0, Secretkey(6329));
    // Bytes that are no text are refused alike, wherever they lie.
    let mut here = vec![b'a', 0xff, 0, 0];
    let mut there = vec![0, 0, b'a', 0xff];
    for (bytes, name) in [(&mut here, 0u32), (&mut there, 2)] {
        let mem = GuestMemory::Unshared(bytes);
        let r = WasiCryptoCtx::new(()).symmetric_key_import(
            &mem,
            GuestStr { ptr: name, len: 2 },
            0,
            1,
            |_, _, _| unreachable!(),
        );
        assert!(matches!(
            r,
            Err(WasiCryptoError::Guest(GuestError::InvalidUtf8(e))) if e.valid_up_to() == 1
        ));
    }
}

#[test]
fn staged_bytes_are_those_that_the_host_counted() {
    let mut calls = 0u32;
    let r = staged(&mut calls, 4, |calls, out| {
        *calls += 1;
        assert_eq!(out, [0, 0, 0, 0]);
        out.copy_from_slice(&[5, 6, 7, 8]);
        Ok(3)
    });
    assert_eq!(r, Ok(vec![5, 6, 7]));
    let r = staged(&mut calls, 2, |calls, out| {
        *calls += 1;
        out[0] = 1;
        Err(CryptoError::InvalidTag)
    });
    assert_eq!(r, Err(CryptoError::InvalidTag));
    assert_eq!(calls, 2);
}

#[test]
fn both_kinds_of_memory_get_the_same_bytes() {
    let start = vec![1u8, 2, 3, 4, 5, 6, 7, 8];
    for count in [0usize, 1, 3, 4] {
        let fill = |_: &mut (), out: &mut [u8]| {
            out.copy_from_slice(&[91, 92, 93, 94]);
            Ok(count)
        };
        let mut unshared = start.clone();
        let mut mem = GuestMemory::Unshared(&mut unshared);
        let a = fill_out_buf(&mut (), &mut mem, 2, 4, fill).unwrap();
        let shared = cells(&start);
        let mut mem = GuestMemory::Shared(&shared);
        let b = fill_out_buf(&mut (), &mut mem, 2, 4, fill).unwrap();
        let shared = held(shared);
        assert_eq!((a as usize, b as usize), (count, count));
        assert_eq!(unshared[2..2 + count], shared[2..2 + count]);
        assert_eq!(unshared[..2], shared[..2]);
        assert_eq!(unshared[6..], shared[6..]);
        // What the host did not count stays as it was.
        assert_eq!(shared[2 + count..6], start[2 + count..6]);
    }
}

#[test]
fn shared_memory_that_no_one_else_writes_gives_the_data_back() {
    let shared = cells(&[0; 8]);
    let mut mem = GuestMemory::Shared(&shared);
    assert_eq!(write_bytes(&mut mem, 3, 5, &[4, 5, 6]).unwrap(), 3);
    assert_eq!(read_bytes(&mem, 3, 3).unwrap(), vec![4, 5, 6]);
    assert!(write_bytes(&mut mem, 3, 2, &[7, 7, 7]).is_err());
    assert_eq!(held(shared), vec![0, 0, 0, 4, 5, 6, 0, 0]);
}

#[test]
fn a_refused_decryption_hands_nothing_to_shared_memory() {
    let shared = cells(&[1, 2, 3, 4, 0, 0]);
    let mut mem = GuestMemory::Shared(&shared);
    let mut ctx = WasiCryptoCtx::new(());
    let r = ctx.symmetric_state_decrypt(&mut mem, STATE, 4, 2, 0, 4, |_, _, out, data| {
        out.copy_from_slice(&data[..2]);
        Err(CryptoError::InvalidTag)
    });
    assert!(matches!(r, Err(WasiCryptoError::Crypto(CryptoError::InvalidTag))));
    assert_eq!(held(shared), vec![1, 2, 3, 4, 0, 0]);
}
