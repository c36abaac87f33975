use std::cell::UnsafeCell;
use wasi_crypto_wasmtime::error::WasiCryptoError;
use wasi_crypto_wasmtime::host;
use wasi_crypto_wasmtime::host::CryptoError;
use wasi_crypto_wasmtime::types::{
    ArrayOutput, GuestStr, OptOptions, OptSymmetricKey, Options, SecretsManager, SymmetricKey,
    SymmetricState, SymmetricTag,
};
use wasi_crypto_wasmtime::WasiCryptoCtx;
use wiggle::{GuestError, GuestMemory, Region};

/// An algorithm name in the first bytes, data from offset 16 on, a tag from 24 on.
fn memory() -> Vec<u8> {
    let mut bytes = vec![0u8; 32];
    bytes[..7].copy_from_slice(b"SHA-256");
    bytes[16..24].copy_from_slice(&[1, 2, 3, 4, 5, 6, 7, 8]);
    bytes[24..28].copy_from_slice(&[91, 92, 93, 94]);
    bytes
}

const ALG: GuestStr = GuestStr { ptr: 0, len: 7 };
const OUTSIDE: GuestStr = GuestStr { ptr: 28, len: 8 };
const STATE: SymmetricState = SymmetricState(500);

fn is_out_of_bounds(e: &WasiCryptoError, start: u32, len: u32) -> bool {
    matches!(
        e,
        WasiCryptoError::Guest(GuestError::PtrOutOfBounds(r)) if *r == Region { start, len }
    )
}

#[test]
fn symmetric_key_generate_and_import() {
    let mut bytes = memory();
    let mem = GuestMemory::Unshared(&mut bytes);
    let mut ctx = WasiCryptoCtx::new(());
    let r = ctx.symmetric_key_generate(&mem, ALG, &OptOptions::Absent, |_, alg, options| {
        assert_eq!((alg, options), ("SHA-256", None));
        Ok(1)
    });
    assert_eq!(r.unwrap(), SymmetricKey(1));
    let r = ctx.symmetric_key_import(&mem, ALG, 16, 8, |_, alg, raw| {
        assert_eq!((alg, raw), ("SHA-256", &[1u8, 2, 3, 4, 5, 6, 7, 8][..]));
        Err(CryptoError::InvalidKey)
    });
    assert!(matches!(r, Err(WasiCryptoError::Crypto(CryptoError::InvalidKey))));
    let r = ctx.symmetric_key_import(&mem, OUTSIDE, 99, 8, |_, _, _| unreachable!());
    assert!(is_out_of_bounds(&r.unwrap_err(), 28, 8));
    let r = ctx.symmetric_key_import(&mem, ALG, 99, 8, |_, _, _| unreachable!());
    assert!(is_out_of_bounds(&r.unwrap_err(), 99, 8));
}

#[test]
fn symmetric_key_export_and_close() {
    let mut ctx = WasiCryptoCtx::new(());
    let r = ctx.symmetric_key_export(SymmetricKey(4), |_, key| Ok(key + 1));
    assert_eq!(r.unwrap(), ArrayOutput(5));
    let r = ctx.symmetric_key_close(SymmetricKey(4), |_, key| {
        assert_eq!(key, 4);
        Ok(())
    });
    assert!(r.is_ok());
}

#[test]
fn managed_symmetric_keys() {
    let mut bytes = memory();
    let mut mem = GuestMemory::Unshared(&mut bytes);
    let mut ctx = WasiCryptoCtx::new(());
    let options = OptOptions::Present(Options(2));
    let r = ctx.symmetric_key_generate_managed(
        &mem,
        SecretsManager(1),
        ALG,
        &options,
        |_, manager, alg, options| {
            assert_eq!((manager, alg, options), (1, "SHA-256", Some(2)));
            Ok(3)
        },
    );
    assert_eq!(r.unwrap(), SymmetricKey(3));
    let r = ctx.symmetric_key_store_managed(
        &mut mem,
        SecretsManager(1),
        SymmetricKey(3),
        28,
        2,
        |_, manager, key, out| {
            assert_eq!((manager, key), (1, 3));
            assert_eq!(out, [0, 0]);
            out.copy_from_slice(&[41, 42]);
            Ok(())
        },
    );
    assert!(r.is_ok());
    let r = ctx.symmetric_key_store_managed(
        &mut mem,
        SecretsManager(1),
        SymmetricKey(3),
        31,
        2,
        |_, _, _, _| Ok(()),
    );
    assert!(is_out_of_bounds(&r.unwrap_err(), 31, 2));
    let r = ctx.symmetric_key_replace_managed(
        SecretsManager(1),
        SymmetricKey(3),
        SymmetricKey(4),
        |_, manager, old, new| {
            assert_eq!((manager, old, new), (1, 3, 4));
            Ok(host::Version(12))
        },
    );
    assert_eq!(r.unwrap(), 12);
    let r = ctx.symmetric_key_id(&mut mem, SymmetricKey(4), 30, 2, |_, key| {
        assert_eq!(key, 4);
        Ok((vec![77], host::Version(13)))
    });
    assert_eq!(r.unwrap(), (1, 13));
    let r = ctx.symmetric_key_id(&mut mem, SymmetricKey(4), 30, 0, |_, _| {
        Ok((vec![78], host::Version(13)))
    });
    assert!(matches!(r, Err(WasiCryptoError::Crypto(CryptoError::Overflow))));
    let r = ctx.symmetric_key_from_id(
        &mem,
        SecretsManager(1),
        28,
        3,
        u64::MAX,
        |_, manager, id, version| {
            assert_eq!((manager, id), (1, &[41u8, 42, 77][..]));
            assert_eq!(version, host::Version(u64::MAX));
            Ok(9)
        },
    );
    assert_eq!(r.unwrap(), SymmetricKey(9));
    assert_eq!(bytes[24..], [91, 92, 93, 94, 41, 42, 77, 0]);
}

#[test]
fn symmetric_state_open_passes_key_and_options() {
    let mut bytes = memory();
    let mem = GuestMemory::Unshared(&mut bytes);
    let mut ctx = WasiCryptoCtx::new(());
    let r = ctx.symmetric_state_open(
        &mem,
        ALG,
        &OptSymmetricKey::Present(SymmetricKey(3)),
        &OptOptions::Absent,
        |_, alg, key, options| {
            assert_eq!((alg, key, options), ("SHA-256", Some(3), None));
            Ok(500)
        },
    );
    assert_eq!(r.unwrap(), STATE);
    let r = ctx.symmetric_state_open(
        &mem,
        ALG,
        &OptSymmetricKey::Absent,
        &OptOptions::Present(Options(4)),
        |_, _, key, options| {
            assert_eq!((key, options), (None, Some(4)));
            Err(CryptoError::KeyRequired)
        },
    );
    assert!(matches!(r, Err(WasiCryptoError::Crypto(CryptoError::KeyRequired))));
    let r = ctx.symmetric_state_open(
        &mem,
        OUTSIDE,
        &OptSymmetricKey::Absent,
        &OptOptions::Absent,
        |_, _, _, _| unreachable!(),
    );
    assert!(is_out_of_bounds(&r.unwrap_err(), 28, 8));
}

#[test]
fn symmetric_state_options() {
    let mut bytes = memory();
    let mut mem = GuestMemory::Unshared(&mut bytes);
    let mut ctx = WasiCryptoCtx::new(());
    let r = ctx.symmetric_state_options_get(&mut mem, STATE, ALG, 28, 4, |_, h, name, out| {
        assert_eq!((h, name, out.len()), (500, "SHA-256", 4));
        out[0] = 6;
        Ok(1)
    });
    assert_eq!(r.unwrap(), 1);
    let r = ctx.symmetric_state_options_get(&mut mem, STATE, OUTSIDE, 28, 9, |_, _, _, _| {
        unreachable!()
    });
    assert!(is_out_of_bounds(&r.unwrap_err(), 28, 8));
    let r = ctx.symmetric_state_options_get(&mut mem, STATE, ALG, 28, 9, |_, _, _, _| {
        unreachable!()
    });
    assert!(is_out_of_bounds(&r.unwrap_err(), 28, 9));
    let r = ctx.symmetric_state_options_get_u64(&mem, STATE, ALG, |_, h, name| {
        assert_eq!((h, name), (500, "SHA-256"));
        Ok(1 << 40)
    });
    assert_eq!(r.unwrap(), 1 << 40);
    let r = ctx.symmetric_state_options_get_u64(&mem, STATE, ALG, |_, _, _| {
        Err(CryptoError::OptionNotSet)
    });
    assert!(matches!(r, Err(WasiCryptoError::Crypto(CryptoError::OptionNotSet))));
    assert_eq!(bytes[28], 6);
}

#[test]
fn symmetric_state_life() {
    let mut bytes = memory();
    let mem = GuestMemory::Unshared(&mut bytes);
    let mut ctx = WasiCryptoCtx::new(());
    let r = ctx.symmetric_state_clone(STATE, |_, h| Ok(h + 1));
    assert_eq!(r.unwrap(), SymmetricState(501));
    let r = ctx.symmetric_state_absorb(&mem, STATE, 17, 2, |_, h, data| {
        assert_eq!((h, data), (500, &[2u8, 3][..]));
        Ok(())
    });
    assert!(r.is_ok());
    let r = ctx.symmetric_state_absorb(&mem, STATE, 17, 20, |_, _, _| unreachable!());
    assert!(is_out_of_bounds(&r.unwrap_err(), 17, 20));
    let r = ctx.symmetric_state_ratchet(STATE, |_, h| {
        assert_eq!(h, 500);
        Err(CryptoError::InvalidOperation)
    });
    assert!(matches!(r, Err(WasiCryptoError::Crypto(CryptoError::InvalidOperation))));
    let r = ctx.symmetric_state_close(STATE, |_, h| {
        assert_eq!(h, 500);
        Ok(())
    });
    assert!(r.is_ok());
}

#[test]
fn squeezing() {
    let mut bytes = memory();
    let mut mem = GuestMemory::Unshared(&mut bytes);
    let mut ctx = WasiCryptoCtx::new(());
    let r = ctx.symmetric_state_squeeze(&mut mem, STATE, 16, 3, |_, h, out| {
        assert_eq!(h, 500);
        assert_eq!(out, [0, 0, 0]);
        out.copy_from_slice(&[31, 32, 33]);
        Ok(())
    });
    assert!(r.is_ok());
    let r = ctx.symmetric_state_squeeze(&mut mem, STATE, 16, 3, |_, _, out| {
        out.copy_from_slice(&[1, 1, 1]);
        Err(CryptoError::InvalidOperation)
    });
    assert!(matches!(r, Err(WasiCryptoError::Crypto(CryptoError::InvalidOperation))));
    // Nothing to write, so the address does not matter.
    assert!(ctx.symmetric_state_squeeze(&mut mem, STATE, 9999, 0, |_, _, _| Ok(())).is_ok());
    let r = ctx.symmetric_state_squeeze_tag(STATE, |_, h| Ok(h + 7));
    assert_eq!(r.unwrap(), SymmetricTag(507));
    let r = ctx.symmetric_state_squeeze_key(&mem, STATE, ALG, |_, h, alg| {
        assert_eq!((h, alg), (500, "SHA-256"));
        Ok(600)
    });
    assert_eq!(r.unwrap(), SymmetricKey(600));
    assert_eq!(bytes[15..20], [0, 31, 32, 33, 4]);
}

#[test]
fn squeezing_into_shared_memory() {
    let cells: Vec<UnsafeCell<u8>> = memory().into_iter().map(UnsafeCell::new).collect();
    let mut mem = GuestMemory::Shared(&cells);
    let mut ctx = WasiCryptoCtx::new(());
    let r = ctx.symmetric_state_squeeze(&mut mem, STATE, 30, 2, |_, _, out| {
        out.copy_from_slice(&[31, 32]);
        Ok(())
    });
    assert!(r.is_ok());
    let bytes: Vec<u8> = cells.into_iter().map(|c| c.into_inner()).collect();
    assert_eq!(bytes[28..], [0, 0, 31, 32]);
}

#[test]
fn encrypting_in_place() {
    let mut bytes = memory();
    let mut mem = GuestMemory::Unshared(&mut bytes);
    let mut ctx = WasiCryptoCtx::new(());
    // The data are copied before the buffer is lent, so the two may overlap.
    let r = ctx.symmetric_state_encrypt(&mut mem, STATE, 16, 6, 16, 4, |_, h, out, data| {
        assert_eq!((h, data), (500, &[1u8, 2, 3, 4][..]));
        assert_eq!(out, [1, 2, 3, 4, 5, 6]);
        out[..4].copy_from_slice(&[255 - data[0], 255 - data[1], 255 - data[2], 255 - data[3]]);
        out[4] = 100;
        out[5] = 101;
        Ok(6)
    });
    assert_eq!(r.unwrap(), 6);
    let r = ctx.symmetric_state_encrypt(&mut mem, STATE, 40, 6, 50, 4, |_, _, _, _| unreachable!());
    assert!(is_out_of_bounds(&r.unwrap_err(), 50, 4));
    let r = ctx.symmetric_state_encrypt(&mut mem, STATE, 40, 6, 16, 4, |_, _, _, _| unreachable!());
    assert!(is_out_of_bounds(&r.unwrap_err(), 40, 6));
    assert_eq!(bytes[15..24], [0, 254, 253, 252, 251, 100, 101, 7, 8]);
}

#[test]
fn encrypting_with_the_tag_apart() {
    let mut bytes = memory();
    let mut mem = GuestMemory::Unshared(&mut bytes);
    let mut ctx = WasiCryptoCtx::new(0u32);
    let r = ctx.symmetric_state_encrypt_detached(&mut mem, STATE, 28, 2, 16, 2, |_, h, out, data| {
        assert_eq!((h, data), (500, &[1u8, 2][..]));
        assert_eq!(out, [0, 0]);
        out.copy_from_slice(&[64, 65]);
        Ok(3)
    });
    assert_eq!(r.unwrap(), SymmetricTag(3));
    let r = ctx.symmetric_state_encrypt_detached(&mut mem, STATE, 28, 2, 31, 2, |_, _, _, _| {
        unreachable!()
    });
    assert!(is_out_of_bounds(&r.unwrap_err(), 31, 2));
    let r = ctx.symmetric_state_encrypt_detached(&mut mem, STATE, 31, 2, 16, 2, |n, _, _, _| {
        *n += 1;
        Ok(4)
    });
    assert!(is_out_of_bounds(&r.unwrap_err(), 31, 2));
    let r = ctx.symmetric_state_encrypt_detached(&mut mem, STATE, 28, 2, 16, 2, |n, _, out, _| {
        assert_eq!(*n, 1);
        out[0] = 1;
        Err(CryptoError::InvalidLength)
    });
    assert!(matches!(r, Err(WasiCryptoError::Crypto(CryptoError::InvalidLength))));
    assert_eq!(bytes[28..], [64, 65, 0, 0]);
}

#[test]
fn decrypting() {
    let mut bytes = memory();
    let mut mem = GuestMemory::Unshared(&mut bytes);
    let mut ctx = WasiCryptoCtx::new(());
    let r = ctx.symmetric_state_decrypt(&mut mem, STATE, 28, 4, 16, 8, |_, h, out, data| {
        assert_eq!((h, out.len(), data.len()), (500, 4, 8));
        out.copy_from_slice(&data[2..6]);
        Ok(4)
    });
    assert_eq!(r.unwrap(), 4);
    let r = ctx.symmetric_state_decrypt(&mut mem, STATE, 28, 4, 16, 8, |_, _, _, _| {
        Err(CryptoError::InvalidTag)
    });
    assert!(matches!(r, Err(WasiCryptoError::Crypto(CryptoError::InvalidTag))));
    assert_eq!(bytes[28..], [3, 4, 5, 6]);
}

#[test]
fn decrypting_with_the_tag_apart() {
    let mut bytes = memory();
    let mut mem = GuestMemory::Unshared(&mut bytes);
    let mut ctx = WasiCryptoCtx::new(());
    let r = ctx.symmetric_state_decrypt_detached(
        &mut mem,
        STATE,
        28,
        2,
        16,
        2,
        24,
        4,
        |_, h, out, data, tag| {
            assert_eq!((h, data, tag), (500, &[1u8, 2][..], &[91u8, 92, 93, 94][..]));
            out.copy_from_slice(&[81, 82]);
            Ok(2)
        },
    );
    assert_eq!(r.unwrap(), 2);
    // The data are read first, then the tag; the output buffer comes last.
    let r = ctx.symmetric_state_decrypt_detached(
        &mut mem,
        STATE,
        61,
        2,
        62,
        2,
        63,
        4,
        |_, _, _, _, _| unreachable!(),
    );
    assert!(is_out_of_bounds(&r.unwrap_err(), 62, 2));
    let r = ctx.symmetric_state_decrypt_detached(
        &mut mem,
        STATE,
        61,
        2,
        16,
        2,
        63,
        4,
        |_, _, _, _, _| unreachable!(),
    );
    assert!(is_out_of_bounds(&r.unwrap_err(), 63, 4));
    let r = ctx.symmetric_state_decrypt_detached(
        &mut mem,
        STATE,
        61,
        2,
        16,
        2,
        24,
        4,
        |_, _, _, _, _| unreachable!(),
    );
    assert!(is_out_of_bounds(&r.unwrap_err(), 61, 2));
    assert_eq!(bytes[28..], [81, 82, 0, 0]);
}

#[test]
fn decrypting_into_shared_memory() {
    let cells: Vec<UnsafeCell<u8>> = memory().into_iter().map(UnsafeCell::new).collect();
    let mut mem = GuestMemory::Shared(&cells);
    let mut ctx = WasiCryptoCtx::new(());
    let r = ctx.symmetric_state_decrypt(&mut mem, STATE, 16, 8, 16, 8, |_, _, out, data| {
        assert_eq!(out, [0; 8]);
        assert_eq!(data, [1, 2, 3, 4, 5, 6, 7, 8]);
        out[0] = 70;
        Ok(1)
    });
    assert_eq!(r.unwrap(), 1);
    let bytes: Vec<u8> = cells.into_iter().map(|c| c.into_inner()).collect();
    assert_eq!(bytes[16..20], [70, 2, 3, 4]);
}

#[test]
fn symmetric_tags() {
    let mut bytes = memory();
    let mut mem = GuestMemory::Unshared(&mut bytes);
    let mut ctx = WasiCryptoCtx::new(());
    let r = ctx.symmetric_state_max_tag_len(STATE, |_, h| {
        assert_eq!(h, 500);
        Ok(16)
    });
    assert_eq!(r.unwrap(), 16);
    let r = ctx.symmetric_tag_len(SymmetricTag(1), |_, h| {
        assert_eq!(h, 1);
        Ok(4)
    });
    assert_eq!(r.unwrap(), 4);
    let r = ctx.symmetric_tag_pull(&mut mem, SymmetricTag(1), 28, 4, |_, h, out| {
        assert_eq!((h, out.len()), (1, 4));
        out.copy_from_slice(&[61, 62, 63, 64]);
        Ok(4)
    });
    assert_eq!(r.unwrap(), 4);
    let r = ctx.symmetric_tag_pull(&mut mem, SymmetricTag(1), 29, 4, |_, _, _| unreachable!());
    assert!(is_out_of_bounds(&r.unwrap_err(), 29, 4));
    let r = ctx.symmetric_tag_verify(&mem, SymmetricTag(1), 28, 4, |_, h, expected| {
        assert_eq!((h, expected), (1, &[61u8, 62, 63, 64][..]));
        Err(CryptoError::InvalidTag)
    });
    assert!(matches!(r, Err(WasiCryptoError::Crypto(CryptoError::InvalidTag))));
    let r = ctx.symmetric_tag_verify(&mem, SymmetricTag(1), 31, 4, |_, _, _| unreachable!());
    assert!(is_out_of_bounds(&r.unwrap_err(), 31, 4));
    let r = ctx.symmetric_tag_close(SymmetricTag(1), |_, h| {
        assert_eq!(h, 1);
        Ok(())
    });
    assert!(r.is_ok());
}
