use std::cell::UnsafeCell;
use wasi_crypto_wasmtime::error::WasiCryptoError;
use wasi_crypto_wasmtime::host;
use wasi_crypto_wasmtime::host::CryptoError;
use wasi_crypto_wasmtime::types::{
    AlgorithmType, ArrayOutput, GuestStr, OptOptions, Options, SecretsManager,
};
use wasi_crypto_wasmtime::WasiCryptoCtx;
use wiggle::{GuestError, GuestMemory, Region};

/// A name in the first bytes and data from offset 16 on.
fn memory() -> Vec<u8> {
    let mut bytes = vec![0u8; 32];
    bytes[..5].copy_from_slice(b"nonce");
    bytes[16..24].copy_from_slice(&[1, 2, 3, 4, 5, 6, 7, 8]);
    bytes
}

const NAME: GuestStr = GuestStr { ptr: 0, len: 5 };
const OUTSIDE: GuestStr = GuestStr { ptr: 30, len: 5 };

fn is_out_of_bounds(e: &WasiCryptoError, start: u32, len: u32) -> bool {
    matches!(
        e,
        WasiCryptoError::Guest(GuestError::PtrOutOfBounds(r)) if *r == Region { start, len }
    )
}

#[test]
fn the_context_lives_through_the_calls() {
    let mut ctx = WasiCryptoCtx::new(vec![0u32]);
    for h in [5u32, 6] {
        ctx.options_close(Options(h), |seen, handle| {
            seen.push(handle);
            Ok(())
        })
        .unwrap();
    }
    ctx.options_close(Options(7), |seen, _| {
        assert_eq!(*seen, vec![0, 5, 6]);
        Ok(())
    })
    .unwrap();
}

#[test]
fn options_open_and_close() {
    let mut ctx = WasiCryptoCtx::new(());
    let h = ctx.options_open(AlgorithmType::Symmetric, |_, family| {
        assert_eq!(family, host::AlgorithmType::Symmetric);
        Ok(77)
    });
    assert_eq!(h.unwrap(), Options(77));
    let r = ctx.options_open(AlgorithmType::Signatures, |_, family| {
        assert_eq!(family, host::AlgorithmType::Signatures);
        Err(CryptoError::TooManyHandles)
    });
    assert!(matches!(r, Err(WasiCryptoError::Crypto(CryptoError::TooManyHandles))));
    let r = ctx.options_close(Options(77), |_, h| {
        assert_eq!(h, 77);
        Err(CryptoError::Closed)
    });
    assert!(matches!(r, Err(WasiCryptoError::Crypto(CryptoError::Closed))));
}

#[test]
fn options_set_reads_name_and_value() {
    let mut bytes = memory();
    let mem = GuestMemory::Unshared(&mut bytes);
    let mut ctx = WasiCryptoCtx::new(());
    let r = ctx.options_set(&mem, Options(3), NAME, 17, 4, |_, h, name, value| {
        assert_eq!((h, name, value), (3, "nonce", &[2u8, 3, 4, 5][..]));
        Ok(())
    });
    assert!(r.is_ok());
}

#[test]
fn options_set_faults_before_the_host_is_called() {
    let mut bytes = memory();
    bytes[10] = 0xff;
    let mem = GuestMemory::Unshared(&mut bytes);
    let mut ctx = WasiCryptoCtx::new(());
    // The name is read first.
    let r = ctx.options_set(&mem, Options(3), OUTSIDE, 40, 4, |_, _, _, _| unreachable!());
    assert!(is_out_of_bounds(&r.unwrap_err(), 30, 5));
    let r = ctx.options_set(&mem, Options(3), NAME, 40, 4, |_, _, _, _| unreachable!());
    assert!(is_out_of_bounds(&r.unwrap_err(), 40, 4));
    let bad = GuestStr { ptr: 8, len: 4 };
    let r = ctx.options_set(&mem, Options(3), bad, 16, 4, |_, _, _, _| unreachable!());
    assert!(matches!(r, Err(WasiCryptoError::Guest(GuestError::InvalidUtf8(_)))));
}

#[test]
fn options_set_u64_passes_the_number() {
    let mut bytes = memory();
    let mem = GuestMemory::Unshared(&mut bytes);
    let mut ctx = WasiCryptoCtx::new(());
    let r = ctx.options_set_u64(&mem, Options(4), NAME, u64::MAX, |_, h, name, value| {
        assert_eq!((h, name, value), (4, "nonce", u64::MAX));
        Err(CryptoError::UnsupportedOption)
    });
    assert!(matches!(r, Err(WasiCryptoError::Crypto(CryptoError::UnsupportedOption))));
    let r = ctx.options_set_u64(&mem, Options(4), OUTSIDE, 1, |_, _, _, _| unreachable!());
    assert!(is_out_of_bounds(&r.unwrap_err(), 30, 5));
}

#[test]
fn options_set_guest_buffer_reads_the_name_only() {
    let mut bytes = memory();
    let mem = GuestMemory::Unshared(&mut bytes);
    let mut ctx = WasiCryptoCtx::new(());
    // The buffer is not looked at, wherever it is.
    assert!(ctx.options_set_guest_buffer(&mem, Options(1), NAME, 5000, 5000).is_ok());
    let r = ctx.options_set_guest_buffer(&mem, Options(1), OUTSIDE, 0, 1);
    assert!(is_out_of_bounds(&r.unwrap_err(), 30, 5));
    assert_eq!(bytes, memory());
}

#[test]
fn array_output_len_is_told() {
    let mut ctx = WasiCryptoCtx::new(());
    let r = ctx.array_output_len(ArrayOutput(9), |_, h| {
        assert_eq!(h, 9);
        Ok(64)
    });
    assert_eq!(r.unwrap(), 64);
    let r = ctx.array_output_len(ArrayOutput(9), |_, _| Ok((1u64 << 32) as usize + 1));
    assert_eq!(r.unwrap(), 1);
    let r = ctx.array_output_len(ArrayOutput(9), |_, _| Err(CryptoError::InvalidHandle));
    assert!(matches!(r, Err(WasiCryptoError::Crypto(CryptoError::InvalidHandle))));
}

#[test]
fn array_output_pull_fills_the_buffer() {
    let mut bytes = memory();
    let mut mem = GuestMemory::Unshared(&mut bytes);
    let mut ctx = WasiCryptoCtx::new(());
    let r = ctx.array_output_pull(&mut mem, ArrayOutput(2), 24, 8, |_, h, out| {
        assert_eq!((h, out.len()), (2, 8));
        out[..3].copy_from_slice(&[7, 8, 9]);
        Ok(3)
    });
    assert_eq!(r.unwrap(), 3);
    assert_eq!(bytes[22..30], [7, 8, 7, 8, 9, 0, 0, 0]);
}

#[test]
fn array_output_pull_into_shared_memory() {
    let cells: Vec<UnsafeCell<u8>> = memory().into_iter().map(UnsafeCell::new).collect();
    let mut mem = GuestMemory::Shared(&cells);
    let mut ctx = WasiCryptoCtx::new(());
    let r = ctx.array_output_pull(&mut mem, ArrayOutput(2), 16, 4, |_, h, out| {
        assert_eq!(h, 2);
        assert_eq!(out, [0, 0, 0, 0]);
        out.copy_from_slice(&[9, 9, 9, 9]);
        Ok(3)
    });
    assert_eq!(r.unwrap(), 3);
    let r = ctx.array_output_pull(&mut mem, ArrayOutput(2), 30, 4, |_, _, _| unreachable!());
    assert!(is_out_of_bounds(&r.unwrap_err(), 30, 4));
    let bytes: Vec<u8> = cells.into_iter().map(|c| c.into_inner()).collect();
    assert_eq!(bytes[15..21], [0, 9, 9, 9, 4, 5]);
}

#[test]
fn array_output_pull_refused() {
    let mut bytes = memory();
    let mut mem = GuestMemory::Unshared(&mut bytes);
    let mut ctx = WasiCryptoCtx::new(());
    let r = ctx.array_output_pull(&mut mem, ArrayOutput(2), 0, 1, |_, _, _| {
        Err(CryptoError::Overflow)
    });
    assert!(matches!(r, Err(WasiCryptoError::Crypto(CryptoError::Overflow))));
    let r = ctx.array_output_pull(&mut mem, ArrayOutput(2), 32, 1, |_, _, _| unreachable!());
    assert!(is_out_of_bounds(&r.unwrap_err(), 32, 1));
    assert_eq!(bytes, memory());
}

#[test]
fn secrets_manager_life() {
    let mut bytes = memory();
    let mem = GuestMemory::Unshared(&mut bytes);
    let mut ctx = WasiCryptoCtx::new(());
    let r = ctx.secrets_manager_open(&OptOptions::Absent, |_, options| {
        assert_eq!(options, None);
        Ok(5)
    });
    assert_eq!(r.unwrap(), SecretsManager(5));
    let r = ctx.secrets_manager_open(&OptOptions::Present(Options(8)), |_, options| {
        assert_eq!(options, Some(8));
        Err(CryptoError::UnsupportedFeature)
    });
    assert!(matches!(r, Err(WasiCryptoError::Crypto(CryptoError::UnsupportedFeature))));
    let r = ctx.secrets_manager_invalidate(
        &mem,
        SecretsManager(5),
        16,
        3,
        40,
        |_, h, id, version| {
            assert_eq!((h, id, version), (5, &[1u8, 2, 3][..], host::Version(40)));
            Ok(())
        },
    );
    assert!(r.is_ok());
    let r = ctx.secrets_manager_invalidate(&mem, SecretsManager(5), 31, 3, 40, |_, _, _, _| {
        unreachable!()
    });
    assert!(is_out_of_bounds(&r.unwrap_err(), 31, 3));
    let r = ctx.secrets_manager_close(SecretsManager(5), |_, h| {
        assert_eq!(h, 5);
        Ok(())
    });
    assert!(r.is_ok());
}
