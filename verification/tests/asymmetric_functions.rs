use wasi_crypto_wasmtime::error::WasiCryptoError;
use wasi_crypto_wasmtime::host;
use wasi_crypto_wasmtime::host::CryptoError;
use wasi_crypto_wasmtime::types::{
    AlgorithmType, ArrayOutput, GuestStr, Keypair, KeypairEncoding, OptOptions, Options, Publickey,
    PublickeyEncoding, Secretkey, SecretkeyEncoding, SecretsManager, Signature, SignatureEncoding,
    SignatureState, SignatureVerificationState,
};
use wasi_crypto_wasmtime::WasiCryptoCtx;
use wiggle::{GuestError, GuestMemory, Region};

/// An algorithm name in the first bytes and an encoded key from offset 16 on.
fn memory() -> Vec<u8> {
    let mut bytes = vec![0u8; 32];
    bytes[..7].copy_from_slice(b"Ed25519");
    bytes[16..24].copy_from_slice(&[11, 12, 13, 14, 15, 16, 17, 18]);
    bytes
}

const ALG: GuestStr = GuestStr { ptr: 0, len: 7 };
const OUTSIDE: GuestStr = GuestStr { ptr: 40, len: 1 };

fn is_out_of_bounds(e: &WasiCryptoError, start: u32, len: u32) -> bool {
    matches!(
        e,
        WasiCryptoError::Guest(GuestError::PtrOutOfBounds(r)) if *r == Region { start, len }
    )
}

#[test]
fn keypair_generate_passes_family_name_and_options() {
    let mut bytes = memory();
    let mem = GuestMemory::Unshared(&mut bytes);
    let mut ctx = WasiCryptoCtx::new(());
    let options = OptOptions::Present(Options(21));
    let r = ctx.keypair_generate(
        &mem,
        AlgorithmType::Signatures,
        ALG,
        &options,
        |_, family, alg, options| {
            assert_eq!(family, host::AlgorithmType::Signatures);
            assert_eq!((alg, options), ("Ed25519", Some(21)));
            Ok(1)
        },
    );
    assert_eq!(r.unwrap(), Keypair(1));
    let r = ctx.keypair_generate(
        &mem,
        AlgorithmType::Signatures,
        OUTSIDE,
        &options,
        |_, _, _, _| unreachable!(),
    );
    assert!(is_out_of_bounds(&r.unwrap_err(), 40, 1));
}

#[test]
fn keypair_import_passes_the_encoded_key() {
    let mut bytes = memory();
    let mem = GuestMemory::Unshared(&mut bytes);
    let mut ctx = WasiCryptoCtx::new(());
    let r = ctx.keypair_import(
        &mem,
        AlgorithmType::KeyExchange,
        ALG,
        16,
        3,
        KeypairEncoding::Pkcs8,
        |_, family, alg, key, encoding| {
            assert_eq!(family, host::AlgorithmType::KeyExchange);
            assert_eq!((alg, key), ("Ed25519", &[11u8, 12, 13][..]));
            assert_eq!(encoding, host::KeyPairEncoding::Pkcs8);
            Err(CryptoError::InvalidKey)
        },
    );
    assert!(matches!(r, Err(WasiCryptoError::Crypto(CryptoError::InvalidKey))));
    let r = ctx.keypair_import(
        &mem,
        AlgorithmType::KeyExchange,
        ALG,
        31,
        2,
        KeypairEncoding::Raw,
        |_, _, _, _, _| unreachable!(),
    );
    assert!(is_out_of_bounds(&r.unwrap_err(), 31, 2));
}

#[test]
fn keypair_generate_managed_passes_the_manager() {
    let mut bytes = memory();
    let mem = GuestMemory::Unshared(&mut bytes);
    let mut ctx = WasiCryptoCtx::new(());
    let r = ctx.keypair_generate_managed(
        &mem,
        SecretsManager(6),
        AlgorithmType::Signatures,
        ALG,
        &OptOptions::Absent,
        |_, manager, family, alg, options| {
            assert_eq!(family, host::AlgorithmType::Signatures);
            assert_eq!((manager, alg, options), (6, "Ed25519", None));
            Ok(44)
        },
    );
    assert_eq!(r.unwrap(), Keypair(44));
}

#[test]
fn keypair_store_managed_writes_the_whole_buffer() {
    let mut bytes = memory();
    let mut mem = GuestMemory::Unshared(&mut bytes);
    let mut ctx = WasiCryptoCtx::new(());
    let r = ctx.keypair_store_managed(
        &mut mem,
        SecretsManager(6),
        Keypair(7),
        16,
        4,
        |_, manager, kp, out| {
            assert_eq!((manager, kp), (6, 7));
            assert_eq!(out, [0, 0, 0, 0]);
            out[0] = 200;
            Ok(())
        },
    );
    assert!(r.is_ok());
    assert_eq!(bytes[15..21], [0, 200, 0, 0, 0, 15]);
}

#[test]
fn keypair_store_managed_refused_or_out_of_bounds() {
    let mut bytes = memory();
    let mut mem = GuestMemory::Unshared(&mut bytes);
    let mut ctx = WasiCryptoCtx::new(0u32);
    let r = ctx.keypair_store_managed(&mut mem, SecretsManager(6), Keypair(7), 16, 4, |_, _, _, out| {
        out[0] = 1;
        Err(CryptoError::UnsupportedFeature)
    });
    assert!(matches!(r, Err(WasiCryptoError::Crypto(CryptoError::UnsupportedFeature))));
    // The host is called first: the key is stored although the identifier has no place.
    let r = ctx.keypair_store_managed(&mut mem, SecretsManager(6), Keypair(7), 30, 4, |n, _, _, _| {
        *n += 1;
        Ok(())
    });
    assert!(is_out_of_bounds(&r.unwrap_err(), 30, 4));
    ctx.keypair_close(Keypair(7), |n, _| {
        assert_eq!(*n, 1);
        Ok(())
    })
    .unwrap();
    assert_eq!(bytes, memory());
}

#[test]
fn keypair_replace_managed_returns_the_version() {
    let mut ctx = WasiCryptoCtx::new(());
    let r = ctx.keypair_replace_managed(
        SecretsManager(1),
        Keypair(2),
        Keypair(3),
        |_, manager, old, new| {
            assert_eq!((manager, old, new), (1, 2, 3));
            Ok(host::Version(99))
        },
    );
    assert_eq!(r.unwrap(), 99);
}

#[test]
fn keypair_id_writes_the_identifier() {
    let mut bytes = memory();
    let mut mem = GuestMemory::Unshared(&mut bytes);
    let mut ctx = WasiCryptoCtx::new(());
    let r = ctx.keypair_id(&mut mem, Keypair(3), 16, 8, |_, kp| {
        assert_eq!(kp, 3);
        Ok((vec![50, 51], host::Version(7)))
    });
    assert_eq!(r.unwrap(), (2, 7));
    let r = ctx.keypair_id(&mut mem, Keypair(3), 16, 1, |_, _| {
        Ok((vec![60, 61], host::Version(7)))
    });
    assert!(matches!(r, Err(WasiCryptoError::Crypto(CryptoError::Overflow))));
    let r = ctx.keypair_id(&mut mem, Keypair(3), 31, 2, |_, _| {
        Ok((vec![60, 61], host::Version(7)))
    });
    assert!(is_out_of_bounds(&r.unwrap_err(), 31, 2));
    let r = ctx.keypair_id(&mut mem, Keypair(3), 16, 8, |_, _| Err(CryptoError::NotFound));
    assert!(matches!(r, Err(WasiCryptoError::Crypto(CryptoError::NotFound))));
    assert_eq!(bytes[15..20], [0, 50, 51, 13, 14]);
}

#[test]
fn keypair_from_id_reads_the_identifier() {
    let mut bytes = memory();
    let mem = GuestMemory::Unshared(&mut bytes);
    let mut ctx = WasiCryptoCtx::new(());
    let r = ctx.keypair_from_id(&mem, SecretsManager(4), 20, 2, 3, |_, manager, id, version| {
        assert_eq!((manager, id, version), (4, &[15u8, 16][..], host::Version(3)));
        Ok(10)
    });
    assert_eq!(r.unwrap(), Keypair(10));
    let r = ctx.keypair_from_id(&mem, SecretsManager(4), 33, 0, 3, |_, _, _, _| unreachable!());
    assert!(is_out_of_bounds(&r.unwrap_err(), 33, 0));
}

#[test]
fn keypair_parts() {
    let mut ctx = WasiCryptoCtx::new(());
    let r = ctx.keypair_from_pk_and_sk(Publickey(1), Secretkey(2), |_, pk, sk| {
        assert_eq!((pk, sk), (1, 2));
        Ok(3)
    });
    assert_eq!(r.unwrap(), Keypair(3));
    let r = ctx.keypair_publickey(Keypair(3), |_, kp| Ok(kp + 1));
    assert_eq!(r.unwrap(), Publickey(4));
    let r = ctx.keypair_secretkey(Keypair(3), |_, kp| Ok(kp + 2));
    assert_eq!(r.unwrap(), Secretkey(5));
    let r = ctx.keypair_export(Keypair(3), KeypairEncoding::Pem, |_, kp, encoding| {
        assert_eq!((kp, encoding), (3, host::KeyPairEncoding::Pem));
        Ok(6)
    });
    assert_eq!(r.unwrap(), ArrayOutput(6));
    let r = ctx.keypair_close(Keypair(3), |_, kp| {
        assert_eq!(kp, 3);
        Err(CryptoError::Closed)
    });
    assert!(matches!(r, Err(WasiCryptoError::Crypto(CryptoError::Closed))));
}

#[test]
fn publickey_functions() {
    let mut bytes = memory();
    let mem = GuestMemory::Unshared(&mut bytes);
    let mut ctx = WasiCryptoCtx::new(());
    let r = ctx.publickey_import(
        &mem,
        AlgorithmType::Signatures,
        ALG,
        22,
        2,
        PublickeyEncoding::Sec,
        |_, family, alg, key, encoding| {
            assert_eq!(family, host::AlgorithmType::Signatures);
            assert_eq!((alg, key), ("Ed25519", &[17u8, 18][..]));
            assert_eq!(encoding, host::PublicKeyEncoding::Sec);
            Ok(8)
        },
    );
    assert_eq!(r.unwrap(), Publickey(8));
    let r = ctx.publickey_export(Publickey(8), PublickeyEncoding::Local, |_, pk, encoding| {
        assert_eq!((pk, encoding), (8, host::PublicKeyEncoding::Local));
        Ok(9)
    });
    assert_eq!(r.unwrap(), ArrayOutput(9));
    let r = ctx.publickey_verify(Publickey(8), |_, pk| {
        assert_eq!(pk, 8);
        Err(CryptoError::VerificationFailed)
    });
    assert!(matches!(r, Err(WasiCryptoError::Crypto(CryptoError::VerificationFailed))));
    let r = ctx.publickey_from_secretkey(Secretkey(30), |_, sk| Ok(sk + 1));
    assert_eq!(r.unwrap(), Publickey(31));
    let r = ctx.publickey_close(Publickey(8), |_, pk| {
        assert_eq!(pk, 8);
        Ok(())
    });
    assert!(r.is_ok());
}

#[test]
fn secretkey_functions() {
    let mut bytes = memory();
    let mem = GuestMemory::Unshared(&mut bytes);
    let mut ctx = WasiCryptoCtx::new(());
    let r = ctx.secretkey_import(
        &mem,
        AlgorithmType::KeyExchange,
        ALG,
        16,
        1,
        SecretkeyEncoding::Raw,
        |_, family, alg, key, encoding| {
            assert_eq!(family, host::AlgorithmType::KeyExchange);
            assert_eq!((alg, key), ("Ed25519", &[11u8][..]));
            assert_eq!(encoding, host::SecretKeyEncoding::Raw);
            Ok(8)
        },
    );
    assert_eq!(r.unwrap(), Secretkey(8));
    let r = ctx.secretkey_export(Secretkey(8), SecretkeyEncoding::Sec, |_, sk, encoding| {
        assert_eq!((sk, encoding), (8, host::SecretKeyEncoding::Sec));
        Err(CryptoError::UnsupportedEncoding)
    });
    assert!(matches!(r, Err(WasiCryptoError::Crypto(CryptoError::UnsupportedEncoding))));
    let r = ctx.secretkey_close(Secretkey(8), |_, sk| {
        assert_eq!(sk, 8);
        Ok(())
    });
    assert!(r.is_ok());
}

#[test]
fn signature_import_and_export() {
    let mut bytes = memory();
    let mem = GuestMemory::Unshared(&mut bytes);
    let mut ctx = WasiCryptoCtx::new(());
    let r = ctx.signature_import(
        &mem,
        ALG,
        18,
        2,
        SignatureEncoding::Der,
        |_, alg, signature, encoding| {
            assert_eq!((alg, signature), ("Ed25519", &[13u8, 14][..]));
            assert_eq!(encoding, host::SignatureEncoding::Der);
            Ok(70)
        },
    );
    assert_eq!(r.unwrap(), Signature(70));
    let r = ctx.signature_import(&mem, ALG, 32, 1, SignatureEncoding::Raw, |_, _, _, _| {
        unreachable!()
    });
    assert!(is_out_of_bounds(&r.unwrap_err(), 32, 1));
    let r = ctx.signature_export(Signature(70), SignatureEncoding::Raw, |_, h, encoding| {
        assert_eq!((h, encoding), (70, host::SignatureEncoding::Raw));
        Ok(71)
    });
    assert_eq!(r.unwrap(), ArrayOutput(71));
    let r = ctx.signature_close(Signature(70), |_, h| {
        assert_eq!(h, 70);
        Ok(())
    });
    assert!(r.is_ok());
}

#[test]
fn signing() {
    let mut bytes = memory();
    let mem = GuestMemory::Unshared(&mut bytes);
    let mut ctx = WasiCryptoCtx::new(());
    let r = ctx.signature_state_open(Keypair(1), |_, kp| Ok(kp + 10));
    assert_eq!(r.unwrap(), SignatureState(11));
    let r = ctx.signature_state_update(&mem, SignatureState(11), 16, 2, |_, h, input| {
        assert_eq!((h, input), (11, &[11u8, 12][..]));
        Ok(())
    });
    assert!(r.is_ok());
    let r = ctx.signature_state_update(&mem, SignatureState(11), 16, 17, |_, _, _| unreachable!());
    assert!(is_out_of_bounds(&r.unwrap_err(), 16, 17));
    let r = ctx.signature_state_sign(SignatureState(11), |_, h| Ok(h * 2));
    assert_eq!(r.unwrap(), ArrayOutput(22));
    let r = ctx.signature_state_close(SignatureState(11), |_, h| {
        assert_eq!(h, 11);
        Ok(())
    });
    assert!(r.is_ok());
}

#[test]
fn verifying() {
    let mut bytes = memory();
    let mem = GuestMemory::Unshared(&mut bytes);
    let mut ctx = WasiCryptoCtx::new(());
    let r = ctx.signature_verification_state_open(Publickey(1), |_, pk| Ok(pk + 20));
    assert_eq!(r.unwrap(), SignatureVerificationState(21));
    let state = SignatureVerificationState(21);
    let r = ctx.signature_verification_state_update(&mem, state, 17, 1, |_, h, input| {
        assert_eq!((h, input), (21, &[12u8][..]));
        Ok(())
    });
    assert!(r.is_ok());
    let r = ctx.signature_verification_state_verify(state, Signature(5), |_, h, signature| {
        assert_eq!((h, signature), (21, 5));
        Err(CryptoError::VerificationFailed)
    });
    assert!(matches!(r, Err(WasiCryptoError::Crypto(CryptoError::VerificationFailed))));
    let r = ctx.signature_verification_state_close(state, |_, h| {
        assert_eq!(h, 21);
        Ok(())
    });
    assert!(r.is_ok());
}

#[test]
fn key_exchange() {
    let mut bytes = memory();
    let mem = GuestMemory::Unshared(&mut bytes);
    let mut ctx = WasiCryptoCtx::new(());
    let r = ctx.kx_dh(Publickey(1), Secretkey(2), |_, pk, sk| {
        assert_eq!((pk, sk), (1, 2));
        Ok(3)
    });
    assert_eq!(r.unwrap(), ArrayOutput(3));
    let r = ctx.kx_encapsulate(Publickey(4), |_, pk| Ok((pk + 1, pk + 2)));
    assert_eq!(r.unwrap(), (ArrayOutput(5), ArrayOutput(6)));
    let r = ctx.kx_decapsulate(&mem, Secretkey(7), 23, 1, |_, sk, encapsulated| {
        assert_eq!((sk, encapsulated), (7, &[18u8][..]));
        Ok(8)
    });
    assert_eq!(r.unwrap(), ArrayOutput(8));
    let r = ctx.kx_decapsulate(&mem, Secretkey(7), 23, 100, |_, _, _| unreachable!());
    assert!(is_out_of_bounds(&r.unwrap_err(), 23, 100));
    let r = ctx.kx_encapsulate(Publickey(4), |_, _| Err(CryptoError::InvalidOperation));
    assert!(matches!(r, Err(WasiCryptoError::Crypto(CryptoError::InvalidOperation))));
}
