use dexios_core::algorithm::Algorithm;
use dexios_core::cipher::Ciphers;
use dexios_core::engine::generate_nonce;
use dexios_core::error::Error;
use dexios_core::hash::{hash_encrypted, verify_hash};
use dexios_core::header::{deserialize, Header};
use dexios_core::rng::generate_salt;
use dexios_core::secret::Secret;
use dexios_core::stream::{StreamDecryptor, StreamEncryptor, BLOCK_SIZE};

fn test_cipher(alg: Algorithm) -> Ciphers {
    let key = Secret::new([7u8; 32]);
    Ciphers::initialize(key, alg).unwrap()
}

#[test]
fn cipher_round_trip_each_algorithm() {
    for (alg, nonce_len) in [
        (Algorithm::Aes256Gcm, 12),
        (Algorithm::XChaCha20Poly1305, 24),
        (Algorithm::DeoxysII256, 15),
    ] {
        let cipher = test_cipher(alg);
        let nonce = vec![1u8; nonce_len];
        let sealed = cipher.encrypt(&nonce, b"payload", b"aad").unwrap();
        assert_eq!(sealed.len(), 7 + 16);
        assert_ne!(&sealed[..7], b"payload");
        let opened = cipher.decrypt(&nonce, &sealed, b"aad").unwrap();
        assert_eq!(opened, b"payload");
    }
}

#[test]
fn cipher_rejects_wrong_nonce_key_or_aad() {
    let cipher = test_cipher(Algorithm::Aes256Gcm);
    let nonce = vec![1u8; 12];
    let sealed = cipher.encrypt(&nonce, b"payload", b"aad").unwrap();
    let other_nonce = vec![2u8; 12];
    assert_eq!(
        cipher.decrypt(&other_nonce, &sealed, b"aad"),
        Err(Error::AuthenticationFailed)
    );
    assert_eq!(
        cipher.decrypt(&nonce, &sealed, b"other aad"),
        Err(Error::AuthenticationFailed)
    );
    let other_key = Ciphers::initialize(Secret::new([8u8; 32]), Algorithm::Aes256Gcm).unwrap();
    assert_eq!(
        other_key.decrypt(&nonce, &sealed, b"aad"),
        Err(Error::AuthenticationFailed)
    );
}

#[test]
fn derive_is_deterministic() {
    let salt = [3u8; 16];
    let a = dexios_core::kdf::derive(b"correct horse", &salt).unwrap();
    let b = dexios_core::kdf::derive(b"correct horse", &salt).unwrap();
    assert_eq!(a.expose(), b.expose());
    assert_eq!(a.len(), 32);
}

#[test]
fn derive_differs_across_salts_and_passwords() {
    let a = dexios_core::kdf::derive(b"correct horse", &[3u8; 16]).unwrap();
    let b = dexios_core::kdf::derive(b"correct horse", &[4u8; 16]).unwrap();
    let c = dexios_core::kdf::derive(b"wrong horse", &[3u8; 16]).unwrap();
    assert_ne!(a.expose(), b.expose());
    assert_ne!(a.expose(), c.expose());
}

#[test]
fn secret_zeroize_wipes_buffer() {
    let mut s = Secret::new([0xddu8; 32]);
    assert_eq!(s.expose(), &[0xddu8; 32]);
    s.zeroize();
    assert_eq!(s.expose(), &[0u8; 32]);
}

#[test]
fn blake3_digest_known_answer() {
    // BLAKE3 of the empty input.
    let expected: [u8; 32] = [
        0xaf, 0x13, 0x49, 0xb9, 0xf5, 0xf9, 0xa1, 0xa6, 0xa0, 0x40, 0x4d, 0xea, 0x36, 0xdc,
        0xc9, 0x49, 0x9b, 0xcb, 0x25, 0xc9, 0xad, 0xc1, 0x12, 0xb7, 0xcc, 0x9a, 0x93, 0xca,
        0xe4, 0x1f, 0x32, 0x62,
    ];
    assert_eq!(hash_encrypted(b""), expected);
    assert!(verify_hash(b"", &expected));
    assert!(!verify_hash(b"x", &expected));
    let mut wrong = expected;
    wrong[0] ^= 1;
    assert!(!verify_hash(b"", &wrong));
}

#[test]
fn header_serialize_then_deserialize() {
    for (alg, nonce_len) in [
        (Algorithm::Aes256Gcm, 12),
        (Algorithm::XChaCha20Poly1305, 24),
        (Algorithm::DeoxysII256, 15),
    ] {
        let h = Header {
            salt: vec![0xabu8; 16],
            nonce: vec![0u8; nonce_len],
            algorithm: alg,
        };
        let bytes = h.serialize();
        assert_eq!(bytes.len(), 17 + nonce_len);
        let back = deserialize(&bytes, false).unwrap();
        assert_eq!(back.algorithm, alg);
        assert_eq!(back.salt, h.salt);
        assert_eq!(back.nonce, h.nonce);
        assert!(!back.is_stream());
    }
}

#[test]
fn header_rejects_short_or_unknown() {
    assert_eq!(deserialize(&[0u8; 10], false), Err(Error::MalformedHeader));
    let h = Header {
        salt: vec![1u8; 16],
        nonce: vec![0u8; 12],
        algorithm: Algorithm::Aes256Gcm,
    };
    let mut bytes = h.serialize();
    bytes[28] = 0xff;
    assert_eq!(deserialize(&bytes, false), Err(Error::MalformedHeader));
}

#[test]
fn generated_nonces_have_the_stored_width() {
    assert_eq!(generate_nonce(Algorithm::Aes256Gcm, false).len(), 12);
    assert_eq!(generate_nonce(Algorithm::Aes256Gcm, true).len(), 8);
    assert_eq!(generate_nonce(Algorithm::XChaCha20Poly1305, false).len(), 24);
    assert_eq!(generate_nonce(Algorithm::XChaCha20Poly1305, true).len(), 20);
    assert_eq!(generate_nonce(Algorithm::DeoxysII256, false).len(), 15);
    assert_eq!(generate_nonce(Algorithm::DeoxysII256, true).len(), 11);
    assert_eq!(generate_salt().len(), 16);
}

#[test]
fn generated_nonces_avoid_earlier_tags() {
    for _ in 0..300 {
        let n = generate_nonce(Algorithm::XChaCha20Poly1305, false);
        assert_ne!(n[12], 1);
        assert_ne!(n[15], 3);
        let d = generate_nonce(Algorithm::DeoxysII256, true);
        assert_ne!(d[8], 1);
    }
}

#[test]
fn stream_codec_blocks_round_trip() {
    let base = [6u8; 8];
    let mut enc = StreamEncryptor::new(test_cipher(Algorithm::Aes256Gcm), &base);
    let block0 = vec![1u8; BLOCK_SIZE];
    let c0 = enc.encrypt_block(&block0, false).unwrap();
    let c1 = enc.encrypt_block(b"tail", true).unwrap();
    assert_eq!(c0.len(), BLOCK_SIZE + 16);
    assert_eq!(c1.len(), 4 + 16);

    let mut dec = StreamDecryptor::new(test_cipher(Algorithm::Aes256Gcm), &base);
    assert_eq!(dec.decrypt_block(&c0, false).unwrap(), block0);
    assert_eq!(dec.decrypt_block(&c1, true).unwrap(), b"tail");
}

#[test]
fn stream_chunk_decisions() {
    let base = [6u8; 8];
    let mut enc = StreamEncryptor::new(test_cipher(Algorithm::Aes256Gcm), &base);
    let block0 = vec![1u8; BLOCK_SIZE];
    let c0 = enc.encrypt_block(&block0, false).unwrap();
    let c1 = enc.encrypt_block(b"tail", true).unwrap();

    // A continuation block where the stream ends: truncation.
    let mut dec = StreamDecryptor::new(test_cipher(Algorithm::Aes256Gcm), &base);
    assert_eq!(dec.decrypt_chunk(&c0, false), Err(Error::StreamTruncated));

    // A final block with more data behind it: trailing data.
    let mut dec2 = StreamDecryptor::new(test_cipher(Algorithm::Aes256Gcm), &base);
    assert_eq!(dec2.decrypt_chunk(&c0, true).unwrap(), block0);
    assert_eq!(
        dec2.decrypt_chunk(&c1, true),
        Err(Error::UnexpectedTrailingData)
    );

    // The happy path through the same decision function.
    let mut dec3 = StreamDecryptor::new(test_cipher(Algorithm::Aes256Gcm), &base);
    assert_eq!(dec3.decrypt_chunk(&c0, true).unwrap(), block0);
    assert_eq!(dec3.decrypt_chunk(&c1, false).unwrap(), b"tail");
}

#[test]
fn error_messages_name_the_failure() {
    assert_eq!(Error::AuthenticationFailed.message(), "authentication failed");
    assert_eq!(
        Error::StreamTruncated.message(),
        "ciphertext stream is truncated"
    );
}

#[test]
fn params_carry_their_switches() {
    let crypto = dexios_core::params::CryptoParams {
        hash_mode: dexios_core::params::HashMode::CalculateHash,
        force: dexios_core::params::ForceMode::Prompt,
        erase: dexios_core::params::EraseMode::EraseFile(2),
        key: dexios_core::params::Key::Keyfile(String::from("key.bin")),
        header_location: dexios_core::params::HeaderLocation::Embedded,
    };
    assert_eq!(crypto.hash_mode, dexios_core::params::HashMode::CalculateHash);
    assert_eq!(crypto.erase, dexios_core::params::EraseMode::EraseFile(2));
    let pack = dexios_core::params::PackParams {
        dir_mode: dexios_core::params::DirectoryMode::Recursive,
        print_mode: dexios_core::params::PrintMode::Quiet,
        erase_source: dexios_core::params::EraseSourceDir::Retain,
        compression: dexios_core::params::Compression::Uncompressed,
    };
    assert_eq!(pack.dir_mode, dexios_core::params::DirectoryMode::Recursive);
}

#[test]
fn mode_threshold_is_stable() {
    // One block, one tag, four counter bytes, and the widest header.
    assert_eq!(dexios_core::engine::MODE_THRESHOLD, 1048576 + 16 + 4 + 41);
    assert_eq!(dexios_core::stream::BLOCK_SIZE, 1048576);
}
