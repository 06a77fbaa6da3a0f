use dexios_core::algorithm::Algorithm;
use dexios_core::engine::{
    decrypt_bytes, encrypt_bytes, encrypt_bytes_auto, select_mode, Mode, MODE_THRESHOLD,
};
use dexios_core::error::Error;
use dexios_core::stream::BLOCK_SIZE;

const SALT: [u8; 16] = [9u8; 16];

fn round_trip_auto(alg: Algorithm, plaintext: &[u8]) {
    let out = encrypt_bytes_auto(plaintext, b"a strong password", alg).unwrap();
    let back = decrypt_bytes(&out, b"a strong password").unwrap();
    assert_eq!(back, plaintext);
}

#[test]
fn round_trip_small_all_algorithms() {
    round_trip_auto(Algorithm::Aes256Gcm, b"hello world");
    round_trip_auto(Algorithm::XChaCha20Poly1305, b"hello world");
    round_trip_auto(Algorithm::DeoxysII256, b"hello world");
}

#[test]
fn round_trip_empty_all_algorithms() {
    round_trip_auto(Algorithm::Aes256Gcm, b"");
    round_trip_auto(Algorithm::XChaCha20Poly1305, b"");
    round_trip_auto(Algorithm::DeoxysII256, b"");
}

#[test]
fn round_trip_exactly_one_block() {
    let plaintext = vec![0xa5u8; BLOCK_SIZE];
    round_trip_auto(Algorithm::Aes256Gcm, &plaintext);
}

#[test]
fn round_trip_stream_mode_all_algorithms() {
    let plaintext = vec![0x42u8; BLOCK_SIZE + 4321];
    round_trip_auto(Algorithm::Aes256Gcm, &plaintext);
    round_trip_auto(Algorithm::XChaCha20Poly1305, &plaintext);
    round_trip_auto(Algorithm::DeoxysII256, &plaintext);
}

#[test]
fn wrong_password_fails_authentication() {
    let out = encrypt_bytes_auto(b"secret data", b"right password", Algorithm::Aes256Gcm).unwrap();
    assert_eq!(
        decrypt_bytes(&out, b"wrong password"),
        Err(Error::AuthenticationFailed)
    );
}

#[test]
fn tamper_with_ciphertext_fails_authentication() {
    // AES-256-GCM memory mode: header is 29 bytes, ciphertext follows.
    let out = encrypt_bytes_auto(b"some file contents", b"pw", Algorithm::Aes256Gcm).unwrap();
    let mut bad = out.clone();
    bad[29] ^= 0x01;
    assert_eq!(decrypt_bytes(&bad, b"pw"), Err(Error::AuthenticationFailed));
}

#[test]
fn tamper_with_tag_fails_authentication() {
    let out = encrypt_bytes_auto(b"some file contents", b"pw", Algorithm::Aes256Gcm).unwrap();
    let mut bad = out.clone();
    let last = bad.len() - 1;
    bad[last] ^= 0x80;
    assert_eq!(decrypt_bytes(&bad, b"pw"), Err(Error::AuthenticationFailed));
}

#[test]
fn tamper_with_nonce_fails_authentication() {
    let out = encrypt_bytes_auto(b"some file contents", b"pw", Algorithm::Aes256Gcm).unwrap();
    let mut bad = out.clone();
    bad[16] ^= 0x04;
    assert_eq!(decrypt_bytes(&bad, b"pw"), Err(Error::AuthenticationFailed));
}

#[test]
fn tamper_with_salt_fails_authentication() {
    let out = encrypt_bytes_auto(b"some file contents", b"pw", Algorithm::Aes256Gcm).unwrap();
    let mut bad = out.clone();
    bad[0] ^= 0x10;
    assert_eq!(decrypt_bytes(&bad, b"pw"), Err(Error::AuthenticationFailed));
}

#[test]
fn tamper_with_stream_block_fails_authentication() {
    let out = encrypt_bytes_auto(
        &vec![7u8; BLOCK_SIZE + 100],
        b"pw",
        Algorithm::Aes256Gcm,
    )
    .unwrap();
    let mut bad = out.clone();
    bad[200] ^= 0x01;
    assert_eq!(decrypt_bytes(&bad, b"pw"), Err(Error::AuthenticationFailed));
}

#[test]
fn truncation_is_detected() {
    // Three stream blocks; drop the trailing final block and its tag.
    // What remains still exceeds the mode threshold, so it is read as a
    // stream that ends on a continuation block.
    let plaintext = vec![3u8; 2 * BLOCK_SIZE + 1000];
    let out = encrypt_bytes_auto(&plaintext, b"pw", Algorithm::Aes256Gcm).unwrap();
    let header_len = 16 + 8 + 1;
    let truncated = out[..header_len + 2 * (BLOCK_SIZE + 16)].to_vec();
    assert_eq!(decrypt_bytes(&truncated, b"pw"), Err(Error::StreamTruncated));
}

#[test]
fn trailing_data_is_detected() {
    // Two full stream blocks, then a full chunk of junk appended: the
    // final-marked block is followed by more data.
    let plaintext = vec![5u8; 2 * BLOCK_SIZE];
    let mut out = encrypt_bytes_auto(&plaintext, b"pw", Algorithm::Aes256Gcm).unwrap();
    out.extend(std::iter::repeat(0u8).take(BLOCK_SIZE + 16));
    assert_eq!(
        decrypt_bytes(&out, b"pw"),
        Err(Error::UnexpectedTrailingData)
    );
}

#[test]
fn mode_selection_boundary() {
    // AES-256-GCM memory header is 29 bytes; the largest memory-mode
    // plaintext satisfies 29 + len + 16 == MODE_THRESHOLD.
    let boundary = MODE_THRESHOLD - 29 - 16;
    assert_eq!(select_mode(Algorithm::Aes256Gcm, boundary), Mode::Memory);
    assert_eq!(select_mode(Algorithm::Aes256Gcm, boundary + 1), Mode::Stream);
    assert_eq!(select_mode(Algorithm::Aes256Gcm, 0), Mode::Memory);
}

#[test]
fn mode_equivalence_at_boundary() {
    // Encrypt the boundary-size plaintext with each mode forced; both
    // payloads decrypt to the identical plaintext.
    let boundary = MODE_THRESHOLD - 29 - 16;
    let plaintext = vec![0x11u8; boundary];
    let mem_nonce = [0u8; 12];
    let stream_nonce = [0u8; 8];
    let via_memory = encrypt_bytes(
        &plaintext,
        b"pw",
        &SALT,
        &mem_nonce,
        Algorithm::Aes256Gcm,
        Mode::Memory,
    )
    .unwrap();
    let via_stream = encrypt_bytes(
        &plaintext,
        b"pw",
        &SALT,
        &stream_nonce,
        Algorithm::Aes256Gcm,
        Mode::Stream,
    )
    .unwrap();
    let from_memory = decrypt_bytes(&via_memory, b"pw").unwrap();
    let from_stream = decrypt_bytes(&via_stream, b"pw").unwrap();
    assert_eq!(from_memory, plaintext);
    assert_eq!(from_stream, plaintext);
    assert_eq!(from_memory, from_stream);
}

#[test]
fn three_mebibyte_zero_file_scenario() {
    // 3 MiB of zeros, AES-256-GCM, fixed salt and nonce.
    let plaintext = vec![0u8; 3 * BLOCK_SIZE];
    let stream_nonce = [0u8; 8];
    let out = encrypt_bytes(
        &plaintext,
        b"correct horse",
        &SALT,
        &stream_nonce,
        Algorithm::Aes256Gcm,
        Mode::Stream,
    )
    .unwrap();
    let back = decrypt_bytes(&out, b"correct horse").unwrap();
    assert_eq!(back, plaintext);
    assert_eq!(
        decrypt_bytes(&out, b"wrong horse"),
        Err(Error::AuthenticationFailed)
    );
}

#[test]
fn malformed_header_reported() {
    assert_eq!(decrypt_bytes(&[0u8; 4], b"pw"), Err(Error::MalformedHeader));
    // Long enough, but no candidate tag byte matches anywhere.
    assert_eq!(
        decrypt_bytes(&[0xeeu8; 64], b"pw"),
        Err(Error::MalformedHeader)
    );
}

#[test]
fn payload_layout_is_fixed() {
    // salt(16) || nonce(12) || tag(1) || ciphertext for AES memory mode.
    let nonce: [u8; 12] = [2, 4, 6, 8, 10, 12, 14, 16, 18, 20, 22, 24];
    let out = encrypt_bytes(
        b"abc",
        b"pw",
        &SALT,
        &nonce,
        Algorithm::Aes256Gcm,
        Mode::Memory,
    )
    .unwrap();
    assert_eq!(&out[..16], &SALT);
    assert_eq!(&out[16..28], &nonce);
    assert_eq!(out[28], 1);
    assert_eq!(out.len(), 29 + 3 + 16);
}
