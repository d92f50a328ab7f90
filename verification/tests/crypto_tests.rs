use archdrop::crypto::{be32_bytes, frame_chunk};
use archdrop::{
    decrypt_chunk_at_position, encrypt_chunk_at_position, EncryptionKey, Encryptor, Nonce,
};
use base64::Engine;

#[test]
fn test_chunk_round_trip() {
    let key = EncryptionKey::new();
    let nonce = Nonce::new();
    let plaintext = b"the quick brown fox jumps over the lazy dog";

    let ciphertext = encrypt_chunk_at_position(&key, &nonce, plaintext, 7).unwrap();
    assert_eq!(ciphertext.len(), plaintext.len() + 16);
    assert_ne!(&ciphertext[..plaintext.len()], &plaintext[..]);

    let decrypted = decrypt_chunk_at_position(&key, &nonce, &ciphertext, 7).unwrap();
    assert_eq!(decrypted, plaintext);
}

#[test]
fn test_ciphertext_deterministic() {
    let key = EncryptionKey::new();
    let nonce = Nonce::new();
    let plaintext = b"same position, same bytes";

    let first = encrypt_chunk_at_position(&key, &nonce, plaintext, 3).unwrap();
    let second = encrypt_chunk_at_position(&key, &nonce, plaintext, 3).unwrap();
    assert_eq!(first, second);

    // A different counter produces a different ciphertext
    let other = encrypt_chunk_at_position(&key, &nonce, plaintext, 4).unwrap();
    assert_ne!(first, other);
}

#[test]
fn test_decrypt_wrong_counter_fails() {
    let key = EncryptionKey::new();
    let nonce = Nonce::new();
    let ciphertext = encrypt_chunk_at_position(&key, &nonce, b"payload", 0).unwrap();

    let result = decrypt_chunk_at_position(&key, &nonce, &ciphertext, 1);
    let err = result.unwrap_err();
    assert_eq!(err.status_code(), 400);
}

#[test]
fn test_tampered_ciphertext_fails() {
    let key = EncryptionKey::new();
    let nonce = Nonce::new();
    let mut ciphertext = encrypt_chunk_at_position(&key, &nonce, b"payload", 0).unwrap();

    // Flip a single bit
    ciphertext[0] ^= 0x01;
    let result = decrypt_chunk_at_position(&key, &nonce, &ciphertext, 0);
    let err = result.unwrap_err();
    assert_eq!(err.status_code(), 400);
}

#[test]
fn test_be32_big_endian_layout() {
    assert_eq!(be32_bytes(0), vec![0, 0, 0, 0]);
    assert_eq!(be32_bytes(1), vec![0, 0, 0, 1]);
    assert_eq!(be32_bytes(0x01020304), vec![1, 2, 3, 4]);
    assert_eq!(be32_bytes(u32::MAX), vec![0xff, 0xff, 0xff, 0xff]);
}

#[test]
fn test_with_counter_layout() {
    let nonce = Nonce::from_bytes(vec![9, 8, 7, 6, 5, 4, 3, 2]).unwrap();
    let full = nonce.with_counter(0x01020304);
    assert_eq!(full, vec![9, 8, 7, 6, 5, 4, 3, 2, 1, 2, 3, 4]);
    assert_eq!(full.len(), 12);
}

#[test]
fn test_frame_chunk_prefixes_length() {
    let framed = frame_chunk(&[0xaa, 0xbb]);
    assert_eq!(framed, vec![0, 0, 0, 2, 0xaa, 0xbb]);

    let empty = frame_chunk(&[]);
    assert_eq!(empty, vec![0, 0, 0, 0]);
}

#[test]
fn test_encryptor_key_base64() {
    let encryptor = Encryptor::new();

    let key_b64 = encryptor.get_key_base64();
    assert_eq!(key_b64.len(), 44);
    let decoded = base64::engine::general_purpose::STANDARD.decode(&key_b64).unwrap();
    assert_eq!(&decoded, encryptor.key_bytes());

    let nonce_b64 = encryptor.get_nonce_base64();
    assert_eq!(nonce_b64.len(), 12);
    let decoded_nonce = base64::engine::general_purpose::STANDARD.decode(&nonce_b64).unwrap();
    assert_eq!(&decoded_nonce, encryptor.nonce_bytes());
}

#[test]
fn test_key_from_bytes_checks_length() {
    assert!(EncryptionKey::from_bytes(vec![0u8; 32]).is_ok());
    let err = EncryptionKey::from_bytes(vec![0u8; 31]).unwrap_err();
    assert_eq!(err.status_code(), 400);
}

#[test]
fn test_nonce_from_bytes_checks_length() {
    assert!(Nonce::from_bytes(vec![0u8; 8]).is_ok());
    let err = Nonce::from_bytes(vec![0u8; 7]).unwrap_err();
    assert_eq!(err.status_code(), 400);
}
