use base64::Engine;
use tempest::crypto::{decrypt, encrypt, encrypt_with_nonce, key_path_in, load_or_create_key};

#[test]
fn encrypt_then_decrypt() {
    let key = vec![7u8; 32];
    for text in ["", "session-token-123", "ünïcödé ✓"] {
        let enc = encrypt(&key, text).unwrap();
        assert_ne!(enc, text);
        assert_eq!(decrypt(&key, &enc), Some(text.to_string()));
    }
}

#[test]
fn fresh_nonce_each_time() {
    let key = vec![1u8; 32];
    assert_ne!(encrypt(&key, "same").unwrap(), encrypt(&key, "same").unwrap());
}

#[test]
fn layout_is_nonce_then_ciphertext() {
    let key = vec![3u8; 32];
    let nonce = vec![9u8; 12];
    let enc = encrypt_with_nonce(&key, &nonce, "abc");
    let raw = base64::engine::general_purpose::STANDARD.decode(&enc).unwrap();
    assert_eq!(&raw[..12], &nonce[..]);
    assert_eq!(raw.len(), 12 + 3 + 16);
    assert_eq!(encrypt_with_nonce(&key, &nonce, "abc"), enc);
    assert_eq!(decrypt(&key, &enc), Some("abc".to_string()));
}

#[test]
fn decrypt_failures() {
    let key = vec![7u8; 32];
    let other = vec![8u8; 32];
    let enc = encrypt(&key, "secret").unwrap();
    assert_eq!(decrypt(&other, &enc), None);
    assert_eq!(decrypt(&key, "not base64!"), None);
    let short = base64::engine::general_purpose::STANDARD.encode([1u8, 2, 3]);
    assert_eq!(decrypt(&key, &short), None);
    let mut raw = base64::engine::general_purpose::STANDARD.decode(&enc).unwrap();
    let last = raw.len() - 1;
    raw[last] ^= 1;
    let tampered = base64::engine::general_purpose::STANDARD.encode(&raw);
    assert_eq!(decrypt(&key, &tampered), None);
}

#[test]
fn key_choice() {
    let (k, write) = load_or_create_key(Some(vec![5u8; 32])).unwrap();
    assert_eq!(k, vec![5u8; 32]);
    assert!(!write);
    let (k, write) = load_or_create_key(Some(vec![5u8; 31])).unwrap();
    assert_eq!(k.len(), 32);
    assert!(write);
    let (k, write) = load_or_create_key(None).unwrap();
    assert_eq!(k.len(), 32);
    assert!(write);
}

#[test]
fn key_file_location() {
    assert_eq!(key_path_in("/home/u/.config/tempest"), "/home/u/.config/tempest/vortex.key");
}
