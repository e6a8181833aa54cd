use vstd::prelude::*;
use vstd::utf8::{decode_utf8, encode_utf8, valid_utf8};
use aes_gcm::aead::{Aead, KeyInit};
use base64::Engine;
use rand::RngCore;

verus! {

/// The file that holds the key, in the configuration directory `config_dir`.
pub fn key_path_in(config_dir: &str) -> (res: String)
    ensures
        res@ == crate::path::join(config_dir@, "vortex.key"@),
{
    crate::path::join_str(config_dir, "vortex.key")
}

/// The file that holds the key: `vortex.key` in the configuration directory.
pub fn key_path() -> (res: String)
    ensures
        exists|d: Seq<char>| res@ == crate::path::join(d, "vortex.key"@),
{
    let d = crate::config::Config::config_dir();
    key_path_in(d.as_str())
}

/// The length of a key, in bytes.
pub const KEY_LEN: usize = 32;

/// The length of a nonce, in bytes.
pub const NONCE_LEN: usize = 12;

/// The most plaintext bytes that AES-256-GCM encrypts at once.
pub open spec fn max_plaintext() -> nat {
    0x10_0000_0000
}

/// What AES-256-GCM (`aes_gcm::Aes256Gcm`, no associated data) makes of `pt` under `key` and
/// `nonce`: the ciphertext followed by the tag.
pub uninterp spec fn aes256gcm_seal(key: Seq<u8>, nonce: Seq<u8>, pt: Seq<u8>) -> Seq<u8>;

/// What AES-256-GCM decryption (`aes_gcm::Aes256Gcm`, no associated data) gives for `ct` under
/// `key` and `nonce`: the plaintext, or none where authentication fails.
pub uninterp spec fn aes256gcm_open(key: Seq<u8>, nonce: Seq<u8>, ct: Seq<u8>) -> Option<Seq<u8>>;

/// What the `base64` crate's `STANDARD` engine encodes `b` to (padded, standard alphabet).
pub uninterp spec fn base64_encode(b: Seq<u8>) -> Seq<char>;

/// What the `base64` crate's `STANDARD` engine decodes `s` to, or none where `s` is no such
/// encoding.
pub uninterp spec fn base64_decode(s: Seq<char>) -> Option<Seq<u8>>;

/// `Aes256Gcm::new_from_slice(key)`, then `encrypt(nonce, pt)`; the result is named
/// `aes256gcm_seal`. Decrypting it under the same key and nonce gives `pt` back (what an AEAD
/// promises). The key must be 32 bytes and the nonce 12 (else `new_from_slice` errs and
/// `Nonce::from_slice` panics), and the plaintext at most 2^36 bytes (else `encrypt` errs).
#[verifier::external_body]
fn seal(key: &[u8], nonce: &[u8], pt: &[u8]) -> (res: Vec<u8>)
    requires
        key@.len() == 32,
        nonce@.len() == 12,
        pt@.len() <= max_plaintext(),
    ensures
        res@ == aes256gcm_seal(key@, nonce@, pt@),
        aes256gcm_open(key@, nonce@, res@) == Some(pt@),
{
    let cipher = aes_gcm::Aes256Gcm::new_from_slice(key).expect("valid key");
    cipher.encrypt(aes_gcm::Nonce::from_slice(nonce), pt).expect("encryption failed")
}

/// `Aes256Gcm::new_from_slice(key)`, then `decrypt(nonce, ct).ok()`; the result is named
/// `aes256gcm_open`. The key must be 32 bytes and the nonce 12.
#[verifier::external_body]
fn open(key: &[u8], nonce: &[u8], ct: &[u8]) -> (res: Option<Vec<u8>>)
    requires
        key@.len() == 32,
        nonce@.len() == 12,
    ensures
        match res {
            Some(p) => aes256gcm_open(key@, nonce@, ct@) == Some(p@),
            None => aes256gcm_open(key@, nonce@, ct@) is None,
        },
{
    let cipher = aes_gcm::Aes256Gcm::new_from_slice(key).expect("valid key");
    cipher.decrypt(aes_gcm::Nonce::from_slice(nonce), ct).ok()
}

/// `base64::engine::general_purpose::STANDARD.encode`; the result is named `base64_encode`.
/// Decoding it with the same engine gives `b` back.
#[verifier::external_body]
fn b64_encode(b: &[u8]) -> (res: String)
    ensures
        res@ == base64_encode(b@),
        base64_decode(res@) == Some(b@),
{
    base64::engine::general_purpose::STANDARD.encode(b)
}

/// `base64::engine::general_purpose::STANDARD.decode(s).ok()`; the result is named
/// `base64_decode`.
#[verifier::external_body]
fn b64_decode(s: &str) -> (res: Option<Vec<u8>>)
    ensures
        match res {
            Some(b) => base64_decode(s@) == Some(b@),
            None => base64_decode(s@) is None,
        },
{
    base64::engine::general_purpose::STANDARD.decode(s).ok()
}

/// std's `String::from_utf8(b).ok()`: the text that the bytes encode, where they are UTF-8.
#[verifier::external_body]
fn utf8_text(b: Vec<u8>) -> (res: Option<String>)
    ensures
        res is Some <==> valid_utf8(b@),
        res matches Some(s) ==> s@ == decode_utf8(b@),
{
    String::from_utf8(b).ok()
}

/// `n` bytes from the operating system's random number generator (`OsRng.try_fill_bytes`),
/// or none where the operating system cannot deliver them. Nothing is claimed of the bytes but
/// their number, nor of when the generator fails.
#[verifier::external_body]
fn random_bytes(n: usize) -> (res: Option<Vec<u8>>)
    ensures
        res matches Some(b) ==> b@.len() == n,
{
    let mut b = vec![0u8; n];
    match aes_gcm::aead::OsRng.try_fill_bytes(&mut b) {
        Ok(()) => Some(b),
        Err(_) => None,
    }
}

/// What an encrypted value holds: the nonce, then the AES-256-GCM ciphertext of the UTF-8
/// bytes of the text, all in standard Base64.
pub open spec fn sealed_text(key: Seq<u8>, nonce: Seq<u8>, plaintext: Seq<char>) -> Seq<char> {
    base64_encode(nonce + aes256gcm_seal(key, nonce, encode_utf8(plaintext)))
}

/// The text that an encrypted value holds under `key`: none where it is no Base64, is shorter
/// than a nonce, fails authentication, or is no UTF-8.
pub open spec fn opened_text(key: Seq<u8>, encoded: Seq<char>) -> Option<Seq<char>> {
    match base64_decode(encoded) {
        None => None,
        Some(c) => opened_bytes(key, c),
    }
}

/// Whether a stored key can be used: it is 32 bytes long.
pub open spec fn usable_key(stored: Option<Vec<u8>>) -> bool {
    stored matches Some(r) && r@.len() == KEY_LEN
}

/// The key to use: the stored one where it is 32 bytes long, else a fresh random key that must
/// then be stored (the second part of the result says so); none where a fresh key is needed
/// and the random number generator fails.
pub fn load_or_create_key(stored: Option<Vec<u8>>) -> (res: Option<(Vec<u8>, bool)>)
    ensures
        usable_key(stored) ==> (res matches Some(p) && p.0@ == stored->0@ && !p.1),
        !usable_key(stored) ==> (res matches Some(p) ==> p.0@.len() == KEY_LEN && p.1),
{
    match stored {
        Some(raw) => if raw.len() == KEY_LEN {
            return Some((raw, false));
        },
        None => {},
    }
    match random_bytes(KEY_LEN) {
        Some(k) => Some((k, true)),
        None => None,
    }
}

/// Encrypts `plaintext` under `key` with the given nonce: the nonce, then the ciphertext, in
/// Base64. Decrypting the result under the same key gives `plaintext` back.
pub fn encrypt_with_nonce(key: &Vec<u8>, nonce: &Vec<u8>, plaintext: &str) -> (res: String)
    requires
        key@.len() == KEY_LEN,
        nonce@.len() == NONCE_LEN,
        encode_utf8(plaintext@).len() <= max_plaintext(),
    ensures
        res@ == sealed_text(key@, nonce@, plaintext@),
        opened_text(key@, res@) == Some(plaintext@),
{
    let pt = plaintext.as_bytes();
    let ct = seal(key.as_slice(), nonce.as_slice(), pt);
    let mut combined: Vec<u8> = Vec::new();
    let mut i: usize = 0;
    while i < nonce.len()
        invariant
            i <= nonce.len(),
            combined@ == nonce@.take(i as int),
        decreases nonce.len() - i,
    {
        combined.push(nonce[i]);
        assert(nonce@.take(i as int + 1) =~= nonce@.take(i as int).push(nonce@[i as int]));
        i = i + 1;
    }
    let mut j: usize = 0;
    while j < ct.len()
        invariant
            j <= ct.len(),
            combined@ == nonce@ + ct@.take(j as int),
        decreases ct.len() - j,
    {
        combined.push(ct[j]);
        assert(ct@.take(j as int + 1) =~= ct@.take(j as int).push(ct@[j as int]));
        j = j + 1;
    }
    assert(nonce@.take(nonce.len() as int) =~= nonce@);
    assert(ct@.take(ct.len() as int) =~= ct@);
    let res = b64_encode(combined.as_slice());
    proof {
        assert(combined@.take(12) =~= nonce@);
        assert(combined@.skip(12) =~= ct@);
        vstd::utf8::encode_utf8_valid_utf8(plaintext@);
        vstd::utf8::encode_utf8_decode_utf8(plaintext@);
    }
    res
}

/// Encrypts `plaintext` under `key` with a fresh random nonce: the nonce, then the ciphertext,
/// in Base64; none where the random number generator fails. Decrypting the result under the
/// same key gives `plaintext` back.
pub fn encrypt(key: &Vec<u8>, plaintext: &str) -> (res: Option<String>)
    requires
        key@.len() == KEY_LEN,
        encode_utf8(plaintext@).len() <= max_plaintext(),
    ensures
        res matches Some(e) ==> exists|nonce: Seq<u8>|
            nonce.len() == NONCE_LEN && e@ == sealed_text(key@, nonce, plaintext@),
        res matches Some(e) ==> opened_text(key@, e@) == Some(plaintext@),
{
    match random_bytes(NONCE_LEN) {
        Some(nonce) => Some(encrypt_with_nonce(key, &nonce, plaintext)),
        None => None,
    }
}

/// The text that `encoded` holds under `key`: decoded from Base64, split into nonce and
/// ciphertext, decrypted, and read as UTF-8; none where any step fails.
pub fn decrypt(key: &Vec<u8>, encoded: &str) -> (res: Option<String>)
    requires
        key@.len() == KEY_LEN,
    ensures
        opt_text(res) == opened_text(key@, encoded@),
{
    match b64_decode(encoded) {
        Some(c) => open_combined(key, &c),
        None => None,
    }
}

/// The text held by decoded bytes: a nonce, then the ciphertext; none where the bytes are
/// shorter than a nonce, fail authentication, or do not decrypt to UTF-8.
pub open spec fn opened_bytes(key: Seq<u8>, c: Seq<u8>) -> Option<Seq<char>> {
    if c.len() < 12 {
        None
    } else {
        match aes256gcm_open(key, c.take(12), c.skip(12)) {
            None => None,
            Some(b) => if valid_utf8(b) {
                Some(decode_utf8(b))
            } else {
                None
            },
        }
    }
}

/// The text held by decoded bytes: split into nonce and ciphertext, decrypted, read as UTF-8.
pub fn open_combined(key: &Vec<u8>, combined: &Vec<u8>) -> (res: Option<String>)
    requires
        key@.len() == KEY_LEN,
    ensures
        opt_text(res) == opened_bytes(key@, combined@),
{
    if combined.len() < NONCE_LEN {
        return None;
    }
    let mut nonce: Vec<u8> = Vec::new();
    let mut ct: Vec<u8> = Vec::new();
    let mut i: usize = 0;
    while i < combined.len()
        invariant
            i <= combined.len(),
            combined@.len() >= 12,
            i <= 12 ==> nonce@ == combined@.take(i as int) && ct@.len() == 0,
            i > 12 ==> nonce@ == combined@.take(12) && ct@ == combined@.subrange(12, i as int),
        decreases combined.len() - i,
    {
        if i < NONCE_LEN {
            nonce.push(combined[i]);
            assert(combined@.take(i as int + 1) =~= combined@.take(i as int).push(combined@[i as int]));
        } else {
            ct.push(combined[i]);
            assert(combined@.subrange(12, i as int + 1) =~= combined@.subrange(12, i as int).push(
                combined@[i as int],
            ));
        }
        i = i + 1;
    }
    if combined.len() == 12 {
        assert(ct@ =~= combined@.skip(12));
    } else {
        assert(ct@ =~= combined@.skip(12));
    }
    let bytes = match open(key.as_slice(), nonce.as_slice(), ct.as_slice()) {
        Some(b) => b,
        None => {
            return None;
        },
    };
    utf8_text(bytes)
}

/// The view of an optional string.
pub open spec fn opt_text(o: Option<String>) -> Option<Seq<char>> {
    match o {
        Some(s) => Some(s@),
        None => None,
    }
}

} // verus!
