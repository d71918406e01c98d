//! The cryptographic primitives of the pairing exchanges, each a call into
//! its RustCrypto / dalek crate. What the calls compute is named here, not
//! written out: the contracts say which inputs each result is a function
//! of, how long it is, and when a call can fail.

use vstd::prelude::*;

use base64ct::{Base64, Base64Unpadded, Encoding};
use aes_gcm::aead::AeadInPlace;
use chacha20poly1305::aead::{Aead, KeyInit, Payload};
use chacha20poly1305::ChaCha20Poly1305;
use ctr::cipher::{KeyIvInit, StreamCipher};
use ed25519_dalek::{Signer, Verifier};
use rand_core::RngCore;
use sha2::Digest;

verus! {

/// The X25519 base point (the `u`-coordinate 9).
pub const X25519_BASE_POINT: [u8; 32] = [
    9, 0, 0, 0, 0, 0, 0, 0, 0, 0, 0, 0, 0, 0, 0, 0, 0, 0, 0, 0, 0, 0, 0, 0, 0, 0, 0, 0, 0, 0, 0, 0,
];

/// X25519 of scalar `k` (clamped) and point `u`, as `x25519_dalek::x25519`
/// computes it.
pub uninterp spec fn x25519_result(k: Seq<u8>, u: Seq<u8>) -> Seq<u8>;

/// The 32-byte output of HKDF-SHA-512 with the given key material, salt and
/// info.
pub uninterp spec fn hkdf_sha512_32_okm(ikm: Seq<u8>, salt: Seq<u8>, info: Seq<u8>) -> Seq<u8>;

/// The SHA-512 digest of `data`.
pub uninterp spec fn sha512_digest(data: Seq<u8>) -> Seq<u8>;

/// The SHA-1 digest of `data`.
pub uninterp spec fn sha1_digest(data: Seq<u8>) -> Seq<u8>;

/// ChaCha20-Poly1305 encryption of `plaintext` (no associated data): the
/// ciphertext followed by the 16-byte tag.
pub uninterp spec fn chacha20poly1305_sealed(key: Seq<u8>, nonce: Seq<u8>, plaintext: Seq<u8>) -> Seq<u8>;

/// ChaCha20-Poly1305 decryption of `ciphertext` (no associated data), or
/// `None` when the tag does not authenticate it.
pub uninterp spec fn chacha20poly1305_opened(key: Seq<u8>, nonce: Seq<u8>, ciphertext: Seq<u8>) -> Option<Seq<u8>>;

/// The Ed25519 public key of the secret key (seed) `seed`.
pub uninterp spec fn ed25519_public_key(seed: Seq<u8>) -> Seq<u8>;

/// The Ed25519 signature of `message` by the secret key (seed) `seed`.
pub uninterp spec fn ed25519_signature(seed: Seq<u8>, message: Seq<u8>) -> Seq<u8>;

/// Whether the 32 bytes decode to an Ed25519 public key.
pub uninterp spec fn ed25519_key_valid(public_key: Seq<u8>) -> bool;

/// Whether `signature` is a valid signature of `message` under `public_key`
/// in `ed25519_dalek`'s (non-strict) `verify`.
pub uninterp spec fn ed25519_signature_valid(public_key: Seq<u8>, message: Seq<u8>, signature: Seq<u8>) -> bool;

/// `data` XORed with the AES-128-CTR (128-bit big-endian counter) key
/// stream of `key` and `iv`, taken from the start of the stream.
pub uninterp spec fn aes128_ctr_applied(key: Seq<u8>, iv: Seq<u8>, data: Seq<u8>) -> Seq<u8>;

/// AES-128-GCM with a 16-byte nonce and no associated data: the
/// ciphertext and the 16-byte tag.
pub uninterp spec fn aes128_gcm16_encrypted(key: Seq<u8>, nonce: Seq<u8>, plaintext: Seq<u8>) -> (Seq<u8>, Seq<u8>);

/// AES-128-GCM decryption with a 16-byte nonce and no associated data, or
/// `None` when the tag does not authenticate the ciphertext.
pub uninterp spec fn aes128_gcm16_decrypted(key: Seq<u8>, nonce: Seq<u8>, ciphertext: Seq<u8>, tag: Seq<u8>) -> Option<Seq<u8>>;

/// The bytes of padded standard Base64 text, or `None` if it is not such
/// text.
pub uninterp spec fn base64_padded_decoded(text: Seq<char>) -> Option<Seq<u8>>;

/// The bytes of unpadded standard Base64 text, or `None` if it is not such
/// text.
pub uninterp spec fn base64_unpadded_decoded(text: Seq<char>) -> Option<Seq<u8>>;

/// `rand_core::OsRng::fill_bytes` into `len` bytes from the operating
/// system's generator. Nothing is promised about their value.
#[verifier::external_body]
pub(crate) fn random_bytes(len: usize) -> (r: Vec<u8>)
    ensures
        r@.len() == len,
{
    let mut bytes = vec![0u8; len];
    rand_core::OsRng.fill_bytes(&mut bytes);
    bytes
}

/// 32 random bytes.
pub(crate) fn random_bytes_32() -> (r: [u8; 32]) {
    let bytes = random_bytes(32);
    let mut out = [0u8; 32];
    let mut i: usize = 0;
    while i < 32
        invariant
            i <= 32,
            bytes@.len() == 32,
            out@.len() == 32,
        decreases 32 - i,
    {
        out[i] = bytes[i];
        i = i + 1;
    }
    out
}

/// `x25519_dalek::x25519`: X25519 of the scalar `k` and the point `u`.
#[verifier::external_body]
pub(crate) fn x25519(k: &[u8; 32], u: &[u8; 32]) -> (r: [u8; 32])
    ensures
        r@ == x25519_result(k@, u@),
{
    x25519_dalek::x25519(*k, *u)
}

/// `hkdf::Hkdf::<Sha512>::new(Some(salt), ikm).expand(info, ..)` into 32
/// bytes; the expansion only fails for outputs longer than 255 × 64 bytes,
/// so it succeeds here.
#[verifier::external_body]
pub(crate) fn hkdf_sha512_32(ikm: &[u8], salt: &[u8], info: &[u8]) -> (r: [u8; 32])
    ensures
        r@ == hkdf_sha512_32_okm(ikm@, salt@, info@),
{
    let hk = hkdf::Hkdf::<sha2::Sha512>::new(Some(salt), ikm);
    let mut okm = [0u8; 32];
    let _ = hk.expand(info, &mut okm);
    okm
}

/// `sha2::Sha512::digest`: the 64-byte SHA-512 digest.
#[verifier::external_body]
pub(crate) fn sha512(data: &[u8]) -> (r: Vec<u8>)
    ensures
        r@ == sha512_digest(data@),
        r@.len() == 64,
{
    sha2::Sha512::digest(data).to_vec()
}

/// `sha1::Sha1::digest`: the 20-byte SHA-1 digest.
#[verifier::external_body]
pub(crate) fn sha1(data: &[u8]) -> (r: Vec<u8>)
    ensures
        r@ == sha1_digest(data@),
        r@.len() == 20,
{
    sha1::Sha1::digest(data).to_vec()
}

/// `ChaCha20Poly1305::encrypt` without associated data. The cipher refuses
/// inputs of `u32::MAX` 64-byte blocks or more and accepts all others.
#[verifier::external_body]
pub(crate) fn chacha20poly1305_encrypt(key: &[u8; 32], nonce: &[u8; 12], plaintext: &[u8]) -> (r: Option<Vec<u8>>)
    ensures
        r is Some <==> plaintext@.len() / 64 < 0xffff_ffff,
        r matches Some(c) ==> c@ == chacha20poly1305_sealed(key@, nonce@, plaintext@),
{
    let cipher = ChaCha20Poly1305::new(chacha20poly1305::Key::from_slice(key));
    cipher.encrypt(chacha20poly1305::Nonce::from_slice(nonce), Payload { msg: plaintext, aad: &[] }).ok()
}

/// `ChaCha20Poly1305::decrypt` without associated data.
#[verifier::external_body]
pub(crate) fn chacha20poly1305_decrypt(key: &[u8; 32], nonce: &[u8; 12], ciphertext: &[u8]) -> (r: Option<Vec<u8>>)
    ensures
        match chacha20poly1305_opened(key@, nonce@, ciphertext@) {
            Some(p) => r matches Some(v) && v@ == p,
            None => r is None,
        },
{
    let cipher = ChaCha20Poly1305::new(chacha20poly1305::Key::from_slice(key));
    cipher.decrypt(chacha20poly1305::Nonce::from_slice(nonce), Payload { msg: ciphertext, aad: &[] }).ok()
}

/// `SigningKey::from_bytes(seed).verifying_key().to_bytes()`.
#[verifier::external_body]
pub(crate) fn ed25519_public_from_seed(seed: &[u8; 32]) -> (r: [u8; 32])
    ensures
        r@ == ed25519_public_key(seed@),
{
    ed25519_dalek::SigningKey::from_bytes(seed).verifying_key().to_bytes()
}

/// `SigningKey::from_bytes(seed).sign(message).to_bytes()`.
#[verifier::external_body]
pub(crate) fn ed25519_sign(seed: &[u8; 32], message: &[u8]) -> (r: [u8; 64])
    ensures
        r@ == ed25519_signature(seed@, message@),
{
    ed25519_dalek::SigningKey::from_bytes(seed).sign(message).to_bytes()
}

/// Whether `VerifyingKey::from_bytes` accepts the key.
#[verifier::external_body]
pub(crate) fn ed25519_key_is_valid(public_key: &[u8; 32]) -> (r: bool)
    ensures
        r == ed25519_key_valid(public_key@),
{
    ed25519_dalek::VerifyingKey::from_bytes(public_key).is_ok()
}

/// `VerifyingKey::from_bytes(public_key)?.verify(message, signature)`, for
/// a key that `from_bytes` accepts.
#[verifier::external_body]
pub(crate) fn ed25519_verify(public_key: &[u8; 32], message: &[u8], signature: &[u8; 64]) -> (r: bool)
    requires
        ed25519_key_valid(public_key@),
    ensures
        r == ed25519_signature_valid(public_key@, message@, signature@),
{
    match ed25519_dalek::VerifyingKey::from_bytes(public_key) {
        Ok(key) => key.verify(message, &ed25519_dalek::Signature::from_bytes(signature)).is_ok(),
        Err(_) => false,
    }
}

/// `Ctr128BE::<Aes128>::new(key, iv).apply_keystream(data)`.
#[verifier::external_body]
pub(crate) fn aes128_ctr_apply(key: &[u8; 16], iv: &[u8; 16], data: &[u8]) -> (r: Vec<u8>)
    ensures
        r@ == aes128_ctr_applied(key@, iv@, data@),
        r@.len() == data@.len(),
{
    let mut cipher = ctr::Ctr128BE::<aes::Aes128>::new(key.into(), iv.into());
    let mut buffer = data.to_vec();
    cipher.apply_keystream(&mut buffer);
    buffer
}

/// `AesGcm::<Aes128, U16>::encrypt_in_place_detached` of 32 bytes, with
/// the ciphertext and the tag; inputs of this size are always accepted.
#[verifier::external_body]
pub(crate) fn aes128_gcm16_encrypt_32(key: &[u8; 16], nonce: &[u8; 16], plaintext: &[u8; 32]) -> (r: ([u8; 32], [u8; 16]))
    ensures
        (r.0@, r.1@) == aes128_gcm16_encrypted(key@, nonce@, plaintext@),
{
    let cipher = aes_gcm::AesGcm::<aes::Aes128, aes::cipher::consts::U16>::new(key.into());
    let mut buffer = *plaintext;
    let tag = cipher
        .encrypt_in_place_detached(aes_gcm::Nonce::<aes::cipher::consts::U16>::from_slice(nonce), b"", &mut buffer)
        .unwrap_or_default();
    (buffer, tag.into())
}

/// `AesGcm::<Aes128, U16>::decrypt_in_place_detached`.
#[verifier::external_body]
pub(crate) fn aes128_gcm16_decrypt(key: &[u8; 16], nonce: &[u8; 16], ciphertext: &[u8], tag: &[u8; 16]) -> (r: Option<Vec<u8>>)
    ensures
        match aes128_gcm16_decrypted(key@, nonce@, ciphertext@, tag@) {
            Some(p) => r matches Some(v) && v@ == p,
            None => r is None,
        },
{
    let cipher = aes_gcm::AesGcm::<aes::Aes128, aes::cipher::consts::U16>::new(key.into());
    let mut buffer = ciphertext.to_vec();
    match cipher.decrypt_in_place_detached(
        aes_gcm::Nonce::<aes::cipher::consts::U16>::from_slice(nonce),
        b"",
        &mut buffer,
        aes_gcm::Tag::<aes::cipher::consts::U16>::from_slice(tag),
    ) {
        Ok(()) => Some(buffer),
        Err(_) => None,
    }
}

/// `base64ct::Base64::decode_vec`: padded standard Base64.
#[verifier::external_body]
pub(crate) fn base64_padded_decode(text: &str) -> (r: Option<Vec<u8>>)
    ensures
        match base64_padded_decoded(text@) {
            Some(b) => r matches Some(v) && v@ == b,
            None => r is None,
        },
{
    Base64::decode_vec(text).ok()
}

/// `base64ct::Base64Unpadded::decode_vec`: unpadded standard Base64.
#[verifier::external_body]
pub(crate) fn base64_unpadded_decode(text: &str) -> (r: Option<Vec<u8>>)
    ensures
        match base64_unpadded_decoded(text@) {
            Some(b) => r matches Some(v) && v@ == b,
            None => r is None,
        },
{
    Base64Unpadded::decode_vec(text).ok()
}

} // verus!
