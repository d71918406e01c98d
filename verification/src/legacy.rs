//! First-time PIN pairing with an AirPlay 2 receiver: `/pair-pin-start`,
//! the three `/pair-setup-pin` exchanges (SRP, proofs, long-term keys) and
//! a legacy pair-verify, ending in the credentials to store.
//!
//! The SRP-6a client of the 2048-bit group with SHA-1 is the `srp` crate's;
//! its results are named, and the client proof is computed here from them.

use vstd::prelude::*;
use vstd::utf8::encode_utf8;

use crate::bytes::{bytes_eq, push_all};
use crate::crypto::{
    aes128_ctr_applied, ed25519_signature, ed25519_signature_valid, aes128_gcm16_decrypt, aes128_gcm16_decrypted, aes128_gcm16_encrypt_32, aes128_gcm16_encrypted,
    ed25519_key_valid, ed25519_public_from_seed, ed25519_public_key, random_bytes, random_bytes_32, sha1, sha1_digest, x25519,
    x25519_result, X25519_BASE_POINT,
};
use crate::error::{authentication_failed, protocol_error, AirPlayError};
use crate::model::{ReceiverAuthFlow, ReceiverCredentials, SpeakerDevice};
use crate::pair_verify::{
    build_legacy_pair_verify_finish_body, derive_legacy_pair_verify_key_iv, hex_encode, hex_encoded,
    LEGACY_PAIR_VERIFY_AES_IV, LEGACY_PAIR_VERIFY_AES_KEY, decoded_keys, lemma_hex_roundtrip, mdns_public_key,
    labelled_sha512_16, verify_legacy_pair_verify_signature,
};
use crate::pairing::{
    be_increment, build_legacy_pair_verify_start_body, decode_fixed_32, increment_big_endian_counter,
    map_legacy_pair_verify_start_response, receiver_pairing_id_from_device,
};
use crate::plist_body::{
    binary_plist_of_data, binary_plist_of_strings, encode_plist_data, encode_plist_strings, plist_data_field,
    plist_data_of,
};
use crate::rtsp::{is_empty_body_request, is_post, RtspMethod, RtspRequest, RtspResponse};
use crate::session::{
    map_pair_pin_start_response, map_pairing_http_failure, next_cseq, pairing_failure_kind, ModernAirPlaySession,
    PreparedTransportSession,
};
use crate::text::{str_chars, string_from_range, trim, trim_range};

verus! {

pub const LEGACY_PAIR_SETUP_AES_KEY: &'static str = "Pair-Setup-AES-Key";
pub const LEGACY_PAIR_SETUP_AES_IV: &'static str = "Pair-Setup-AES-IV";

/// The 2048-bit prime modulus of the SRP group of RFC 5054, big-endian
/// (the bytes of `srp`'s `groups/2048.bin`).
pub open spec fn srp_2048_modulus() -> Seq<u8> {
    seq![
        0xac, 0x6b, 0xdb, 0x41, 0x32, 0x4a, 0x9a, 0x9b, 0xf1, 0x66, 0xde, 0x5e, 0x13, 0x89, 0x58, 0x2f,
        0xaf, 0x72, 0xb6, 0x65, 0x19, 0x87, 0xee, 0x07, 0xfc, 0x31, 0x92, 0x94, 0x3d, 0xb5, 0x60, 0x50,
        0xa3, 0x73, 0x29, 0xcb, 0xb4, 0xa0, 0x99, 0xed, 0x81, 0x93, 0xe0, 0x75, 0x77, 0x67, 0xa1, 0x3d,
        0xd5, 0x23, 0x12, 0xab, 0x4b, 0x03, 0x31, 0x0d, 0xcd, 0x7f, 0x48, 0xa9, 0xda, 0x04, 0xfd, 0x50,
        0xe8, 0x08, 0x39, 0x69, 0xed, 0xb7, 0x67, 0xb0, 0xcf, 0x60, 0x95, 0x17, 0x9a, 0x16, 0x3a, 0xb3,
        0x66, 0x1a, 0x05, 0xfb, 0xd5, 0xfa, 0xaa, 0xe8, 0x29, 0x18, 0xa9, 0x96, 0x2f, 0x0b, 0x93, 0xb8,
        0x55, 0xf9, 0x79, 0x93, 0xec, 0x97, 0x5e, 0xea, 0xa8, 0x0d, 0x74, 0x0a, 0xdb, 0xf4, 0xff, 0x74,
        0x73, 0x59, 0xd0, 0x41, 0xd5, 0xc3, 0x3e, 0xa7, 0x1d, 0x28, 0x1e, 0x44, 0x6b, 0x14, 0x77, 0x3b,
        0xca, 0x97, 0xb4, 0x3a, 0x23, 0xfb, 0x80, 0x16, 0x76, 0xbd, 0x20, 0x7a, 0x43, 0x6c, 0x64, 0x81,
        0xf1, 0xd2, 0xb9, 0x07, 0x87, 0x17, 0x46, 0x1a, 0x5b, 0x9d, 0x32, 0xe6, 0x88, 0xf8, 0x77, 0x48,
        0x54, 0x45, 0x23, 0xb5, 0x24, 0xb0, 0xd5, 0x7d, 0x5e, 0xa7, 0x7a, 0x27, 0x75, 0xd2, 0xec, 0xfa,
        0x03, 0x2c, 0xfb, 0xdb, 0xf5, 0x2f, 0xb3, 0x78, 0x61, 0x60, 0x27, 0x90, 0x04, 0xe5, 0x7a, 0xe6,
        0xaf, 0x87, 0x4e, 0x73, 0x03, 0xce, 0x53, 0x29, 0x9c, 0xcc, 0x04, 0x1c, 0x7b, 0xc3, 0x08, 0xd8,
        0x2a, 0x56, 0x98, 0xf3, 0xa8, 0xd0, 0xc3, 0x82, 0x71, 0xae, 0x35, 0xf8, 0xe9, 0xdb, 0xfb, 0xb6,
        0x94, 0xb5, 0xc8, 0x03, 0xd8, 0x9f, 0x7a, 0xe4, 0x35, 0xde, 0x23, 0x6d, 0x52, 0x5f, 0x54, 0x75,
        0x9b, 0x65, 0xe3, 0x72, 0xfc, 0xd6, 0x8e, 0xf2, 0x0f, 0xa7, 0x11, 0x1f, 0x9e, 0x4a, 0xff, 0x73,
    ]
}

/// The number whose big-endian bytes are `s`.
pub open spec fn be_value(s: Seq<u8>) -> nat
    decreases s.len(),
{
    if s.len() == 0 {
        0
    } else {
        be_value(s.drop_last()) * 256 + s.last() as nat
    }
}

/// Whether the SRP client refuses the receiver's public value `b_pub`: it
/// does exactly when the value is 0 modulo the group's prime.
pub open spec fn srp_refuses(b_pub: Seq<u8>) -> bool {
    be_value(b_pub) % be_value(srp_2048_modulus()) == 0
}

/// The modulus and generator of the 2048-bit SRP group, big-endian:
/// `srp::groups::G_2048.n.to_bytes_be()` and `G_2048.g.to_bytes_be()`.
/// The modulus is read from `groups/2048.bin`, whose top byte is not zero,
/// so its big-endian bytes are that file's 256 bytes; the generator is 2.
#[verifier::external_body]
fn srp_2048_group() -> (r: (Vec<u8>, Vec<u8>))
    ensures
        r.0@ == srp_2048_modulus(),
        r.0@.len() == 256,
        r.1@ == seq![2u8],
{
    (srp::groups::G_2048.n.to_bytes_be(), srp::groups::G_2048.g.to_bytes_be())
}

/// The public value g^a mod N of the SRP-6a client of the 2048-bit group
/// for the secret `a`, big-endian.
pub uninterp spec fn srp_client_public_value(a: Seq<u8>) -> Seq<u8>;

/// The premaster secret the SRP-6a client of the 2048-bit group with
/// SHA-1 derives from its secret `a`, the user, the password, the salt and
/// the receiver's public value, or `None` when it refuses that value.
pub uninterp spec fn srp_client_premaster(
    a: Seq<u8>,
    user: Seq<u8>,
    password: Seq<u8>,
    salt: Seq<u8>,
    b_pub: Seq<u8>,
) -> Option<Seq<u8>>;

/// `SrpClient::<Sha1>::new(&G_2048).compute_public_ephemeral(a)`: g^a
/// mod N in its shortest big-endian bytes, a number below the 2048-bit N
/// and so at most 256 bytes long.
#[verifier::external_body]
fn srp_public_ephemeral(a: &[u8]) -> (r: Vec<u8>)
    ensures
        r@ == srp_client_public_value(a@),
        r@.len() <= 256,
{
    srp::client::SrpClient::<sha1::Sha1>::new(&srp::groups::G_2048).compute_public_ephemeral(a)
}

/// `SrpClient::<Sha1>::new(&G_2048).process_reply(a, user, password, salt,
/// b_pub)` and the verifier's `key()`: the premaster secret, or `None`
/// when the call refuses the receiver's value, which it does exactly when
/// that value is 0 modulo N, whatever the other arguments.
#[verifier::external_body]
fn srp_premaster(a: &[u8], user: &[u8], password: &[u8], salt: &[u8], b_pub: &[u8]) -> (r: Option<Vec<u8>>)
    ensures
        match srp_client_premaster(a@, user@, password@, salt@, b_pub@) {
            Some(k) => r matches Some(v) && v@ == k,
            None => r is None,
        },
        r is None <==> srp_refuses(b_pub@),
{
    match srp::client::SrpClient::<sha1::Sha1>::new(&srp::groups::G_2048).process_reply(a, user, password, salt, b_pub) {
        Ok(verifier) => Some(verifier.key().to_vec()),
        Err(_) => None,
    }
}

/// `value` left-padded with zero bytes to 256 bytes.
pub open spec fn padded_256(value: Seq<u8>) -> Seq<u8> {
    Seq::new((256 - value.len()) as nat, |i: int| 0u8) + value
}

/// `public_key` left-padded with zero bytes to the length of the group
/// modulus; a longer key is an authentication failure.
pub fn left_pad_legacy_srp_public(public_key: &[u8]) -> (r: Result<Vec<u8>, AirPlayError>)
    ensures
        public_key@.len() > 256 ==> r matches Err(AirPlayError::AuthenticationFailed { .. }),
        public_key@.len() <= 256 ==> (r matches Ok(p) && p@ == padded_256(public_key@)),
{
    let (modulus, _) = srp_2048_group();
    let modulus_len = modulus.len();
    if public_key.len() > modulus_len {
        return Err(authentication_failed("pair-setup-pin SRP 公钥长度超出 2048-bit 组范围"));
    }
    let mut padded: Vec<u8> = Vec::new();
    let offset = modulus_len - public_key.len();
    let mut i: usize = 0;
    while i < offset
        invariant
            i <= offset,
            padded@ == Seq::new(i as nat, |j: int| 0u8),
        decreases offset - i,
    {
        padded.push(0);
        i = i + 1;
        assert(padded@ =~= Seq::new(i as nat, |j: int| 0u8));
    }
    push_all(&mut padded, public_key);
    Ok(padded)
}

/// The bytes of `a` and `b` XORed pairwise, as long as the shorter.
pub open spec fn xor_bytes(a: Seq<u8>, b: Seq<u8>) -> Seq<u8> {
    Seq::new(if a.len() <= b.len() { a.len() } else { b.len() }, |i: int| a[i] ^ b[i])
}

/// The SRP client proof over group `(n, g)` with SHA-1:
/// M1 = H(H(N) xor H(g) | H(user) | salt | A | B | K).
pub open spec fn srp_client_proof(
    n: Seq<u8>,
    g: Seq<u8>,
    user: Seq<u8>,
    salt: Seq<u8>,
    a_pub: Seq<u8>,
    b_pub: Seq<u8>,
    key: Seq<u8>,
) -> Seq<u8> {
    sha1_digest(xor_bytes(sha1_digest(n), sha1_digest(g)) + sha1_digest(user) + salt + a_pub + b_pub + key)
}

/// The client proof M1 of the 2048-bit group for `user`, over the salt,
/// both padded public values and the session key.
pub fn build_legacy_pair_setup_client_proof(
    user: &str,
    salt: &[u8],
    controller_public: &[u8],
    receiver_public: &[u8],
    session_key: &[u8],
) -> (r: Vec<u8>)
    ensures
        r@ == srp_client_proof(
            srp_2048_modulus(),
            seq![2u8],
            encode_utf8(user@),
            salt@,
            controller_public@,
            receiver_public@,
            session_key@,
        ),
{
    let (modulus, generator) = srp_2048_group();
    let hash_n = sha1(modulus.as_slice());
    let hash_g = sha1(generator.as_slice());
    let mut input: Vec<u8> = Vec::new();
    let mut i: usize = 0;
    while i < 20
        invariant
            i <= 20,
            hash_n@.len() == 20,
            hash_g@.len() == 20,
            input@ == xor_bytes(hash_n@, hash_g@).take(i as int),
        decreases 20 - i,
    {
        input.push(hash_n[i] ^ hash_g[i]);
        assert(input@ =~= xor_bytes(hash_n@, hash_g@).take(i + 1 as int));
        i = i + 1;
    }
    assert(input@ =~= xor_bytes(hash_n@, hash_g@));
    let hash_user = sha1(user.as_bytes());
    push_all(&mut input, hash_user.as_slice());
    push_all(&mut input, salt);
    push_all(&mut input, controller_public);
    push_all(&mut input, receiver_public);
    push_all(&mut input, session_key);
    let proof = sha1(input.as_slice());
    assert(input@ =~= xor_bytes(sha1_digest(modulus@), sha1_digest(generator@)) + sha1_digest(encode_utf8(user@))
        + salt@ + controller_public@ + receiver_public@ + session_key@);
    assert(proof@ == srp_client_proof(
        modulus@,
        seq![2u8],
        encode_utf8(user@),
        salt@,
        controller_public@,
        receiver_public@,
        session_key@,
    ));
    proof
}

/// The pairing session key from the SRP premaster secret:
/// SHA-1(S ‖ 00000000) ‖ SHA-1(S ‖ 00000001).
pub open spec fn legacy_session_key(secret: Seq<u8>) -> Seq<u8> {
    sha1_digest(secret + seq![0u8, 0u8, 0u8, 0u8]) + sha1_digest(secret + seq![0u8, 0u8, 0u8, 1u8])
}

/// The pairing session key from the SRP premaster secret.
pub fn derive_legacy_pair_setup_session_key(shared_secret: &[u8]) -> (r: Vec<u8>)
    ensures
        r@ == legacy_session_key(shared_secret@),
{
    let mut first_input: Vec<u8> = Vec::new();
    push_all(&mut first_input, shared_secret);
    push_all(&mut first_input, [0u8, 0, 0, 0].as_slice());
    let first = sha1(first_input.as_slice());
    let mut second_input: Vec<u8> = Vec::new();
    push_all(&mut second_input, shared_secret);
    push_all(&mut second_input, [0u8, 0, 0, 1].as_slice());
    let second = sha1(second_input.as_slice());
    assert(first_input@ =~= shared_secret@ + seq![0u8, 0u8, 0u8, 0u8]);
    assert(second_input@ =~= shared_secret@ + seq![0u8, 0u8, 0u8, 1u8]);
    let mut session_key: Vec<u8> = Vec::new();
    push_all(&mut session_key, first.as_slice());
    push_all(&mut session_key, second.as_slice());
    assert(session_key@ =~= first@ + second@);
    session_key
}

/// The first 16 bytes of SHA-512 over `label` followed by `secret`.
fn labelled_key_16(label: &str, secret: &[u8]) -> (r: [u8; 16])
    ensures
        r@ == labelled_sha512_16(label@, secret@),
{
    let mut input: Vec<u8> = Vec::new();
    push_all(&mut input, label.as_bytes());
    push_all(&mut input, secret);
    let digest = crate::crypto::sha512(input.as_slice());
    let mut out = [0u8; 16];
    let mut i: usize = 0;
    while i < 16
        invariant
            i <= 16,
            digest@.len() == 64,
            out@.len() == 16,
            forall|j: int| 0 <= j < i ==> out@[j] == digest@[j],
        decreases 16 - i,
    {
        out[i] = digest[i];
        i = i + 1;
    }
    assert(out@ =~= digest@.take(16));
    out
}

/// The AES-GCM key of the pair-setup key exchange and its first nonce: the
/// derived counter block advanced by one.
pub fn derive_legacy_pair_setup_key_iv(session_key: &[u8]) -> (r: ([u8; 16], [u8; 16]))
    ensures
        r.0@ == labelled_sha512_16(LEGACY_PAIR_SETUP_AES_KEY@, session_key@),
        r.1@ == be_increment(labelled_sha512_16(LEGACY_PAIR_SETUP_AES_IV@, session_key@)),
{
    let key = labelled_key_16(LEGACY_PAIR_SETUP_AES_KEY, session_key);
    let mut iv = labelled_key_16(LEGACY_PAIR_SETUP_AES_IV, session_key);
    increment_big_endian_counter(&mut iv);
    (key, iv)
}

/// The receiver's SRP proof is SHA-1 over the controller's public value,
/// the controller's proof and the session key; a different proof is an
/// authentication failure.
pub fn verify_legacy_pair_setup_server_proof(
    controller_public: &[u8],
    client_proof: &[u8],
    session_key: &[u8],
    server_proof: &[u8],
) -> (r: Result<(), AirPlayError>)
    ensures
        r is Ok <==> server_proof@ == sha1_digest(controller_public@ + client_proof@ + session_key@),
        r is Err ==> r matches Err(AirPlayError::AuthenticationFailed { .. }),
{
    let mut input: Vec<u8> = Vec::new();
    push_all(&mut input, controller_public);
    push_all(&mut input, client_proof);
    push_all(&mut input, session_key);
    let expected = sha1(input.as_slice());
    if bytes_eq(expected.as_slice(), server_proof) {
        return Ok(());
    }
    Err(authentication_failed("pair-setup-pin 服务器校验失败，请检查 PIN 是否正确"))
}

/// The controller's long-term public key, encrypted for the receiver.
#[derive(Debug, Clone, PartialEq, Eq)]
pub struct LegacyEncryptedPublicKey {
    pub ciphertext: Vec<u8>,
    pub tag: [u8; 16],
}

/// The key and first nonce of the pair-setup key exchange.
pub open spec fn pair_setup_key(session_key: Seq<u8>) -> Seq<u8> {
    labelled_sha512_16(LEGACY_PAIR_SETUP_AES_KEY@, session_key)
}

/// The nonce of the controller's message in the pair-setup key exchange;
/// the receiver's reply uses the next one.
pub open spec fn pair_setup_nonce(session_key: Seq<u8>) -> Seq<u8> {
    be_increment(labelled_sha512_16(LEGACY_PAIR_SETUP_AES_IV@, session_key))
}

/// Encrypts the controller's long-term public key with the pair-setup
/// key and nonce.
pub fn encrypt_legacy_pair_setup_public_key(session_key: &[u8], controller_public_key: &[u8; 32]) -> (r: Result<
    LegacyEncryptedPublicKey,
    AirPlayError,
>)
    ensures
        r matches Ok(e) && (e.ciphertext@, e.tag@) == aes128_gcm16_encrypted(
            pair_setup_key(session_key@),
            pair_setup_nonce(session_key@),
            controller_public_key@,
        ),
{
    let (key, iv) = derive_legacy_pair_setup_key_iv(session_key);
    let (ciphertext, tag) = aes128_gcm16_encrypt_32(&key, &iv, controller_public_key);
    let mut bytes: Vec<u8> = Vec::new();
    push_all(&mut bytes, ciphertext.as_slice());
    assert(bytes@ =~= ciphertext@);
    Ok(LegacyEncryptedPublicKey { ciphertext: bytes, tag })
}

/// Decrypts the receiver's long-term public key with the pair-setup key
/// and the nonce after the one used to encrypt; a ciphertext that does not
/// authenticate is an authentication failure, a key of another length a
/// protocol error.
pub fn decrypt_legacy_pair_setup_public_key(session_key: &[u8], encrypted_public_key: &[u8], auth_tag: &[u8; 16]) -> (r:
    Result<[u8; 32], AirPlayError>)
    ensures
        match aes128_gcm16_decrypted(
            pair_setup_key(session_key@),
            be_increment(pair_setup_nonce(session_key@)),
            encrypted_public_key@,
            auth_tag@,
        ) {
            Some(p) => if p.len() == 32 {
                r matches Ok(k) && k@ == p
            } else {
                r matches Err(AirPlayError::Protocol { .. })
            },
            None => r matches Err(AirPlayError::AuthenticationFailed { .. }),
        },
{
    let (key, first) = derive_legacy_pair_setup_key_iv(session_key);
    let mut iv = first;
    increment_big_endian_counter(&mut iv);
    let plaintext = match aes128_gcm16_decrypt(&key, &iv, encrypted_public_key, auth_tag) {
        Some(p) => p,
        None => {
            return Err(authentication_failed("解密 legacy pair-setup 接收端公钥失败"));
        },
    };
    let k = decode_fixed_32(plaintext.as_slice(), "legacy pair-setup 接收端公钥")?;
    Ok(k)
}

/// The first pair-setup-pin message: `{ method: "pin", user: <id> }`.
pub fn build_pair_setup_pin_start_body(controller_pairing_id: &str) -> (r: Result<Vec<u8>, AirPlayError>)
    ensures
        r matches Ok(b) && b@ == binary_plist_of_strings("method"@, "pin"@, "user"@, controller_pairing_id@),
{
    match encode_plist_strings("method", "pin", "user", controller_pairing_id) {
        Some(b) => Ok(b),
        None => Err(protocol_error("编码 binary plist 失败")),
    }
}

/// The second pair-setup-pin message: `{ pk: A, proof: M1 }`.
pub fn build_pair_setup_pin_verify_body(controller_public: &[u8], proof: &[u8]) -> (r: Result<Vec<u8>, AirPlayError>)
    ensures
        r matches Ok(b) && b@ == binary_plist_of_data("pk"@, controller_public@, "proof"@, proof@),
{
    match encode_plist_data("pk", controller_public, "proof", proof) {
        Some(b) => Ok(b),
        None => Err(protocol_error("编码 binary plist 失败")),
    }
}

/// The third pair-setup-pin message: `{ epk: .., authTag: .. }`.
pub fn build_pair_setup_pin_exchange_body(encrypted_public_key: &[u8], auth_tag: &[u8]) -> (r: Result<Vec<u8>, AirPlayError>)
    ensures
        r matches Ok(b) && b@ == binary_plist_of_data("epk"@, encrypted_public_key@, "authTag"@, auth_tag@),
{
    match encode_plist_data("epk", encrypted_public_key, "authTag", auth_tag) {
        Some(b) => Ok(b),
        None => Err(protocol_error("编码 binary plist 失败")),
    }
}

/// Whether `r` is the error a failed pair-setup-pin reply gives, or the
/// reply's `field` could not be read.
pub open spec fn setup_pin_field(response: RtspResponse, field: Seq<char>) -> Option<Seq<u8>> {
    if 200 <= response.status.code < 300 {
        plist_data_of(response.body@, field)
    } else {
        None
    }
}

/// The receiver's salt and SRP public value from the first pair-setup-pin
/// reply.
pub fn map_pair_setup_pin_start_response(response: &RtspResponse) -> (r: Result<(Vec<u8>, Vec<u8>), AirPlayError>)
    ensures
        !(200 <= response.status.code < 300) ==> (r matches Err(e) && pairing_failure_kind(response.status.code, e)),
        r matches Ok((salt, pk)) ==> setup_pin_field(*response, "salt"@) == Some(salt@) && setup_pin_field(
            *response,
            "pk"@,
        ) == Some(pk@),
        (setup_pin_field(*response, "salt"@) is Some && setup_pin_field(*response, "pk"@) is Some) ==> r is Ok,
{
    if !response.is_success() {
        return Err(map_pairing_http_failure(response, "/pair-setup-pin"));
    }
    let salt = plist_data_field(response.body.as_slice(), "salt", "/pair-setup-pin")?;
    let public_key = plist_data_field(response.body.as_slice(), "pk", "/pair-setup-pin")?;
    Ok((salt, public_key))
}

/// The receiver's SRP proof from the second pair-setup-pin reply.
pub fn map_pair_setup_pin_verify_response(response: &RtspResponse) -> (r: Result<Vec<u8>, AirPlayError>)
    ensures
        !(200 <= response.status.code < 300) ==> (r matches Err(e) && pairing_failure_kind(response.status.code, e)),
        match setup_pin_field(*response, "proof"@) {
            Some(p) => r matches Ok(v) && v@ == p,
            None => r is Err,
        },
{
    if !response.is_success() {
        return Err(map_pairing_http_failure(response, "/pair-setup-pin"));
    }
    plist_data_field(response.body.as_slice(), "proof", "/pair-setup-pin")
}

/// The receiver's long-term public key from the third pair-setup-pin
/// reply, decrypted with `session_key`: `None` when a field is missing,
/// the tag is not 16 bytes long, the ciphertext does not authenticate or
/// the key is not 32 bytes long.
pub open spec fn exchanged_receiver_key(response: RtspResponse, session_key: Seq<u8>) -> Option<Seq<u8>> {
    match (setup_pin_field(response, "epk"@), setup_pin_field(response, "authTag"@)) {
        (Some(e), Some(t)) => if t.len() == 16 {
            match aes128_gcm16_decrypted(
                pair_setup_key(session_key),
                be_increment(pair_setup_nonce(session_key)),
                e,
                t,
            ) {
                Some(p) => if p.len() == 32 {
                    Some(p)
                } else {
                    None
                },
                None => None,
            }
        } else {
            None
        },
        _ => None,
    }
}

/// The receiver's long-term public key from the third pair-setup-pin
/// reply. An authentication tag of another length than 16 bytes is a
/// protocol error.
pub fn map_pair_setup_pin_exchange_response(response: &RtspResponse, session_key: &[u8]) -> (r: Result<[u8; 32], AirPlayError>)
    ensures
        !(200 <= response.status.code < 300) ==> (r matches Err(e) && pairing_failure_kind(response.status.code, e)),
        match exchanged_receiver_key(*response, session_key@) {
            Some(k) => r matches Ok(a) && a@ == k,
            None => r is Err,
        },
        200 <= response.status.code < 300 && setup_pin_field(*response, "epk"@) is Some && setup_pin_field(
            *response,
            "authTag"@,
        ) is Some && aes128_gcm16_decrypted(
            pair_setup_key(session_key@),
            be_increment(pair_setup_nonce(session_key@)),
            setup_pin_field(*response, "epk"@)->0,
            setup_pin_field(*response, "authTag"@)->0,
        ) is None && setup_pin_field(*response, "authTag"@)->0.len() == 16 ==> r matches Err(
            AirPlayError::AuthenticationFailed { .. },
        ),
{
    if !response.is_success() {
        return Err(map_pairing_http_failure(response, "/pair-setup-pin"));
    }
    let encrypted_public_key = plist_data_field(response.body.as_slice(), "epk", "/pair-setup-pin")?;
    let auth_tag = plist_data_field(response.body.as_slice(), "authTag", "/pair-setup-pin")?;
    if auth_tag.len() != 16 {
        return Err(protocol_error("/pair-setup-pin 字段 authTag 长度必须为 16 字节"));
    }
    let mut tag = [0u8; 16];
    let mut i: usize = 0;
    while i < 16
        invariant
            i <= 16,
            auth_tag@.len() == 16,
            tag@.len() == 16,
            forall|j: int| 0 <= j < i ==> tag@[j] == auth_tag@[j],
        decreases 16 - i,
    {
        tag[i] = auth_tag[i];
        i = i + 1;
    }
    assert(tag@ =~= auth_tag@);
    decrypt_legacy_pair_setup_public_key(session_key, encrypted_public_key.as_slice(), &tag)
}

// ---------------------------------------------------------------------------
// The pairing exchange

/// The reply or value a PIN pairing waits for, with what the next step
/// needs.
#[derive(Debug, Clone, PartialEq, Eq)]
pub enum LegacyPairingStep {
    AwaitInfo,
    AwaitPinStart,
    AwaitSetupPinStart,
    AwaitSetupPinVerify { controller_public: Vec<u8>, client_proof: Vec<u8>, session_key: Vec<u8> },
    AwaitSetupPinExchange { session_key: Vec<u8>, controller_seed: [u8; 32] },
    AwaitPairVerifyStart {
        controller_seed: [u8; 32],
        receiver_public_key: [u8; 32],
        receiver_pairing_id: String,
        secret: [u8; 32],
        public: [u8; 32],
    },
    AwaitPairVerifyFinish { controller_seed: [u8; 32], receiver_public_key: [u8; 32], receiver_pairing_id: String },
    Done,
}

/// What the caller of a PIN pairing does next.
#[derive(Debug, Clone, PartialEq, Eq)]
pub enum LegacyPairingAction {
    /// Send the request and hand the reply back.
    Send(RtspRequest),
    /// The receiver is paired: store these credentials.
    Paired(ReceiverCredentials),
}

/// A PIN pairing in progress.
#[derive(Debug, Clone, PartialEq, Eq)]
pub struct LegacyPairing {
    pub session: ModernAirPlaySession,
    pub user: String,
    pub pin: String,
    pub step: LegacyPairingStep,
}

/// The request an answer asks to send, if it asks for one.
pub open spec fn pairing_request(r: Result<LegacyPairingAction, AirPlayError>) -> Option<RtspRequest> {
    match r {
        Ok(LegacyPairingAction::Send(req)) => Some(req),
        _ => None,
    }
}

/// The credentials a finished pairing stores: the controller's key pair
/// and the receiver's key, in lower-case hex.
pub open spec fn paired_credentials(
    user: Seq<char>,
    controller_seed: Seq<u8>,
    receiver_pairing_id: Seq<char>,
    receiver_public_key: Seq<u8>,
    c: ReceiverCredentials,
) -> bool {
    &&& c.auth_flow == ReceiverAuthFlow::LegacyPin
    &&& c.controller_pairing_id@ == user
    &&& c.controller_ltpk_hex@ == hex_encoded(ed25519_public_key(controller_seed))
    &&& c.controller_ltsk_hex@ == hex_encoded(controller_seed)
    &&& c.receiver_pairing_id@ == receiver_pairing_id
    &&& c.receiver_ltpk_hex@ == hex_encoded(receiver_public_key)
}

/// The key and counter block of the legacy pair-verify, from the
/// receiver's curve key in its first reply and the controller's secret.
pub open spec fn legacy_verify_key(response: RtspResponse, secret: Seq<u8>) -> Seq<u8> {
    labelled_sha512_16(
        LEGACY_PAIR_VERIFY_AES_KEY@,
        x25519_result(secret, response.body@.subrange(0, 32)),
    )
}

/// See `legacy_verify_key`.
pub open spec fn legacy_verify_iv(response: RtspResponse, secret: Seq<u8>) -> Seq<u8> {
    labelled_sha512_16(
        LEGACY_PAIR_VERIFY_AES_IV@,
        x25519_result(secret, response.body@.subrange(0, 32)),
    )
}

/// Whether the first legacy pair-verify reply is accepted: a success
/// carrying the receiver's curve key and its encrypted signature, which
/// the receiver's long-term key verifies over both curve keys.
pub open spec fn legacy_verify_start_accepted(
    response: RtspResponse,
    receiver_public_key: Seq<u8>,
    secret: Seq<u8>,
    public: Seq<u8>,
) -> bool {
    &&& 200 <= response.status.code < 300
    &&& response.body@.len() == 96
    &&& ed25519_key_valid(receiver_public_key)
    &&& ed25519_signature_valid(
        receiver_public_key,
        response.body@.subrange(0, 32) + public,
        aes128_ctr_applied(
            legacy_verify_key(response, secret),
            legacy_verify_iv(response, secret),
            response.body@.subrange(32, 96),
        ),
    )
}

/// The second legacy pair-verify message: the controller's signature over
/// both curve keys, encrypted after the receiver's challenge.
pub open spec fn legacy_verify_finish_body(
    response: RtspResponse,
    controller_seed: Seq<u8>,
    secret: Seq<u8>,
    public: Seq<u8>,
) -> Seq<u8> {
    seq![0u8, 0u8, 0u8, 0u8] + aes128_ctr_applied(
        legacy_verify_key(response, secret),
        legacy_verify_iv(response, secret),
        response.body@.subrange(32, 96) + ed25519_signature(controller_seed, public + response.body@.subrange(0, 32)),
    ).subrange(64, 128)
}

/// A pairing just started on `session` with `pin`: it sends `GET /info`
/// with the next CSeq and keeps the trimmed PIN and the controller's id.
pub open spec fn pairing_started(
    session: ModernAirPlaySession,
    pin: Seq<char>,
    p: LegacyPairing,
    action: LegacyPairingAction,
) -> bool {
    &&& p.step == LegacyPairingStep::AwaitInfo
    &&& p.pin@ == trim(pin)
    &&& p.user@ == session.descriptor.client_device_id@
    &&& p.session.descriptor == session.descriptor
    &&& p.session.cseq == next_cseq(session.cseq)
    &&& action matches LegacyPairingAction::Send(req) && is_empty_body_request(
        req,
        session.descriptor,
        p.session.cseq,
        RtspMethod::Get,
        "/info"@,
    )
}

/// What a finished PIN pairing stores is read back by the next handshake
/// with that receiver: the controller's seed and the receiver's long-term
/// key, provided the receiver's key is a valid Ed25519 key and the device
/// still names the same pairing id and key.
pub proof fn lemma_paired_credentials_read_back(
    user: Seq<char>,
    seed: Seq<u8>,
    receiver_pairing_id: Seq<char>,
    receiver_public_key: Seq<u8>,
    credentials: ReceiverCredentials,
    device: SpeakerDevice,
)
    requires
        paired_credentials(user, seed, receiver_pairing_id, receiver_public_key, credentials),
        seed.len() == 32,
        ed25519_public_key(seed).len() == 32,
        receiver_public_key.len() == 32,
        ed25519_key_valid(receiver_public_key),
        device.pairing_id matches Some(p) ==> p@ == receiver_pairing_id,
        device.receiver_public_key matches Some(k) ==> mdns_public_key(k@) == Some(receiver_public_key),
    ensures
        decoded_keys(credentials, device) == Some((seed, receiver_public_key)),
{
    lemma_hex_roundtrip(seed);
    lemma_hex_roundtrip(ed25519_public_key(seed));
    lemma_hex_roundtrip(receiver_public_key);
}

/// Whether a fresh SRP exchange with secret `a` over the 2048-bit group
/// gives the controller's padded public value, the client proof and the
/// session key.
pub open spec fn srp_exchange(
    a: Seq<u8>,
    user: Seq<u8>,
    pin: Seq<u8>,
    salt: Seq<u8>,
    receiver_public: Seq<u8>,
    controller_public: Seq<u8>,
    client_proof: Seq<u8>,
    session_key: Seq<u8>,
) -> bool {
    &&& a.len() == 48
    &&& srp_client_public_value(a).len() <= 256
    &&& receiver_public.len() <= 256
    &&& controller_public == padded_256(srp_client_public_value(a))
    &&& srp_client_premaster(a, user, pin, salt, receiver_public) matches Some(s) && session_key == legacy_session_key(
        s,
    )
    &&& client_proof == srp_client_proof(
        srp_2048_modulus(),
        seq![2u8],
        user,
        salt,
        controller_public,
        padded_256(receiver_public),
        session_key,
    )
}

/// The SRP step: for some fresh secret, the controller's public value and
/// proof go to the receiver in the second pair-setup-pin message, and the
/// pairing waits for the receiver's proof.
pub open spec fn srp_proof_sent(
    before: LegacyPairing,
    after: LegacyPairing,
    salt: Seq<u8>,
    receiver_public: Seq<u8>,
    r: Result<LegacyPairingAction, AirPlayError>,
) -> bool {
    &&& after.step matches LegacyPairingStep::AwaitSetupPinVerify { controller_public, client_proof, session_key }
    &&& exists|a: Seq<u8>| #[trigger]
        srp_exchange(
            a,
            encode_utf8(before.user@),
            encode_utf8(before.pin@),
            salt,
            receiver_public,
            after.step->AwaitSetupPinVerify_controller_public@,
            after.step->AwaitSetupPinVerify_client_proof@,
            after.step->AwaitSetupPinVerify_session_key@,
        )
    &&& pairing_request(r) is Some
    &&& is_post(
        pairing_request(r)->0,
        before.session.descriptor,
        after.session.cseq,
        "/pair-setup-pin"@,
        "application/x-apple-binary-plist"@,
        binary_plist_of_data(
            "pk"@,
            after.step->AwaitSetupPinVerify_controller_public@,
            "proof"@,
            after.step->AwaitSetupPinVerify_client_proof@,
        ),
    )
}

impl LegacyPairing {
    /// Starts pairing `session` with `pin` (surrounding white space is
    /// ignored) by sending `GET /info`; an empty PIN is refused on its reply.
    pub fn start(session: ModernAirPlaySession, pin: &str) -> (r: (Self, LegacyPairingAction))
        ensures
            pairing_started(session, pin@, r.0, r.1),
    {
        let chars = str_chars(pin);
        let (lo, hi) = trim_range(&chars, 0, chars.len());
        assert(chars@.subrange(0, chars@.len() as int) =~= pin@);
        let trimmed = string_from_range(&chars, lo, hi);
        let user = session.descriptor.client_device_id();
        let mut session = session;
        let request = session.info_request();
        (LegacyPairing { session, user, pin: trimmed, step: LegacyPairingStep::AwaitInfo }, LegacyPairingAction::Send(request))
    }

    /// Takes in the reply to the last request and says what comes next. Any
    /// failure ends the pairing with its error and changes nothing.
    pub fn on_response(&mut self, response: &RtspResponse) -> (r: Result<LegacyPairingAction, AirPlayError>)
        ensures
            final(self).session.descriptor == old(self).session.descriptor,
            final(self).user == old(self).user,
            final(self).pin == old(self).pin,
            r is Err ==> *final(self) == *old(self),
            pairing_request(r) is Some ==> final(self).session.cseq == next_cseq(old(self).session.cseq),
            // The `/info` reply is not read: an empty PIN is refused now,
            // otherwise PIN pairing is asked for next.
            old(self).step == LegacyPairingStep::AwaitInfo && old(self).pin@.len() == 0 ==> r matches Err(
                AirPlayError::AuthenticationFailed { .. },
            ),
            old(self).step == LegacyPairingStep::AwaitInfo && old(self).pin@.len() > 0 ==> final(self).step
                == LegacyPairingStep::AwaitPinStart && pairing_request(r) is Some && is_empty_body_request(
                pairing_request(r)->0,
                old(self).session.descriptor,
                final(self).session.cseq,
                RtspMethod::Post,
                "/pair-pin-start"@,
            ),
            old(self).step == LegacyPairingStep::AwaitPinStart ==> if 200 <= response.status.code < 300 {
                &&& final(self).step == LegacyPairingStep::AwaitSetupPinStart
                &&& pairing_request(r) is Some
                &&& is_post(
                    pairing_request(r)->0,
                    old(self).session.descriptor,
                    final(self).session.cseq,
                    "/pair-setup-pin"@,
                    "application/x-apple-binary-plist"@,
                    binary_plist_of_strings("method"@, "pin"@, "user"@, old(self).user@),
                )
            } else {
                r matches Err(e) && pairing_failure_kind(response.status.code, e)
            },
            old(self).step == LegacyPairingStep::AwaitSetupPinStart ==> match (
                setup_pin_field(*response, "salt"@),
                setup_pin_field(*response, "pk"@),
            ) {
                (Some(salt), Some(pk)) => {
                    &&& r is Ok ==> srp_proof_sent(*old(self), *final(self), salt, pk, r)
                    &&& r is Err ==> (r matches Err(AirPlayError::AuthenticationFailed { .. }))
                    &&& r is Ok <==> (pk.len() <= 256 && !srp_refuses(pk))
                },
                _ => r is Err,
            },
            old(self).step matches LegacyPairingStep::AwaitSetupPinVerify { controller_public, client_proof, session_key }
                ==> {
                &&& r is Ok <==> setup_pin_field(*response, "proof"@) == Some(
                    sha1_digest(controller_public@ + client_proof@ + session_key@),
                )
                &&& r is Ok ==> {
                    &&& final(self).step is AwaitSetupPinExchange
                    &&& final(self).step->AwaitSetupPinExchange_session_key@ == session_key@
                    &&& pairing_request(r) is Some
                    &&& is_post(
                        pairing_request(r)->0,
                        old(self).session.descriptor,
                        final(self).session.cseq,
                        "/pair-setup-pin"@,
                        "application/x-apple-binary-plist"@,
                        binary_plist_of_data(
                            "epk"@,
                            aes128_gcm16_encrypted(
                                pair_setup_key(session_key@),
                                pair_setup_nonce(session_key@),
                                ed25519_public_key(final(self).step->AwaitSetupPinExchange_controller_seed@),
                            ).0,
                            "authTag"@,
                            aes128_gcm16_encrypted(
                                pair_setup_key(session_key@),
                                pair_setup_nonce(session_key@),
                                ed25519_public_key(final(self).step->AwaitSetupPinExchange_controller_seed@),
                            ).1,
                        ),
                    )
                }
            },
            old(self).step matches LegacyPairingStep::AwaitSetupPinExchange { session_key, controller_seed } ==> {
                &&& r is Ok <==> exchanged_receiver_key(*response, session_key@) is Some
                    && old(self).session.descriptor.device.pairing_id is Some
                &&& r is Ok ==> {
                    &&& final(self).step matches LegacyPairingStep::AwaitPairVerifyStart {
                        controller_seed: seed,
                        receiver_public_key,
                        receiver_pairing_id,
                        secret,
                        public,
                    }
                    &&& final(self).step->AwaitPairVerifyStart_controller_seed == controller_seed
                    &&& Some(final(self).step->AwaitPairVerifyStart_receiver_public_key@) == exchanged_receiver_key(
                        *response,
                        session_key@,
                    )
                    &&& Some(final(self).step->AwaitPairVerifyStart_receiver_pairing_id)
                        == old(self).session.descriptor.device.pairing_id
                    &&& final(self).step->AwaitPairVerifyStart_public@ == x25519_result(
                        final(self).step->AwaitPairVerifyStart_secret@,
                        X25519_BASE_POINT@,
                    )
                    &&& pairing_request(r) is Some
                    &&& is_post(
                        pairing_request(r)->0,
                        old(self).session.descriptor,
                        final(self).session.cseq,
                        "/pair-verify"@,
                        "application/octet-stream"@,
                        seq![1u8, 0u8, 0u8, 0u8] + final(self).step->AwaitPairVerifyStart_public@
                            + ed25519_public_key(controller_seed@),
                    )
                }
            },
            old(self).step matches LegacyPairingStep::AwaitPairVerifyStart {
                controller_seed,
                receiver_public_key,
                receiver_pairing_id,
                secret,
                public,
            } ==> {
                &&& r is Ok <==> legacy_verify_start_accepted(*response, receiver_public_key@, secret@, public@)
                &&& r is Ok ==> {
                    &&& final(self).step == (LegacyPairingStep::AwaitPairVerifyFinish {
                        controller_seed,
                        receiver_public_key,
                        receiver_pairing_id: final(self).step->AwaitPairVerifyFinish_receiver_pairing_id,
                    })
                    &&& final(self).step->AwaitPairVerifyFinish_receiver_pairing_id@ == receiver_pairing_id@
                    &&& pairing_request(r) is Some
                    &&& is_post(
                        pairing_request(r)->0,
                        old(self).session.descriptor,
                        final(self).session.cseq,
                        "/pair-verify"@,
                        "application/octet-stream"@,
                        legacy_verify_finish_body(*response, controller_seed@, secret@, public@),
                    )
                }
            },
            old(self).step matches LegacyPairingStep::AwaitPairVerifyFinish {
                controller_seed,
                receiver_public_key,
                receiver_pairing_id,
            } ==> if 200 <= response.status.code < 300 {
                &&& final(self).step == LegacyPairingStep::Done
                &&& r matches Ok(LegacyPairingAction::Paired(c))
                &&& paired_credentials(old(self).user@, controller_seed@, receiver_pairing_id@, receiver_public_key@, r->Ok_0->Paired_0)
            } else {
                r matches Err(e) && pairing_failure_kind(response.status.code, e)
            },
            (old(self).step is AwaitSetupPinStart || old(self).step is AwaitSetupPinVerify
                || old(self).step is AwaitSetupPinExchange || old(self).step is AwaitPairVerifyStart) && !(200
                <= response.status.code < 300) ==> (r matches Err(e) && pairing_failure_kind(response.status.code, e)),
            old(self).step is Done ==> r
                == Err::<LegacyPairingAction, AirPlayError>(AirPlayError::NotReady),
    {
        match &self.step {
            LegacyPairingStep::AwaitInfo => {
                if self.pin.as_str().is_empty() {
                    return Err(authentication_failed("配对 PIN 不能为空"));
                }
                let request = self.session.pair_pin_start_request();
                self.step = LegacyPairingStep::AwaitPinStart;
                Ok(LegacyPairingAction::Send(request))
            },
            LegacyPairingStep::AwaitPinStart => {
                map_pair_pin_start_response(response)?;
                let body = build_pair_setup_pin_start_body(self.user.as_str())?;
                let request = self.session.pair_setup_pin_request(body.as_slice());
                self.step = LegacyPairingStep::AwaitSetupPinStart;
                Ok(LegacyPairingAction::Send(request))
            },
            LegacyPairingStep::AwaitSetupPinStart => {
                let (salt, receiver_public) = map_pair_setup_pin_start_response(response)?;
                let secret = random_bytes(48);
                let controller_public = srp_public_ephemeral(secret.as_slice());
                let padded_controller_public = left_pad_legacy_srp_public(controller_public.as_slice())?;
                let premaster_secret = match srp_premaster(
                    secret.as_slice(),
                    self.user.as_str().as_bytes(),
                    self.pin.as_str().as_bytes(),
                    salt.as_slice(),
                    receiver_public.as_slice(),
                ) {
                    Some(k) => k,
                    None => {
                        return Err(
                            authentication_failed("pair-setup-pin SRP 参数无效，或输入的 PIN 不正确"),
                        );
                    },
                };
                let session_key = derive_legacy_pair_setup_session_key(premaster_secret.as_slice());
                let padded_receiver_public = left_pad_legacy_srp_public(receiver_public.as_slice())?;
                let client_proof = build_legacy_pair_setup_client_proof(
                    self.user.as_str(),
                    salt.as_slice(),
                    padded_controller_public.as_slice(),
                    padded_receiver_public.as_slice(),
                    session_key.as_slice(),
                );
                let body = build_pair_setup_pin_verify_body(padded_controller_public.as_slice(), client_proof.as_slice())?;
                let request = self.session.pair_setup_pin_request(body.as_slice());
                self.step = LegacyPairingStep::AwaitSetupPinVerify {
                    controller_public: padded_controller_public,
                    client_proof,
                    session_key,
                };
                let action = LegacyPairingAction::Send(request);
                assert(srp_exchange(
                    secret@,
                    encode_utf8(old(self).user@),
                    encode_utf8(old(self).pin@),
                    salt@,
                    receiver_public@,
                    self.step->AwaitSetupPinVerify_controller_public@,
                    self.step->AwaitSetupPinVerify_client_proof@,
                    self.step->AwaitSetupPinVerify_session_key@,
                ));
                assert(srp_proof_sent(
                    *old(self),
                    *self,
                    salt@,
                    receiver_public@,
                    Ok::<LegacyPairingAction, AirPlayError>(action),
                ));
                Ok(action)
            },
            LegacyPairingStep::AwaitSetupPinVerify { controller_public, client_proof, session_key } => {
                let server_proof = map_pair_setup_pin_verify_response(response)?;
                verify_legacy_pair_setup_server_proof(
                    controller_public.as_slice(),
                    client_proof.as_slice(),
                    session_key.as_slice(),
                    server_proof.as_slice(),
                )?;
                let session_key = session_key.clone();
                let controller_seed = random_bytes_32();
                let controller_public_key = ed25519_public_from_seed(&controller_seed);
                let encrypted = encrypt_legacy_pair_setup_public_key(session_key.as_slice(), &controller_public_key)?;
                let body = build_pair_setup_pin_exchange_body(encrypted.ciphertext.as_slice(), encrypted.tag.as_slice())?;
                let request = self.session.pair_setup_pin_request(body.as_slice());
                self.step = LegacyPairingStep::AwaitSetupPinExchange { session_key, controller_seed };
                Ok(LegacyPairingAction::Send(request))
            },
            LegacyPairingStep::AwaitSetupPinExchange { session_key, controller_seed } => {
                let controller_seed = *controller_seed;
                let receiver_public_key = map_pair_setup_pin_exchange_response(response, session_key.as_slice())?;
                let receiver_pairing_id = receiver_pairing_id_from_device(&self.session.descriptor.device)?;
                let secret = random_bytes_32();
                let public = x25519(&secret, &X25519_BASE_POINT);
                let signing_public = ed25519_public_from_seed(&controller_seed);
                let body = build_legacy_pair_verify_start_body(&public, &signing_public);
                let request = self.session.pair_verify_request(body.as_slice());
                self.step = LegacyPairingStep::AwaitPairVerifyStart {
                    controller_seed,
                    receiver_public_key,
                    receiver_pairing_id,
                    secret,
                    public,
                };
                Ok(LegacyPairingAction::Send(request))
            },
            LegacyPairingStep::AwaitPairVerifyStart {
                controller_seed,
                receiver_public_key,
                receiver_pairing_id,
                secret,
                public,
            } => {
                let controller_seed = *controller_seed;
                let receiver_public_key = *receiver_public_key;
                let receiver_pairing_id = receiver_pairing_id.clone();
                let secret = *secret;
                let public = *public;
                let reply = map_legacy_pair_verify_start_response(response)?;
                let shared = x25519(&secret, &reply.public_key);
                let (verify_key, verify_iv) = derive_legacy_pair_verify_key_iv(shared.as_slice());
                verify_legacy_pair_verify_signature(
                    &reply.public_key,
                    &public,
                    &reply.challenge,
                    &receiver_public_key,
                    &verify_key,
                    &verify_iv,
                )?;
                let finish = build_legacy_pair_verify_finish_body(
                    &public,
                    &reply.public_key,
                    &reply.challenge,
                    &controller_seed,
                    &verify_key,
                    &verify_iv,
                );
                let request = self.session.pair_verify_request(finish.as_slice());
                self.step = LegacyPairingStep::AwaitPairVerifyFinish {
                    controller_seed,
                    receiver_public_key,
                    receiver_pairing_id,
                };
                Ok(LegacyPairingAction::Send(request))
            },
            LegacyPairingStep::AwaitPairVerifyFinish { controller_seed, receiver_public_key, receiver_pairing_id } => {
                if !response.is_success() {
                    return Err(map_pairing_http_failure(response, "/pair-verify"));
                }
                let controller_public_key = ed25519_public_from_seed(controller_seed);
                let credentials = ReceiverCredentials {
                    auth_flow: ReceiverAuthFlow::LegacyPin,
                    controller_pairing_id: self.user.clone(),
                    controller_ltpk_hex: hex_encode(controller_public_key.as_slice()),
                    controller_ltsk_hex: hex_encode(controller_seed.as_slice()),
                    receiver_pairing_id: receiver_pairing_id.clone(),
                    receiver_ltpk_hex: hex_encode(receiver_public_key.as_slice()),
                };
                self.step = LegacyPairingStep::Done;
                Ok(LegacyPairingAction::Paired(credentials))
            },
            _ => Err(AirPlayError::NotReady),
        }
    }
}

impl ModernAirPlaySession {
    /// Starts pairing this receiver with `pin`: see `LegacyPairing::start`.
    pub fn pair_with_pin(self, pin: &str) -> (r: Result<(LegacyPairing, LegacyPairingAction), AirPlayError>)
        ensures
            r matches Ok((p, action)) && pairing_started(self, pin@, p, action),
    {
        Ok(LegacyPairing::start(self, pin))
    }
}

impl PreparedTransportSession {
    /// Starts pairing with `pin`; a classic RAOP receiver has no PIN
    /// pairing and asks for authentication instead.
    pub fn pair_with_pin(self, pin: &str) -> (r: Result<(LegacyPairing, LegacyPairingAction), AirPlayError>)
        ensures
            self is ClassicRaop ==> r == Err::<(LegacyPairing, LegacyPairingAction), AirPlayError>(
                AirPlayError::AuthenticationRequired,
            ),
            self is ModernAirPlay ==> (r matches Ok((p, action)) && pairing_started(
                self->ModernAirPlay_0,
                pin@,
                p,
                action,
            )),
    {
        match self {
            PreparedTransportSession::ClassicRaop(_) => Err(AirPlayError::AuthenticationRequired),
            PreparedTransportSession::ModernAirPlay(session) => session.pair_with_pin(pin),
        }
    }
}

} // verus!
