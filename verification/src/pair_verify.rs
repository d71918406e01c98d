//! Pair-verify with stored credentials: reading the stored keys, the
//! receiver's proof of identity and the controller's answer, for the
//! HomeKit-style flow and for the legacy PIN flow.

use vstd::prelude::*;
use vstd::utf8::{encode_utf8, encode_utf8_decode_utf8};

use crate::bytes::{bytes_eq, push_all};
use crate::crypto::{
    aes128_ctr_applied, aes128_ctr_apply, base64_padded_decode, base64_padded_decoded, base64_unpadded_decode,
    base64_unpadded_decoded, chacha20poly1305_decrypt, chacha20poly1305_encrypt, chacha20poly1305_opened,
    chacha20poly1305_sealed, ed25519_key_is_valid, ed25519_key_valid, ed25519_public_from_seed, ed25519_public_key,
    ed25519_sign, ed25519_signature, ed25519_signature_valid, ed25519_verify, sha512, sha512_digest,
};
use crate::error::{authentication_failed, invalid_session, protocol_error, AirPlayError};
use crate::model::{ReceiverAuthFlow, ReceiverCredentials, SpeakerDevice};
use crate::pairing::{decode_signature_bytes, build_prefixed_nonce, PairVerifyStartReply, PAIR_VERIFY_FINISH_REQUEST_STATE};
use crate::rtsp::utf8_text;
use crate::text::{push_str, str_chars, str_eq};
use crate::tlv::{
    encode_tlv, parse_tlv, tlv_find, PairingTlv, PAIRING_TLV_ENCRYPTED_DATA, PAIRING_TLV_IDENTIFIER,
    PAIRING_TLV_SIGNATURE, PAIRING_TLV_STATE,
};

verus! {

pub const PAIR_VERIFY_ENCRYPT_SALT: &'static str = "Pair-Verify-Encrypt-Salt";
pub const PAIR_VERIFY_ENCRYPT_INFO: &'static str = "Pair-Verify-Encrypt-Info";
pub const PAIR_VERIFY_M2_NONCE: &'static str = "PV-Msg02";
pub const PAIR_VERIFY_M3_NONCE: &'static str = "PV-Msg03";
pub const LEGACY_PAIR_VERIFY_AES_KEY: &'static str = "Pair-Verify-AES-Key";
pub const LEGACY_PAIR_VERIFY_AES_IV: &'static str = "Pair-Verify-AES-IV";

// ---------------------------------------------------------------------------
// Hexadecimal text

/// The value of a hexadecimal digit of either case.
pub open spec fn hex_value(c: char) -> Option<u8> {
    if '0' <= c && c <= '9' {
        Some((c as u32 - 48) as u8)
    } else if 'a' <= c && c <= 'f' {
        Some((c as u32 - 87) as u8)
    } else if 'A' <= c && c <= 'F' {
        Some((c as u32 - 55) as u8)
    } else {
        None
    }
}

/// The bytes of hexadecimal text, two digits per byte; odd length or a
/// non-digit gives `None`.
pub open spec fn hex_decoded(s: Seq<char>) -> Option<Seq<u8>>
    decreases s.len(),
{
    if s.len() == 0 {
        Some(Seq::empty())
    } else if s.len() == 1 {
        None
    } else {
        match (hex_value(s[0]), hex_value(s[1]), hex_decoded(s.skip(2))) {
            (Some(h), Some(l), Some(rest)) => Some(seq![(h * 16 + l) as u8] + rest),
            _ => None,
        }
    }
}

/// The lower-case hexadecimal digit of `d`, for `d < 16`.
pub open spec fn lower_hex_digit(d: u8) -> char {
    if d < 10 {
        (d + 48) as char
    } else {
        (d + 87) as char
    }
}

/// Lower-case hexadecimal text of `b`, two digits per byte.
pub open spec fn hex_encoded(b: Seq<u8>) -> Seq<char>
    decreases b.len(),
{
    if b.len() == 0 {
        Seq::empty()
    } else {
        hex_encoded(b.drop_last()) + seq![lower_hex_digit(b.last() / 16), lower_hex_digit(b.last() % 16)]
    }
}

proof fn lemma_hex_encoded_len(b: Seq<u8>)
    ensures
        hex_encoded(b).len() == 2 * b.len(),
    decreases b.len(),
{
    if b.len() > 0 {
        lemma_hex_encoded_len(b.drop_last());
    }
}

proof fn lemma_hex_encoded_front(b: Seq<u8>)
    requires
        b.len() > 0,
    ensures
        hex_encoded(b) == seq![lower_hex_digit(b[0] / 16), lower_hex_digit(b[0] % 16)] + hex_encoded(b.skip(1)),
    decreases b.len(),
{
    if b.len() > 1 {
        lemma_hex_encoded_front(b.drop_last());
        assert(b.drop_last().skip(1) =~= b.skip(1).drop_last());
        assert(b.drop_last()[0] == b[0]);
        assert(b.skip(1).last() == b.last());
        assert(hex_encoded(b) =~= seq![lower_hex_digit(b[0] / 16), lower_hex_digit(b[0] % 16)] + hex_encoded(
            b.skip(1),
        ));
    } else {
        assert(b.drop_last() =~= Seq::<u8>::empty());
        assert(b.skip(1) =~= Seq::<u8>::empty());
        assert(hex_encoded(b) =~= seq![lower_hex_digit(b[0] / 16), lower_hex_digit(b[0] % 16)] + hex_encoded(
            b.skip(1),
        ));
    }
}

/// Decoding the lower-case hexadecimal text of some bytes gives those
/// bytes back.
pub proof fn lemma_hex_roundtrip(b: Seq<u8>)
    ensures
        hex_decoded(hex_encoded(b)) == Some(b),
    decreases b.len(),
{
    if b.len() > 0 {
        lemma_hex_encoded_front(b);
        lemma_hex_roundtrip(b.skip(1));
        lemma_hex_encoded_len(b);
        let s = hex_encoded(b);
        let h = b[0] / 16;
        let l = b[0] % 16;
        assert(s[0] == lower_hex_digit(h));
        assert(s[1] == lower_hex_digit(l));
        assert(s.skip(2) =~= hex_encoded(b.skip(1)));
        assert(hex_value(lower_hex_digit(h)) == Some(h));
        assert(hex_value(lower_hex_digit(l)) == Some(l));
        assert((h * 16 + l) as u8 == b[0]);
        assert(seq![b[0]] + b.skip(1) =~= b);
    } else {
        assert(hex_encoded(b) =~= Seq::<char>::empty());
        assert(b =~= Seq::<u8>::empty());
    }
}

fn hex_value_of(c: char) -> (r: Option<u8>)
    ensures
        r == hex_value(c),
{
    if '0' <= c && c <= '9' {
        Some(((c as u32) - 48) as u8)
    } else if 'a' <= c && c <= 'f' {
        Some(((c as u32) - 87) as u8)
    } else if 'A' <= c && c <= 'F' {
        Some(((c as u32) - 55) as u8)
    } else {
        None
    }
}

/// The bytes of hexadecimal text, as `hex::decode` reads it.
pub fn hex_decode(s: &str) -> (r: Option<Vec<u8>>)
    ensures
        match hex_decoded(s@) {
            Some(b) => r matches Some(v) && v@ == b,
            None => r is None,
        },
{
    let v = str_chars(s);
    let mut out: Vec<u8> = Vec::new();
    let mut i: usize = 0;
    assert(v@.skip(0) =~= v@);
    while i < v.len()
        invariant
            v@ == s@,
            i <= v@.len(),
            hex_decoded(s@) == match hex_decoded(v@.skip(i as int)) {
                Some(rest) => Some(out@ + rest),
                None => None::<Seq<u8>>,
            },
        decreases v@.len() - i,
    {
        let ghost rest = v@.skip(i as int);
        if v.len() - i < 2 {
            return None;
        }
        let h = hex_value_of(v[i]);
        let l = hex_value_of(v[i + 1]);
        assert(rest.skip(2) =~= v@.skip(i + 2));
        match (h, l) {
            (Some(h), Some(l)) => {
                let ghost before = out@;
                out.push(h * 16 + l);
                proof {
                    match hex_decoded(v@.skip(i + 2)) {
                        Some(tail) => {
                            assert(before + (seq![(h * 16 + l) as u8] + tail) =~= out@ + tail);
                        },
                        None => {},
                    }
                }
            },
            _ => {
                return None;
            },
        }
        i = i + 2;
    }
    assert(out@ + Seq::<u8>::empty() =~= out@);
    Some(out)
}

fn lower_hex_digit_of(d: u8) -> (c: char)
    requires
        d < 16,
    ensures
        c == lower_hex_digit(d),
{
    if d < 10 {
        (d + 48) as char
    } else {
        (d + 87) as char
    }
}

/// Lower-case hexadecimal text of `bytes`, as `hex::encode` writes it.
pub fn hex_encode(bytes: &[u8]) -> (r: String)
    ensures
        r@ == hex_encoded(bytes@),
{
    let mut r = String::new();
    let mut i: usize = 0;
    while i < bytes.len()
        invariant
            i <= bytes@.len(),
            r@ == hex_encoded(bytes@.take(i as int)),
        decreases bytes@.len() - i,
    {
        assert(bytes@.take(i + 1).drop_last() =~= bytes@.take(i as int));
        let b = bytes[i];
        r.push(lower_hex_digit_of(b / 16));
        r.push(lower_hex_digit_of(b % 16));
        i = i + 1;
        assert(r@ =~= hex_encoded(bytes@.take(i as int)));
    }
    assert(bytes@.take(bytes@.len() as int) =~= bytes@);
    r
}

/// The bytes of the hexadecimal field `field_name`, or an invalid-session
/// error.
pub fn decode_hex_bytes(value: &str, field_name: &str) -> (r: Result<Vec<u8>, AirPlayError>)
    ensures
        match hex_decoded(value@) {
            Some(b) => r matches Ok(v) && v@ == b,
            None => r matches Err(AirPlayError::InvalidSession { .. }),
        },
{
    match hex_decode(value) {
        Some(v) => Ok(v),
        None => {
            let mut message = String::from_str(field_name);
            push_str(&mut message, " 不是有效的十六进制字符串");
            Err(AirPlayError::InvalidSession { message })
        },
    }
}

/// The 32 bytes of a slice of that length.
fn bytes_32(v: &[u8]) -> (r: [u8; 32])
    requires
        v@.len() == 32,
    ensures
        r@ == v@,
{
    let mut out = [0u8; 32];
    let mut i: usize = 0;
    while i < 32
        invariant
            i <= 32,
            v@.len() == 32,
            out@.len() == 32,
            forall|j: int| 0 <= j < i ==> out@[j] == v@[j],
        decreases 32 - i,
    {
        out[i] = v[i];
        i = i + 1;
    }
    assert(out@ =~= v@);
    out
}

/// The 32 bytes of the hexadecimal field `field_name`, or an
/// invalid-session error when it is not hex or not 32 bytes long.
pub fn decode_hex_fixed_32(value: &str, field_name: &str) -> (r: Result<[u8; 32], AirPlayError>)
    ensures
        match hex_decoded(value@) {
            Some(b) => if b.len() == 32 {
                r matches Ok(a) && a@ == b
            } else {
                r matches Err(AirPlayError::InvalidSession { .. })
            },
            None => r matches Err(AirPlayError::InvalidSession { .. }),
        },
{
    let bytes = decode_hex_bytes(value, field_name)?;
    if bytes.len() != 32 {
        let mut message = String::from_str(field_name);
        push_str(&mut message, " 需要 32 字节十六进制数据");
        return Err(AirPlayError::InvalidSession { message });
    }
    Ok(bytes_32(bytes.as_slice()))
}

// ---------------------------------------------------------------------------
// Stored credentials

/// A receiver's public key as discovery announces it: 32 bytes written as
/// hexadecimal, else as padded or unpadded Base64.
pub open spec fn mdns_public_key(value: Seq<char>) -> Option<Seq<u8>> {
    let of_len_32 = |b: Seq<u8>| if b.len() == 32 { Some(b) } else { None::<Seq<u8>> };
    match hex_decoded(value) {
        Some(b) => of_len_32(b),
        None => match base64_padded_decoded(value) {
            Some(b) => of_len_32(b),
            None => match base64_unpadded_decoded(value) {
                Some(b) => of_len_32(b),
                None => None,
            },
        },
    }
}

/// The 32-byte key a discovery record announces, or an invalid-session
/// error.
pub fn decode_mdns_public_key(value: &str) -> (r: Result<[u8; 32], AirPlayError>)
    ensures
        match mdns_public_key(value@) {
            Some(k) => r matches Ok(a) && a@ == k,
            None => r matches Err(AirPlayError::InvalidSession { .. }),
        },
{
    let (bytes, from_hex) = match hex_decode(value) {
        Some(b) => (b, true),
        None => match base64_padded_decode(value) {
            Some(b) => (b, false),
            None => match base64_unpadded_decode(value) {
                Some(b) => (b, false),
                None => {
                    return Err(invalid_session("mDNS pk 不是有效的十六进制或 Base64 公钥"));
                },
            },
        },
    };
    if bytes.len() != 32 {
        if from_hex {
            return Err(invalid_session("mDNS pk 需要 32 字节十六进制数据"));
        }
        return Err(invalid_session("mDNS pk 需要 32 字节公钥数据"));
    }
    Ok(bytes_32(bytes.as_slice()))
}

/// Stored credentials in the form the handshake uses.
#[derive(Debug, Clone, PartialEq, Eq)]
pub struct DecodedReceiverCredentials {
    pub auth_flow: ReceiverAuthFlow,
    pub controller_pairing_id: String,
    /// The controller's Ed25519 secret key (seed).
    pub controller_secret_key: [u8; 32],
    pub receiver_pairing_id: String,
    /// The receiver's Ed25519 public key, one `ed25519_dalek` accepts.
    pub receiver_public_key: [u8; 32],
}

impl DecodedReceiverCredentials {
    /// A field-by-field copy.
    pub fn duplicate(&self) -> (r: Self)
        ensures
            r == *self,
    {
        DecodedReceiverCredentials {
            auth_flow: self.auth_flow,
            controller_pairing_id: self.controller_pairing_id.clone(),
            controller_secret_key: self.controller_secret_key,
            receiver_pairing_id: self.receiver_pairing_id.clone(),
            receiver_public_key: self.receiver_public_key,
        }
    }
}

/// The controller seed and the receiver key of usable stored credentials:
/// all keys well-formed hex of 32 bytes, the controller's public key the
/// one of its secret key, the receiver key a valid Ed25519 key, and both
/// agreeing with what discovery announces for the device.
pub open spec fn decoded_keys(c: ReceiverCredentials, d: SpeakerDevice) -> Option<(Seq<u8>, Seq<u8>)> {
    match (hex_decoded(c.controller_ltsk_hex@), hex_decoded(c.controller_ltpk_hex@), hex_decoded(c.receiver_ltpk_hex@)) {
        (Some(seed), Some(cpk), Some(rpk)) => if seed.len() == 32 && cpk.len() == 32 && rpk.len() == 32
            && ed25519_public_key(seed) == cpk && ed25519_key_valid(rpk) && (d.pairing_id matches Some(p)
            ==> p@ == c.receiver_pairing_id@) && (d.receiver_public_key matches Some(k) ==> mdns_public_key(k@)
            == Some(rpk)) {
            Some((seed, rpk))
        } else {
            None
        },
        _ => None,
    }
}

/// Reads and checks stored credentials against the device; any problem is
/// an invalid-session error.
pub fn decode_receiver_credentials(
    receiver_credentials: &ReceiverCredentials,
    device: &SpeakerDevice,
) -> (r: Result<DecodedReceiverCredentials, AirPlayError>)
    ensures
        match decoded_keys(*receiver_credentials, *device) {
            Some((seed, rpk)) => r matches Ok(d) && d.controller_secret_key@ == seed && d.receiver_public_key@ == rpk
                && d.auth_flow == receiver_credentials.auth_flow && d.controller_pairing_id
                == receiver_credentials.controller_pairing_id && d.receiver_pairing_id
                == receiver_credentials.receiver_pairing_id,
            None => r matches Err(AirPlayError::InvalidSession { .. }),
        },
{
    let controller_ltsk = decode_hex_bytes(receiver_credentials.controller_ltsk_hex.as_str(), "controller_ltsk_hex")?;
    if controller_ltsk.len() != 32 {
        return Err(invalid_session("controller_ltsk_hex 需要 32 字节 Ed25519 私钥种子"));
    }
    let controller_secret_key = bytes_32(controller_ltsk.as_slice());
    let controller_public_bytes = decode_hex_fixed_32(
        receiver_credentials.controller_ltpk_hex.as_str(),
        "controller_ltpk_hex",
    )?;
    let derived_public = ed25519_public_from_seed(&controller_secret_key);
    if !bytes_eq(derived_public.as_slice(), controller_public_bytes.as_slice()) {
        return Err(invalid_session("controller_ltpk_hex 与 controller_ltsk_hex 不匹配"));
    }
    let receiver_public_bytes = decode_hex_fixed_32(receiver_credentials.receiver_ltpk_hex.as_str(), "receiver_ltpk_hex")?;
    if !ed25519_key_is_valid(&receiver_public_bytes) {
        return Err(invalid_session("receiver_ltpk_hex 不是有效的 Ed25519 公钥"));
    }
    if let Some(device_pairing_id) = &device.pairing_id {
        if !str_eq(device_pairing_id.as_str(), receiver_credentials.receiver_pairing_id.as_str()) {
            return Err(invalid_session("本地接收端 pairing id 与当前 mDNS pi/gid 不一致"));
        }
    }
    if let Some(device_public_key) = &device.receiver_public_key {
        let decoded_device_public_key = decode_mdns_public_key(device_public_key.as_str())?;
        if !bytes_eq(decoded_device_public_key.as_slice(), receiver_public_bytes.as_slice()) {
            return Err(invalid_session("本地接收端公钥与当前 mDNS pk 不一致"));
        }
    }
    Ok(DecodedReceiverCredentials {
        auth_flow: receiver_credentials.auth_flow,
        controller_pairing_id: receiver_credentials.controller_pairing_id.clone(),
        controller_secret_key,
        receiver_pairing_id: receiver_credentials.receiver_pairing_id.clone(),
        receiver_public_key: receiver_public_bytes,
    })
}

// ---------------------------------------------------------------------------
// Encrypted pair-verify payloads

/// The 12-byte nonce ending in `suffix`.
pub open spec fn prefixed_nonce(suffix: Seq<u8>) -> Seq<u8> {
    Seq::new((12 - suffix.len()) as nat, |i: int| 0u8) + suffix
}

/// Encrypts a pair-verify payload under `key_material` with the nonce that
/// ends in `nonce_suffix`.
pub fn encrypt_pair_verify_payload(key_material: &[u8; 32], nonce_suffix: &[u8], plaintext: &[u8]) -> (r: Result<
    Vec<u8>,
    AirPlayError,
>)
    ensures
        nonce_suffix@.len() > 8 ==> r matches Err(AirPlayError::Protocol { .. }),
        nonce_suffix@.len() <= 8 && plaintext@.len() / 64 < 0xffff_ffff ==> (r matches Ok(c) && c@
            == chacha20poly1305_sealed(key_material@, prefixed_nonce(nonce_suffix@), plaintext@)),
        nonce_suffix@.len() <= 8 && plaintext@.len() / 64 >= 0xffff_ffff ==> r matches Err(
            AirPlayError::AuthenticationFailed { .. },
        ),
{
    let nonce = build_prefixed_nonce(nonce_suffix)?;
    match chacha20poly1305_encrypt(key_material, &nonce, plaintext) {
        Some(c) => Ok(c),
        None => Err(authentication_failed("构造 pair-verify 加密载荷失败")),
    }
}

/// Decrypts a pair-verify payload; a payload that does not authenticate
/// is an authentication failure.
pub fn decrypt_pair_verify_payload(key_material: &[u8; 32], nonce_suffix: &[u8], ciphertext: &[u8]) -> (r: Result<
    Vec<u8>,
    AirPlayError,
>)
    ensures
        nonce_suffix@.len() > 8 ==> r matches Err(AirPlayError::Protocol { .. }),
        nonce_suffix@.len() <= 8 ==> match chacha20poly1305_opened(
            key_material@,
            prefixed_nonce(nonce_suffix@),
            ciphertext@,
        ) {
            Some(p) => r matches Ok(v) && v@ == p,
            None => r matches Err(AirPlayError::AuthenticationFailed { .. }),
        },
{
    let nonce = build_prefixed_nonce(nonce_suffix)?;
    match chacha20poly1305_decrypt(key_material, &nonce, ciphertext) {
        Some(p) => Ok(p),
        None => Err(authentication_failed("解密 pair-verify 响应失败，请检查既有配对记录是否仍有效")),
    }
}

/// What the receiver signs in its pair-verify reply: its X25519 key, its
/// pairing id and the controller's X25519 key.
pub open spec fn receiver_signed_message(receiver_public: Seq<u8>, receiver_pairing_id: Seq<char>, controller_public: Seq<u8>) -> Seq<u8> {
    receiver_public + encode_utf8(receiver_pairing_id) + controller_public
}

/// Whether the decrypted reply proves the receiver's identity: its
/// identifier is the stored pairing id and its signature verifies under
/// the stored receiver key.
pub open spec fn receiver_identity_proven(
    creds: DecodedReceiverCredentials,
    controller_public: Seq<u8>,
    reply_public: Seq<u8>,
    plaintext: Seq<u8>,
) -> bool {
    match parse_tlv(plaintext) {
        Some(items) => match (tlv_find(items, PAIRING_TLV_IDENTIFIER), tlv_find(items, PAIRING_TLV_SIGNATURE)) {
            (Some(id), Some(sig)) => {
                &&& id == encode_utf8(creds.receiver_pairing_id@)
                &&& sig.len() == 64
                &&& ed25519_signature_valid(
                    creds.receiver_public_key@,
                    receiver_signed_message(reply_public, creds.receiver_pairing_id@, controller_public),
                    sig,
                )
            },
            _ => false,
        },
        None => false,
    }
}

/// Checks the receiver's proof of identity in the first pair-verify reply.
pub fn verify_receiver_identity(
    receiver_credentials: &DecodedReceiverCredentials,
    controller_public: &[u8; 32],
    start_reply: &PairVerifyStartReply,
    verify_key: &[u8; 32],
) -> (r: Result<(), AirPlayError>)
    requires
        ed25519_key_valid(receiver_credentials.receiver_public_key@),
    ensures
        r is Ok <==> (chacha20poly1305_opened(
            verify_key@,
            prefixed_nonce(encode_utf8(PAIR_VERIFY_M2_NONCE@)),
            start_reply.encrypted_data@,
        ) matches Some(p) && receiver_identity_proven(
            *receiver_credentials,
            controller_public@,
            start_reply.public_key@,
            p,
        )),
{
    proof {
        reveal_strlit("PV-Msg02");
        vstd::string::is_ascii_spec_bytes(PAIR_VERIFY_M2_NONCE);
    }
    let decrypted = decrypt_pair_verify_payload(verify_key, PAIR_VERIFY_M2_NONCE.as_bytes(), start_reply.encrypted_data.as_slice())?;
    let tlv = PairingTlv::parse(decrypted.as_slice())?;
    let identifier_bytes = tlv.require(PAIRING_TLV_IDENTIFIER, "identifier")?;
    let identifier = match utf8_text(identifier_bytes) {
        Some(s) => s,
        None => {
            proof {
                if identifier_bytes@ == encode_utf8(receiver_credentials.receiver_pairing_id@) {
                    vstd::utf8::encode_utf8_valid_utf8(receiver_credentials.receiver_pairing_id@);
                }
            }
            return Err(protocol_error("pair-verify 响应中的 identifier 不是有效 UTF-8"));
        },
    };
    if !str_eq(identifier, receiver_credentials.receiver_pairing_id.as_str()) {
        proof {
            encode_utf8_decode_utf8(identifier@);
            encode_utf8_decode_utf8(receiver_credentials.receiver_pairing_id@);
        }
        return Err(authentication_failed("pair-verify 返回的接收端标识与本地配对记录不一致"));
    }
    let signature_bytes = decode_signature_bytes(tlv.require(PAIRING_TLV_SIGNATURE, "signature")?)?;
    let mut signed_message: Vec<u8> = Vec::new();
    push_all(&mut signed_message, start_reply.public_key.as_slice());
    push_all(&mut signed_message, receiver_credentials.receiver_pairing_id.as_str().as_bytes());
    push_all(&mut signed_message, controller_public.as_slice());
    if !ed25519_verify(&receiver_credentials.receiver_public_key, signed_message.as_slice(), &signature_bytes) {
        return Err(authentication_failed("pair-verify 接收端签名校验失败，请检查配对记录是否已失效"));
    }
    Ok(())
}

/// The sub-TLV the controller encrypts in its pair-verify answer: its
/// pairing id and its signature of its X25519 key, pairing id and the
/// receiver's X25519 key.
pub open spec fn controller_proof_tlv(
    creds: DecodedReceiverCredentials,
    controller_public: Seq<u8>,
    receiver_public: Seq<u8>,
) -> Seq<(u8, Seq<u8>)> {
    let id = encode_utf8(creds.controller_pairing_id@);
    seq![
        (PAIRING_TLV_IDENTIFIER, id),
        (PAIRING_TLV_SIGNATURE, ed25519_signature(creds.controller_secret_key@, controller_public + id + receiver_public)),
    ]
}

/// The controller's pair-verify answer: state 3 and the encrypted proof.
pub fn build_pair_verify_finish_body(
    receiver_credentials: &DecodedReceiverCredentials,
    controller_public: &[u8; 32],
    receiver_public: &[u8; 32],
    verify_key: &[u8; 32],
) -> (r: Result<Vec<u8>, AirPlayError>)
    ensures
        r matches Ok(body) ==> body@ == encode_tlv(
            seq![
                (PAIRING_TLV_STATE, seq![PAIR_VERIFY_FINISH_REQUEST_STATE]),
                (PAIRING_TLV_ENCRYPTED_DATA, chacha20poly1305_sealed(
                    verify_key@,
                    prefixed_nonce(encode_utf8(PAIR_VERIFY_M3_NONCE@)),
                    encode_tlv(controller_proof_tlv(*receiver_credentials, controller_public@, receiver_public@)),
                )),
            ],
        ),
        r is Ok <==> encode_tlv(controller_proof_tlv(*receiver_credentials, controller_public@, receiver_public@)).len()
            / 64 < 0xffff_ffff,
{
    let id_bytes = receiver_credentials.controller_pairing_id.as_str().as_bytes();
    let mut plaintext = PairingTlv::new();
    plaintext.push(PAIRING_TLV_IDENTIFIER, id_bytes);
    let mut signed_message: Vec<u8> = Vec::new();
    push_all(&mut signed_message, controller_public.as_slice());
    push_all(&mut signed_message, id_bytes);
    push_all(&mut signed_message, receiver_public.as_slice());
    assert(signed_message@ =~= controller_public@ + encode_utf8(receiver_credentials.controller_pairing_id@) + receiver_public@);
    let signature = ed25519_sign(&receiver_credentials.controller_secret_key, signed_message.as_slice());
    plaintext.push(PAIRING_TLV_SIGNATURE, signature.as_slice());
    assert(plaintext@ =~= controller_proof_tlv(*receiver_credentials, controller_public@, receiver_public@));
    let encoded = plaintext.encode();
    proof {
        reveal_strlit("PV-Msg03");
        vstd::string::is_ascii_spec_bytes(PAIR_VERIFY_M3_NONCE);
    }
    let encrypted_data = encrypt_pair_verify_payload(verify_key, PAIR_VERIFY_M3_NONCE.as_bytes(), encoded.as_slice())?;
    let mut tlv = PairingTlv::new();
    let state: [u8; 1] = [PAIR_VERIFY_FINISH_REQUEST_STATE];
    tlv.push(PAIRING_TLV_STATE, state.as_slice());
    tlv.push(PAIRING_TLV_ENCRYPTED_DATA, encrypted_data.as_slice());
    assert(state@ =~= seq![PAIR_VERIFY_FINISH_REQUEST_STATE]);
    assert(tlv@ =~= seq![
        (PAIRING_TLV_STATE, seq![PAIR_VERIFY_FINISH_REQUEST_STATE]),
        (PAIRING_TLV_ENCRYPTED_DATA, encrypted_data@),
    ]);
    Ok(tlv.encode())
}


// ---------------------------------------------------------------------------
// Legacy pair-verify

/// The first 16 bytes of SHA-512 over `label` followed by `secret`.
pub open spec fn labelled_sha512_16(label: Seq<char>, secret: Seq<u8>) -> Seq<u8> {
    sha512_digest(encode_utf8(label) + secret).take(16)
}

/// The first 16 bytes of SHA-512 over `label` followed by `secret`.
fn labelled_sha512_16_of(label: &str, secret: &[u8]) -> (r: [u8; 16])
    ensures
        r@ == labelled_sha512_16(label@, secret@),
{
    let mut input: Vec<u8> = Vec::new();
    push_all(&mut input, label.as_bytes());
    push_all(&mut input, secret);
    let digest = sha512(input.as_slice());
    let mut out = [0u8; 16];
    let mut i: usize = 0;
    while i < 16
        invariant
            i <= 16,
            digest@.len() == 64,
            out@.len() == 16,
            forall|j: int| 0 <= j < i ==> out@[j] == digest@[j],
        decreases 16 - i,
    {
        out[i] = digest[i];
        i = i + 1;
    }
    assert(out@ =~= digest@.take(16));
    out
}

/// The AES key and counter block of legacy pair-verify from the X25519
/// shared secret.
pub fn derive_legacy_pair_verify_key_iv(shared_secret: &[u8]) -> (r: ([u8; 16], [u8; 16]))
    ensures
        r.0@ == labelled_sha512_16(LEGACY_PAIR_VERIFY_AES_KEY@, shared_secret@),
        r.1@ == labelled_sha512_16(LEGACY_PAIR_VERIFY_AES_IV@, shared_secret@),
{
    let key = labelled_sha512_16_of(LEGACY_PAIR_VERIFY_AES_KEY, shared_secret);
    let iv = labelled_sha512_16_of(LEGACY_PAIR_VERIFY_AES_IV, shared_secret);
    (key, iv)
}

/// The 64 bytes of a slice of that length.
fn bytes_64(v: &[u8]) -> (r: [u8; 64])
    requires
        v@.len() == 64,
    ensures
        r@ == v@,
{
    let mut out = [0u8; 64];
    let mut i: usize = 0;
    while i < 64
        invariant
            i <= 64,
            v@.len() == 64,
            out@.len() == 64,
            forall|j: int| 0 <= j < i ==> out@[j] == v@[j],
        decreases 64 - i,
    {
        out[i] = v[i];
        i = i + 1;
    }
    assert(out@ =~= v@);
    out
}

/// The receiver's signature with the key stream taken off (or put on) from
/// the start of the stream.
pub fn apply_legacy_pair_verify_signature_keystream(verify_key: &[u8; 16], verify_iv: &[u8; 16], signature: &[u8; 64]) -> (r: [u8; 64])
    ensures
        r@ == aes128_ctr_applied(verify_key@, verify_iv@, signature@),
{
    let applied = aes128_ctr_apply(verify_key, verify_iv, signature.as_slice());
    bytes_64(applied.as_slice())
}

/// The controller's signature encrypted with the key stream that follows
/// the 64 bytes spent on the challenge.
pub fn apply_legacy_pair_verify_finish_signature_keystream(
    verify_key: &[u8; 16],
    verify_iv: &[u8; 16],
    challenge: &[u8; 64],
    signature: &[u8; 64],
) -> (r: [u8; 64])
    ensures
        r@ == aes128_ctr_applied(verify_key@, verify_iv@, challenge@ + signature@).subrange(64, 128),
{
    let mut stream_input: Vec<u8> = Vec::new();
    push_all(&mut stream_input, challenge.as_slice());
    push_all(&mut stream_input, signature.as_slice());
    let applied = aes128_ctr_apply(verify_key, verify_iv, stream_input.as_slice());
    let mut out = [0u8; 64];
    let mut i: usize = 0;
    while i < 64
        invariant
            i <= 64,
            applied@.len() == 128,
            out@.len() == 64,
            forall|j: int| 0 <= j < i ==> out@[j] == applied@[j + 64],
        decreases 64 - i,
    {
        out[i] = applied[i + 64];
        i = i + 1;
    }
    assert(out@ =~= applied@.subrange(64, 128));
    out
}

/// Checks the receiver's signature of both X25519 keys in the legacy
/// pair-verify reply: an unusable stored key is an invalid session, a
/// signature that does not verify an authentication failure.
pub fn verify_legacy_pair_verify_signature(
    receiver_curve_public: &[u8; 32],
    controller_curve_public: &[u8; 32],
    encrypted_signature: &[u8; 64],
    receiver_public_key: &[u8; 32],
    verify_key: &[u8; 16],
    verify_iv: &[u8; 16],
) -> (r: Result<(), AirPlayError>)
    ensures
        !ed25519_key_valid(receiver_public_key@) ==> r matches Err(AirPlayError::InvalidSession { .. }),
        ed25519_key_valid(receiver_public_key@) ==> (r is Ok <==> ed25519_signature_valid(
            receiver_public_key@,
            receiver_curve_public@ + controller_curve_public@,
            aes128_ctr_applied(verify_key@, verify_iv@, encrypted_signature@),
        )),
        ed25519_key_valid(receiver_public_key@) && r is Err ==> r matches Err(AirPlayError::AuthenticationFailed { .. }),
{
    let signature = apply_legacy_pair_verify_signature_keystream(verify_key, verify_iv, encrypted_signature);
    if !ed25519_key_is_valid(receiver_public_key) {
        return Err(invalid_session("mDNS pk 不是有效的 Ed25519 公钥"));
    }
    let mut signed_message: Vec<u8> = Vec::new();
    push_all(&mut signed_message, receiver_curve_public.as_slice());
    push_all(&mut signed_message, controller_curve_public.as_slice());
    if !ed25519_verify(receiver_public_key, signed_message.as_slice(), &signature) {
        return Err(authentication_failed("legacy /pair-verify 接收端签名校验失败"));
    }
    Ok(())
}

/// The controller's legacy pair-verify answer: four zero bytes, then its
/// signature of both X25519 keys, encrypted.
pub fn build_legacy_pair_verify_finish_body(
    controller_curve_public: &[u8; 32],
    receiver_curve_public: &[u8; 32],
    challenge: &[u8; 64],
    controller_secret_key: &[u8; 32],
    verify_key: &[u8; 16],
    verify_iv: &[u8; 16],
) -> (r: Vec<u8>)
    ensures
        r@ == seq![0u8, 0u8, 0u8, 0u8] + aes128_ctr_applied(
            verify_key@,
            verify_iv@,
            challenge@ + ed25519_signature(controller_secret_key@, controller_curve_public@ + receiver_curve_public@),
        ).subrange(64, 128),
{
    let mut signed_message: Vec<u8> = Vec::new();
    push_all(&mut signed_message, controller_curve_public.as_slice());
    push_all(&mut signed_message, receiver_curve_public.as_slice());
    let signature = ed25519_sign(controller_secret_key, signed_message.as_slice());
    let encrypted_signature = apply_legacy_pair_verify_finish_signature_keystream(verify_key, verify_iv, challenge, &signature);
    let mut body: Vec<u8> = Vec::new();
    body.push(0);
    body.push(0);
    body.push(0);
    body.push(0);
    push_all(&mut body, encrypted_signature.as_slice());
    assert(body@ =~= seq![0u8, 0u8, 0u8, 0u8] + encrypted_signature@);
    body
}

} // verus!
