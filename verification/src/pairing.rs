//! The message layouts of pair-verify and auth-setup, and the reading of
//! the receiver's replies to them.

use vstd::prelude::*;

use crate::bytes::push_all;
use crate::error::{protocol_error, AirPlayError};
use crate::model::SpeakerDevice;
use crate::rtsp::RtspResponse;
use crate::session::{map_pairing_http_failure, pairing_failure_kind};
use crate::text::{decimal, push_decimal, push_str};
use crate::tlv::{
    encode_tlv, tlv_find, parse_tlv, PairingTlv, PAIRING_TLV_ENCRYPTED_DATA, PAIRING_TLV_ERROR,
    PAIRING_TLV_PUBLIC_KEY, PAIRING_TLV_STATE,
};

verus! {

pub const PAIR_VERIFY_START_REQUEST_STATE: u8 = 1;
pub const PAIR_VERIFY_START_RESPONSE_STATE: u8 = 2;
pub const PAIR_VERIFY_FINISH_REQUEST_STATE: u8 = 3;
pub const PAIR_VERIFY_FINISH_RESPONSE_STATE: u8 = 4;
pub const AUTH_SETUP_ENCRYPTION_TYPE_UNENCRYPTED: u8 = 0x01;

/// What the receiver sends back to the first pair-verify message.
#[derive(Debug, Clone, PartialEq, Eq)]
pub struct PairVerifyStartReply {
    pub public_key: [u8; 32],
    pub encrypted_data: Vec<u8>,
}

/// What a legacy receiver sends back to the first pair-verify message.
#[derive(Debug, Clone, PartialEq, Eq)]
pub struct LegacyPairVerifyStartReply {
    pub public_key: [u8; 32],
    pub challenge: [u8; 64],
}

/// The value of the one-byte item of type `t`, if there is one.
pub open spec fn tlv_byte(items: Seq<(u8, Seq<u8>)>, t: u8) -> Option<u8> {
    match tlv_find(items, t) {
        Some(v) => if v.len() == 1 { Some(v[0]) } else { None },
        None => None,
    }
}

/// The public key and the encrypted data of a well-formed first
/// pair-verify reply (state 2, a 32-byte key).
pub open spec fn pair_verify_start_fields(items: Seq<(u8, Seq<u8>)>) -> Option<(Seq<u8>, Seq<u8>)> {
    if tlv_byte(items, PAIRING_TLV_STATE) != Some(PAIR_VERIFY_START_RESPONSE_STATE) {
        None
    } else {
        match (tlv_find(items, PAIRING_TLV_PUBLIC_KEY), tlv_find(items, PAIRING_TLV_ENCRYPTED_DATA)) {
            (Some(pk), Some(enc)) => if pk.len() == 32 { Some((pk, enc)) } else { None },
            _ => None,
        }
    }
}

/// The first pair-verify message: state 1 and the controller's X25519 key.
pub fn build_pair_verify_start_body(controller_public: &[u8; 32]) -> (r: Vec<u8>)
    ensures
        r@ == encode_tlv(
            seq![(PAIRING_TLV_STATE, seq![PAIR_VERIFY_START_REQUEST_STATE]), (PAIRING_TLV_PUBLIC_KEY, controller_public@)],
        ),
{
    let mut tlv = PairingTlv::new();
    let state: [u8; 1] = [PAIR_VERIFY_START_REQUEST_STATE];
    tlv.push(PAIRING_TLV_STATE, state.as_slice());
    tlv.push(PAIRING_TLV_PUBLIC_KEY, controller_public.as_slice());
    assert(state@ =~= seq![PAIR_VERIFY_START_REQUEST_STATE]);
    assert(tlv@ =~= seq![(PAIRING_TLV_STATE, seq![PAIR_VERIFY_START_REQUEST_STATE]), (PAIRING_TLV_PUBLIC_KEY, controller_public@)]);
    tlv.encode()
}

/// The auth-setup message: the "unencrypted" type byte, then the key.
pub fn build_auth_setup_body(client_public_key: &[u8; 32]) -> (r: [u8; 33])
    ensures
        r@ == seq![AUTH_SETUP_ENCRYPTION_TYPE_UNENCRYPTED] + client_public_key@,
{
    let mut body = [0u8; 33];
    body[0] = AUTH_SETUP_ENCRYPTION_TYPE_UNENCRYPTED;
    let mut i: usize = 0;
    while i < 32
        invariant
            i <= 32,
            body@.len() == 33,
            body@[0] == AUTH_SETUP_ENCRYPTION_TYPE_UNENCRYPTED,
            forall|j: int| 0 <= j < i ==> body@[j + 1] == client_public_key@[j],
        decreases 32 - i,
    {
        body[i + 1] = client_public_key[i];
        i = i + 1;
    }
    assert(body@ =~= seq![AUTH_SETUP_ENCRYPTION_TYPE_UNENCRYPTED] + client_public_key@);
    body
}

/// The first legacy pair-verify message: `01 00 00 00`, the X25519 key,
/// the Ed25519 key.
pub fn build_legacy_pair_verify_start_body(
    controller_curve_public: &[u8; 32],
    controller_signing_public: &[u8; 32],
) -> (r: Vec<u8>)
    ensures
        r@ == seq![1u8, 0u8, 0u8, 0u8] + controller_curve_public@ + controller_signing_public@,
{
    let mut body: Vec<u8> = Vec::new();
    body.push(1);
    body.push(0);
    body.push(0);
    body.push(0);
    push_all(&mut body, controller_curve_public.as_slice());
    push_all(&mut body, controller_signing_public.as_slice());
    assert(body@ =~= seq![1u8, 0u8, 0u8, 0u8] + controller_curve_public@ + controller_signing_public@);
    body
}

/// A 12-byte nonce ending in `suffix`, zero in front; a suffix longer than
/// eight bytes is a protocol error.
pub fn build_prefixed_nonce(nonce_suffix: &[u8]) -> (r: Result<[u8; 12], AirPlayError>)
    ensures
        nonce_suffix@.len() > 8 ==> r matches Err(AirPlayError::Protocol { .. }),
        nonce_suffix@.len() <= 8 ==> (r matches Ok(n) && n@ == Seq::new(
            (12 - nonce_suffix@.len()) as nat,
            |i: int| 0u8,
        ) + nonce_suffix@),
{
    if nonce_suffix.len() > 8 {
        return Err(protocol_error("配对 nonce 后缀长度无效"));
    }
    let mut nonce = [0u8; 12];
    let start: usize = 12 - nonce_suffix.len();
    let mut i: usize = 0;
    while i < nonce_suffix.len()
        invariant
            start + nonce_suffix@.len() == 12,
            i <= nonce_suffix@.len(),
            nonce@.len() == 12,
            forall|j: int| 0 <= j < start ==> nonce@[j] == 0u8,
            forall|j: int| 0 <= j < i ==> nonce@[start + j] == nonce_suffix@[j],
        decreases nonce_suffix@.len() - i,
    {
        nonce[start + i] = nonce_suffix[i];
        i = i + 1;
    }
    assert(nonce@ =~= Seq::new((12 - nonce_suffix@.len()) as nat, |i: int| 0u8) + nonce_suffix@);
    Ok(nonce)
}

/// A big-endian counter plus one, wrapping to zero: the trailing `ff`
/// bytes become `00` and the byte before them goes up by one.
pub open spec fn be_increment(counter: Seq<u8>) -> Seq<u8>
    decreases counter.len(),
{
    if counter.len() == 0 {
        counter
    } else if counter.last() == 0xffu8 {
        be_increment(counter.drop_last()).push(0u8)
    } else {
        counter.drop_last().push((counter.last() + 1) as u8)
    }
}

/// Adds one to a 16-byte big-endian counter, wrapping to zero.
pub fn increment_big_endian_counter(counter: &mut [u8; 16])
    ensures
        final(counter)@ == be_increment(old(counter)@),
{
    let ghost start = counter@;
    let mut k: usize = 16;
    let mut carry = true;
    assert(start.take(16) =~= start);
    assert(be_increment(start) + Seq::new(0, |j: int| 0u8) =~= be_increment(start));
    while carry && k > 0
        invariant
            k <= 16,
            start.len() == 16,
            counter@.len() == 16,
            carry ==> counter@ == start.take(k as int) + Seq::new((16 - k) as nat, |j: int| 0u8),
            carry ==> be_increment(start) == be_increment(start.take(k as int)) + Seq::new(
                (16 - k) as nat,
                |j: int| 0u8,
            ),
            !carry ==> counter@ == be_increment(start),
        decreases k,
    {
        let ghost before = counter@;
        k = k - 1;
        let ghost prefix = start.take(k as int);
        assert(start.take(k + 1 as int).drop_last() =~= prefix);
        assert(start.take(k + 1 as int).last() == start[k as int]);
        if counter[k] == 0xff {
            counter[k] = 0;
            assert(be_increment(start.take(k + 1 as int)) == be_increment(prefix).push(0u8));
            assert(be_increment(prefix).push(0u8) + Seq::new((15 - k) as nat, |j: int| 0u8) =~= be_increment(
                prefix,
            ) + Seq::new((16 - k) as nat, |j: int| 0u8));
            assert(counter@ =~= prefix + Seq::new((16 - k) as nat, |j: int| 0u8));
        } else {
            counter[k] = counter[k] + 1;
            carry = false;
            assert(be_increment(start.take(k + 1 as int)) == prefix.push((start[k as int] + 1) as u8));
            assert(counter@ =~= prefix.push((start[k as int] + 1) as u8) + Seq::new(
                (15 - k) as nat,
                |j: int| 0u8,
            ));
        }
    }
    if carry {
        assert(start.take(0) =~= Seq::<u8>::empty());
        assert(counter@ =~= be_increment(start));
    }
}

/// The 32 bytes of `bytes`, or a protocol error naming `field_name` when it
/// has another length.
pub fn decode_fixed_32(bytes: &[u8], field_name: &str) -> (r: Result<[u8; 32], AirPlayError>)
    ensures
        bytes@.len() == 32 ==> (r matches Ok(a) && a@ == bytes@),
        bytes@.len() != 32 ==> r matches Err(AirPlayError::Protocol { .. }),
{
    if bytes.len() != 32 {
        let mut message = String::from_str(field_name);
        push_str(&mut message, " 长度必须为 32 字节");
        return Err(AirPlayError::Protocol { message });
    }
    let mut out = [0u8; 32];
    let mut i: usize = 0;
    while i < 32
        invariant
            i <= 32,
            bytes@.len() == 32,
            out@.len() == 32,
            forall|j: int| 0 <= j < i ==> out@[j] == bytes@[j],
        decreases 32 - i,
    {
        out[i] = bytes[i];
        i = i + 1;
    }
    assert(out@ =~= bytes@);
    Ok(out)
}

/// The 64 bytes of a signature, or a protocol error when it has another
/// length.
pub fn decode_signature_bytes(bytes: &[u8]) -> (r: Result<[u8; 64], AirPlayError>)
    ensures
        bytes@.len() == 64 ==> (r matches Ok(a) && a@ == bytes@),
        bytes@.len() != 64 ==> r matches Err(AirPlayError::Protocol { .. }),
{
    if bytes.len() != 64 {
        return Err(protocol_error("pair-verify 签名长度必须为 64 字节"));
    }
    let mut out = [0u8; 64];
    let mut i: usize = 0;
    while i < 64
        invariant
            i <= 64,
            bytes@.len() == 64,
            out@.len() == 64,
            forall|j: int| 0 <= j < i ==> out@[j] == bytes@[j],
        decreases 64 - i,
    {
        out[i] = bytes[i];
        i = i + 1;
    }
    assert(out@ =~= bytes@);
    Ok(out)
}

/// The lower-case hexadecimal digit of `d` (below 16).
pub open spec fn lower_hex_char(d: u8) -> char {
    if d < 10 {
        (d + 48) as char
    } else {
        (d + 87) as char
    }
}

/// The two lower-case hexadecimal digits of a byte.
pub open spec fn hex_byte_chars(b: u8) -> Seq<char> {
    seq![lower_hex_char(b / 16), lower_hex_char(b % 16)]
}

/// The bytes in lower-case hex, two digits each, separated by `", "`.
pub open spec fn hex_items(b: Seq<u8>) -> Seq<char>
    decreases b.len(),
{
    if b.len() == 0 {
        seq![]
    } else {
        let prev = hex_items(b.drop_last());
        (if b.len() == 1 {
            prev
        } else {
            prev + seq![',', ' ']
        }) + hex_byte_chars(b.last())
    }
}

/// The bytes as `[xx, yy, ...]` in lower-case hex.
pub open spec fn hex_list(b: Seq<u8>) -> Seq<char> {
    seq!['['] + hex_items(b) + seq![']']
}

/// The lower-case hexadecimal digit of `d`.
fn lower_hex_digit(d: u8) -> (c: char)
    requires
        d < 16,
    ensures
        c == lower_hex_char(d),
{
    if d < 10 {
        ((d + 48) as char)
    } else {
        ((d + 87) as char)
    }
}

/// Appends `bytes` as `[xx, yy, ...]` in lower-case hex.
fn push_hex_list(out: &mut String, bytes: &[u8])
    ensures
        final(out)@ == old(out)@ + hex_list(bytes@),
{
    let ghost start = out@;
    out.push('[');
    let mut i: usize = 0;
    while i < bytes.len()
        invariant
            i <= bytes@.len(),
            out@ == start + seq!['['] + hex_items(bytes@.take(i as int)),
        decreases bytes@.len() - i,
    {
        let ghost before = out@;
        assert(bytes@.take(i + 1).drop_last() =~= bytes@.take(i as int));
        if i > 0 {
            out.push(',');
            out.push(' ');
        }
        out.push(lower_hex_digit(bytes[i] / 16));
        out.push(lower_hex_digit(bytes[i] % 16));
        i = i + 1;
        proof {
            let b = bytes@.take(i as int);
            assert(b.last() == bytes@[i - 1]);
            if i == 1 {
                assert(out@ =~= before + hex_byte_chars(b.last()));
            } else {
                assert(out@ =~= before + seq![',', ' '] + hex_byte_chars(b.last()));
            }
            assert(out@ =~= start + seq!['['] + hex_items(b));
        }
    }
    assert(bytes@.take(i as int) =~= bytes@);
    out.push(']');
    assert(out@ =~= old(out)@ + hex_list(bytes@));
}

/// An authentication failure for a TLV error item: `text` and the item's
/// bytes.
fn tlv_error_failure(text: &str, code: &[u8]) -> (e: AirPlayError)
    ensures
        e matches AirPlayError::AuthenticationFailed { message } && message@ == text@ + hex_list(code@),
{
    let mut message = String::from_str(text);
    push_hex_list(&mut message, code);
    AirPlayError::AuthenticationFailed { message }
}

/// A protocol error for an unexpected pair-verify state: `text` and the
/// state.
fn unexpected_state(text: &str, state: u8) -> (e: AirPlayError)
    ensures
        e matches AirPlayError::Protocol { message } && message@ == text@ + decimal(state as nat),
{
    let mut message = String::from_str(text);
    push_decimal(&mut message, state as u64);
    AirPlayError::Protocol { message }
}

/// Reads the first pair-verify reply: a failed status is a pairing failure,
/// a TLV error item an authentication failure, anything malformed a
/// protocol error.
pub fn map_pair_verify_start_response(response: &RtspResponse) -> (r: Result<PairVerifyStartReply, AirPlayError>)
    ensures
        !(200 <= response.status.code < 300) ==> (r matches Err(e) && pairing_failure_kind(response.status.code, e)),
        200 <= response.status.code < 300 ==> match parse_tlv(response.body@) {
            None => r matches Err(AirPlayError::Protocol { .. }),
            Some(items) => if tlv_find(items, PAIRING_TLV_ERROR) is Some {
                r matches Err(AirPlayError::AuthenticationFailed { .. })
            } else {
                match pair_verify_start_fields(items) {
                    Some((pk, enc)) => r matches Ok(reply) && reply.public_key@ == pk && reply.encrypted_data@ == enc,
                    None => r matches Err(AirPlayError::Protocol { .. }),
                }
            },
        },
{
    if !response.is_success() {
        return Err(map_pairing_http_failure(response, "/pair-verify"));
    }
    let tlv = PairingTlv::parse(response.body.as_slice())?;
    if let Some(error_code) = tlv.get(PAIRING_TLV_ERROR) {
        return Err(tlv_error_failure("/pair-verify 返回 TLV error=", error_code));
    }
    let state = tlv.require_byte(PAIRING_TLV_STATE, "state")?;
    if state != PAIR_VERIFY_START_RESPONSE_STATE {
        return Err(unexpected_state("/pair-verify 起始响应返回了未预期 state=", state));
    }
    let public_key = decode_fixed_32(tlv.require(PAIRING_TLV_PUBLIC_KEY, "public key")?, "/pair-verify public key")?;
    let encrypted = tlv.require(PAIRING_TLV_ENCRYPTED_DATA, "encrypted data")?;
    let mut encrypted_data: Vec<u8> = Vec::new();
    push_all(&mut encrypted_data, encrypted);
    assert(encrypted_data@ =~= encrypted@);
    Ok(PairVerifyStartReply { public_key, encrypted_data })
}

/// Reads the last pair-verify reply: success is a TLV with state 4 and no
/// error item.
pub fn map_pair_verify_finish_response(response: &RtspResponse) -> (r: Result<(), AirPlayError>)
    ensures
        !(200 <= response.status.code < 300) ==> (r matches Err(e) && pairing_failure_kind(response.status.code, e)),
        200 <= response.status.code < 300 ==> match parse_tlv(response.body@) {
            None => r matches Err(AirPlayError::Protocol { .. }),
            Some(items) => if tlv_find(items, PAIRING_TLV_ERROR) is Some {
                r matches Err(AirPlayError::AuthenticationFailed { .. })
            } else if tlv_byte(items, PAIRING_TLV_STATE) == Some(PAIR_VERIFY_FINISH_RESPONSE_STATE) {
                r is Ok
            } else {
                r matches Err(AirPlayError::Protocol { .. })
            },
        },
{
    if !response.is_success() {
        return Err(map_pairing_http_failure(response, "/pair-verify"));
    }
    let tlv = PairingTlv::parse(response.body.as_slice())?;
    if let Some(error_code) = tlv.get(PAIRING_TLV_ERROR) {
        return Err(tlv_error_failure("/pair-verify 完成步骤返回 TLV error=", error_code));
    }
    let state = tlv.require_byte(PAIRING_TLV_STATE, "state")?;
    if state != PAIR_VERIFY_FINISH_RESPONSE_STATE {
        return Err(unexpected_state("/pair-verify 完成响应返回了未预期 state=", state));
    }
    Ok(())
}

/// Reads the first legacy pair-verify reply: 96 bytes, the receiver's
/// X25519 key and then a 64-byte challenge.
pub fn map_legacy_pair_verify_start_response(response: &RtspResponse) -> (r: Result<LegacyPairVerifyStartReply, AirPlayError>)
    ensures
        !(200 <= response.status.code < 300) ==> (r matches Err(e) && pairing_failure_kind(response.status.code, e)),
        200 <= response.status.code < 300 && response.body@.len() != 96 ==> r matches Err(AirPlayError::Protocol { .. }),
        200 <= response.status.code < 300 && response.body@.len() == 96 ==> (r matches Ok(reply)
            && reply.public_key@ == response.body@.subrange(0, 32)
            && reply.challenge@ == response.body@.subrange(32, 96)),
{
    if !response.is_success() {
        return Err(map_pairing_http_failure(response, "/pair-verify"));
    }
    if response.body.len() != 96 {
        let mut message = String::from_str("legacy /pair-verify 起始响应长度无效: ");
        push_decimal(&mut message, response.body.len() as u64);
        return Err(AirPlayError::Protocol { message });
    }
    let mut public_key = [0u8; 32];
    let mut challenge = [0u8; 64];
    let mut i: usize = 0;
    while i < 96
        invariant
            i <= 96,
            response.body@.len() == 96,
            public_key@.len() == 32,
            challenge@.len() == 64,
            forall|j: int| 0 <= j < i && j < 32 ==> public_key@[j] == response.body@[j],
            forall|j: int| 32 <= j < i ==> challenge@[j - 32] == response.body@[j],
        decreases 96 - i,
    {
        if i < 32 {
            public_key[i] = response.body[i];
        } else {
            challenge[i - 32] = response.body[i];
        }
        i = i + 1;
    }
    assert(public_key@ =~= response.body@.subrange(0, 32));
    assert(challenge@ =~= response.body@.subrange(32, 96));
    Ok(LegacyPairVerifyStartReply { public_key, challenge })
}

/// The receiver's pairing id from discovery, needed for legacy pairing.
pub fn receiver_pairing_id_from_device(device: &SpeakerDevice) -> (r: Result<String, AirPlayError>)
    ensures
        device.pairing_id matches Some(id) ==> r == Ok::<String, AirPlayError>(id),
        device.pairing_id is None ==> r matches Err(AirPlayError::InvalidSession { .. }),
{
    match &device.pairing_id {
        Some(id) => Ok(id.clone()),
        None => Err(crate::error::invalid_session("设备缺少 modern AirPlay pairing id（mDNS pi/gid）")),
    }
}

} // verus!
