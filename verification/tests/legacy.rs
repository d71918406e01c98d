use std::io::Cursor;

use aes_gcm::aead::{AeadInPlace, KeyInit};
use ctr::cipher::{KeyIvInit, StreamCipher};
use ed25519_dalek::{Signature, Signer, SigningKey, Verifier, VerifyingKey};
use sha1::{Digest, Sha1};
use sha2::Sha512;
use srp::client::SrpClient;
use srp::groups::G_2048;
use srp::server::SrpServer;

use rairstream::error::AirPlayError;
use rairstream::legacy::{
    decrypt_legacy_pair_setup_public_key, derive_legacy_pair_setup_key_iv, derive_legacy_pair_setup_session_key,
    encrypt_legacy_pair_setup_public_key, left_pad_legacy_srp_public, map_pair_setup_pin_exchange_response,
    map_pair_setup_pin_start_response,
    verify_legacy_pair_setup_server_proof, LegacyPairing, LegacyPairingAction, LegacyPairingStep,
};
use rairstream::model::{
    AirPlayGeneration, AudioFormat, DeviceSupport, ReceiverAuthFlow, ReceiverKind, SessionDescriptor, SpeakerDevice,
};
use rairstream::rtsp::{RtspHeaders, RtspRequest, RtspResponse, RtspStatus};
use rairstream::session::{ModernAirPlaySession, PreparedTransportSession};

type Gcm16 = aes_gcm::AesGcm<aes::Aes128, aes::cipher::consts::U16>;
type Ctr = ctr::Ctr128BE<aes::Aes128>;

fn descriptor(kind: ReceiverKind, receiver_public_hex: Option<String>) -> SessionDescriptor {
    SessionDescriptor::new(
        SpeakerDevice {
            id: String::from("speaker"),
            name: String::from("Speaker"),
            host: String::from("127.0.0.1"),
            port: 7000,
            generation: AirPlayGeneration::AirPlay1,
            pairing_id: Some(String::from("receiver-id")),
            receiver_public_key: receiver_public_hex,
            receiver_kind: kind,
            support: DeviceSupport::Supported,
        },
        AudioFormat::default(),
    )
}

fn reply(code: u16, body: Vec<u8>) -> RtspResponse {
    RtspResponse { status: RtspStatus { code, reason_phrase: String::from("X") }, headers: RtspHeaders::new(), body }
}

fn sent(action: LegacyPairingAction) -> RtspRequest {
    match action {
        LegacyPairingAction::Send(request) => request,
        other => panic!("expected a request, got {other:?}"),
    }
}

fn first_line(request: &RtspRequest) -> String {
    String::from_utf8_lossy(&request.encode()).lines().next().unwrap().to_string()
}

fn plist_data(pairs: &[(&str, Vec<u8>)]) -> Vec<u8> {
    let mut dictionary = plist::Dictionary::new();
    for (key, value) in pairs {
        dictionary.insert(key.to_string(), plist::Value::Data(value.clone()));
    }
    let mut out = Vec::new();
    plist::Value::Dictionary(dictionary).to_writer_binary(&mut out).unwrap();
    out
}

fn plist_dictionary(body: &[u8]) -> plist::Dictionary {
    plist::Value::from_reader(Cursor::new(body.to_vec())).unwrap().into_dictionary().unwrap()
}

fn data_field(dictionary: &plist::Dictionary, key: &str) -> Vec<u8> {
    dictionary.get(key).and_then(plist::Value::as_data).unwrap().to_vec()
}

fn labelled_16(label: &[u8], secret: &[u8]) -> [u8; 16] {
    let mut hasher = Sha512::new();
    hasher.update(label);
    hasher.update(secret);
    let digest = hasher.finalize();
    let mut out = [0u8; 16];
    out.copy_from_slice(&digest[..16]);
    out
}

fn plus_one(mut counter: [u8; 16]) -> [u8; 16] {
    for byte in counter.iter_mut().rev() {
        let (value, carry) = byte.overflowing_add(1);
        *byte = value;
        if !carry {
            break;
        }
    }
    counter
}

fn session_key_of(premaster_secret: &[u8]) -> Vec<u8> {
    let mut first = Sha1::new();
    first.update(premaster_secret);
    first.update([0u8, 0, 0, 0]);
    let mut second = Sha1::new();
    second.update(premaster_secret);
    second.update([0u8, 0, 0, 1]);
    let mut key = first.finalize().to_vec();
    key.extend_from_slice(&second.finalize());
    key
}

fn pad_256(value: Vec<u8>) -> Vec<u8> {
    let mut padded = vec![0u8; 256 - value.len()];
    padded.extend_from_slice(&value);
    padded
}

fn rfc5054_client_proof(user: &str, salt: &[u8], a_pub: &[u8], b_pub: &[u8], key: &[u8]) -> Vec<u8> {
    let hash_n = Sha1::digest(G_2048.n.to_bytes_be());
    let hash_g = Sha1::digest(G_2048.g.to_bytes_be());
    let mut hasher = Sha1::new();
    let xored: Vec<u8> = hash_n.iter().zip(hash_g.iter()).map(|(n, g)| n ^ g).collect();
    hasher.update(&xored);
    hasher.update(Sha1::digest(user.as_bytes()));
    hasher.update(salt);
    hasher.update(a_pub);
    hasher.update(b_pub);
    hasher.update(key);
    hasher.finalize().to_vec()
}

#[test]
fn modern_pair_with_pin_returns_receiver_credentials() {
    let receiver_signing_key = SigningKey::from_bytes(&[9_u8; 32]);
    let receiver_ltpk = receiver_signing_key.verifying_key().to_bytes();
    let descriptor = descriptor(ReceiverKind::ModernAirPlayAuth, Some(hex::encode(receiver_ltpk)));
    let session = ModernAirPlaySession::connect(&descriptor).unwrap();

    let (mut pairing, action) = session.pair_with_pin("1234").unwrap();
    let mut requests = vec![first_line(&sent(action))];

    // GET /info: the reply is not read.
    let pin_start = sent(pairing.on_response(&reply(401, Vec::new())).unwrap());
    requests.push(first_line(&pin_start));

    // POST /pair-pin-start.
    let setup_start = sent(pairing.on_response(&reply(200, Vec::new())).unwrap());
    requests.push(first_line(&setup_start));
    let start_fields = plist_dictionary(&setup_start.body);
    assert_eq!(start_fields.get("method").and_then(plist::Value::as_string), Some("pin"));
    let user = start_fields.get("user").and_then(plist::Value::as_string).unwrap().to_string();
    assert_eq!(user.len(), 17);
    assert_eq!(user.matches(':').count(), 5);

    // The receiver's SRP values.
    let salt = *b"0123456789abcdef";
    let srp_client = SrpClient::<Sha1>::new(&G_2048);
    let srp_server = SrpServer::<Sha1>::new(&G_2048);
    let verifier = srp_client.compute_verifier(user.as_bytes(), b"1234", &salt);
    let server_secret = [5_u8; 48];
    let server_public = pad_256(srp_server.compute_public_ephemeral(&server_secret, &verifier));
    let setup_verify = sent(
        pairing
            .on_response(&reply(200, plist_data(&[("salt", salt.to_vec()), ("pk", server_public.clone())])))
            .unwrap(),
    );
    requests.push(first_line(&setup_verify));
    let verify_fields = plist_dictionary(&setup_verify.body);
    let padded_controller_public = data_field(&verify_fields, "pk");
    let client_proof = data_field(&verify_fields, "proof");
    assert_eq!(padded_controller_public.len(), 256);
    // The receiver checks the shared key and proves it too.
    let server_verifier = srp_server.process_reply(&server_secret, &verifier, &padded_controller_public).unwrap();
    let server_session_key = session_key_of(server_verifier.key());
    assert_eq!(
        client_proof,
        rfc5054_client_proof(&user, &salt, &padded_controller_public, &server_public, &server_session_key)
    );
    let mut proof_hasher = Sha1::new();
    proof_hasher.update(&padded_controller_public);
    proof_hasher.update(&client_proof);
    proof_hasher.update(&server_session_key);
    let server_proof = proof_hasher.finalize().to_vec();
    let exchange = sent(pairing.on_response(&reply(200, plist_data(&[("proof", server_proof)]))).unwrap());
    requests.push(first_line(&exchange));

    // The long-term keys are exchanged under AES-GCM.
    let exchange_fields = plist_dictionary(&exchange.body);
    let mut controller_ltpk = data_field(&exchange_fields, "epk");
    let tag = data_field(&exchange_fields, "authTag");
    assert_eq!(controller_ltpk.len(), 32);
    assert_eq!(tag.len(), 16);
    let key = labelled_16(b"Pair-Setup-AES-Key", &server_session_key);
    let nonce = plus_one(labelled_16(b"Pair-Setup-AES-IV", &server_session_key));
    let cipher = Gcm16::new_from_slice(&key).unwrap();
    cipher
        .decrypt_in_place_detached(
            aes_gcm::Nonce::<aes::cipher::consts::U16>::from_slice(&nonce),
            b"",
            &mut controller_ltpk,
            aes_gcm::Tag::<aes::cipher::consts::U16>::from_slice(&tag),
        )
        .unwrap();
    let mut encrypted_receiver_ltpk = receiver_ltpk.to_vec();
    let receiver_tag = cipher
        .encrypt_in_place_detached(
            aes_gcm::Nonce::<aes::cipher::consts::U16>::from_slice(&plus_one(nonce)),
            b"",
            &mut encrypted_receiver_ltpk,
        )
        .unwrap();
    let verify_start = sent(
        pairing
            .on_response(&reply(
                200,
                plist_data(&[("epk", encrypted_receiver_ltpk), ("authTag", receiver_tag.to_vec())]),
            ))
            .unwrap(),
    );
    requests.push(first_line(&verify_start));

    // Legacy pair-verify: curve keys, then signatures under AES-CTR.
    assert_eq!(verify_start.body.len(), 68);
    assert_eq!(&verify_start.body[..4], &[1, 0, 0, 0]);
    let mut controller_curve_public = [0u8; 32];
    controller_curve_public.copy_from_slice(&verify_start.body[4..36]);
    assert_eq!(&verify_start.body[36..68], controller_ltpk.as_slice());
    let receiver_curve_secret = [7_u8; 32];
    let mut base_point = [0u8; 32];
    base_point[0] = 9;
    let receiver_curve_public = x25519_dalek::x25519(receiver_curve_secret, base_point);
    let shared = x25519_dalek::x25519(receiver_curve_secret, controller_curve_public);
    let verify_key = labelled_16(b"Pair-Verify-AES-Key", &shared);
    let verify_iv = labelled_16(b"Pair-Verify-AES-IV", &shared);
    let mut signed = receiver_curve_public.to_vec();
    signed.extend_from_slice(&controller_curve_public);
    let mut challenge = receiver_signing_key.sign(&signed).to_bytes();
    Ctr::new(&verify_key.into(), &verify_iv.into()).apply_keystream(&mut challenge);
    let mut verify_reply = receiver_curve_public.to_vec();
    verify_reply.extend_from_slice(&challenge);
    let verify_finish = sent(pairing.on_response(&reply(200, verify_reply)).unwrap());
    requests.push(first_line(&verify_finish));

    assert_eq!(verify_finish.body.len(), 68);
    assert_eq!(&verify_finish.body[..4], &[0, 0, 0, 0]);
    let mut keystream = Ctr::new(&verify_key.into(), &verify_iv.into());
    let mut skipped = challenge;
    keystream.apply_keystream(&mut skipped);
    let mut controller_signature = [0u8; 64];
    controller_signature.copy_from_slice(&verify_finish.body[4..68]);
    keystream.apply_keystream(&mut controller_signature);
    let mut controller_signed = controller_curve_public.to_vec();
    controller_signed.extend_from_slice(&receiver_curve_public);
    let mut controller_ltpk_bytes = [0u8; 32];
    controller_ltpk_bytes.copy_from_slice(&controller_ltpk);
    VerifyingKey::from_bytes(&controller_ltpk_bytes)
        .unwrap()
        .verify(&controller_signed, &Signature::from_bytes(&controller_signature))
        .unwrap();

    let credentials = match pairing.on_response(&reply(200, Vec::new())).unwrap() {
        LegacyPairingAction::Paired(credentials) => credentials,
        other => panic!("expected credentials, got {other:?}"),
    };
    assert_eq!(credentials.auth_flow, ReceiverAuthFlow::LegacyPin);
    assert_eq!(credentials.controller_pairing_id, user);
    assert_eq!(credentials.receiver_pairing_id, "receiver-id");
    assert_eq!(credentials.receiver_ltpk_hex.len(), 64);
    assert_eq!(credentials.receiver_ltpk_hex, hex::encode(receiver_ltpk));
    assert_eq!(credentials.controller_ltpk_hex.len(), 64);
    assert_eq!(credentials.controller_ltpk_hex, hex::encode(&controller_ltpk));
    assert_eq!(credentials.controller_ltsk_hex.len(), 64);
    assert_eq!(pairing.step, LegacyPairingStep::Done);

    assert_eq!(requests.len(), 7);
    assert!(requests[0].starts_with("GET /info RTSP/1.0"));
    assert!(requests[1].starts_with("POST /pair-pin-start RTSP/1.0"));
    assert!(requests[2].starts_with("POST /pair-setup-pin RTSP/1.0"));
    assert!(requests[3].starts_with("POST /pair-setup-pin RTSP/1.0"));
    assert!(requests[4].starts_with("POST /pair-setup-pin RTSP/1.0"));
    assert!(requests[5].starts_with("POST /pair-verify RTSP/1.0"));
    assert!(requests[6].starts_with("POST /pair-verify RTSP/1.0"));
}

fn pairing_at_srp(pin: &str) -> LegacyPairing {
    let descriptor = descriptor(ReceiverKind::ModernAirPlayAuth, None);
    let (mut pairing, _) = ModernAirPlaySession::connect(&descriptor).unwrap().pair_with_pin(pin).unwrap();
    pairing.on_response(&reply(200, Vec::new())).unwrap();
    pairing.on_response(&reply(200, Vec::new())).unwrap();
    pairing
}

#[test]
fn pin_pairing_trims_the_pin_and_refuses_an_empty_one() {
    let descriptor = descriptor(ReceiverKind::ModernAirPlayAuth, None);
    let session = ModernAirPlaySession::connect(&descriptor).unwrap();
    let (mut blank, action) = session.clone().pair_with_pin("   ").unwrap();
    assert_eq!(first_line(&sent(action)), "GET /info RTSP/1.0");
    let error = blank.on_response(&reply(200, Vec::new())).unwrap_err();
    assert!(matches!(error, AirPlayError::AuthenticationFailed { .. }));
    assert_eq!(blank.step, LegacyPairingStep::AwaitInfo);

    let (pairing, action) = session.pair_with_pin(" 4321\n").unwrap();
    assert_eq!(pairing.pin, "4321");
    assert_eq!(pairing.step, LegacyPairingStep::AwaitInfo);
    assert_eq!(first_line(&sent(action)), "GET /info RTSP/1.0");
}

#[test]
fn classic_receiver_has_no_pin_pairing() {
    let prepared = PreparedTransportSession::prepare(&descriptor(ReceiverKind::ClassicRaop, None)).unwrap();
    assert_eq!(prepared.pair_with_pin("1234").unwrap_err(), AirPlayError::AuthenticationRequired);

    let prepared = PreparedTransportSession::prepare(&descriptor(ReceiverKind::ModernAirPlayAuth, None)).unwrap();
    let (pairing, _) = prepared.pair_with_pin("1234").unwrap();
    assert_eq!(pairing.step, LegacyPairingStep::AwaitInfo);
}

#[test]
fn pin_pairing_maps_failures_and_keeps_its_state() {
    let descriptor = descriptor(ReceiverKind::ModernAirPlayAuth, None);
    let (mut pairing, _) = ModernAirPlaySession::connect(&descriptor).unwrap().pair_with_pin("1234").unwrap();
    pairing.on_response(&reply(200, Vec::new())).unwrap();
    let before = pairing.clone();
    let error = pairing.on_response(&reply(470, Vec::new())).unwrap_err();
    assert_eq!(error, AirPlayError::PairingRequired);
    assert_eq!(pairing, before);

    let mut pairing = pairing_at_srp("1234");
    let error = pairing.on_response(&reply(200, plist_data(&[("salt", vec![1, 2])]))).unwrap_err();
    assert!(matches!(error, AirPlayError::Protocol { .. }));
    assert_eq!(pairing.step, LegacyPairingStep::AwaitSetupPinStart);

    let before = pairing.clone();
    let error =
        pairing.on_response(&reply(200, plist_data(&[("salt", vec![1, 2]), ("pk", vec![3; 257])]))).unwrap_err();
    assert!(matches!(error, AirPlayError::AuthenticationFailed { .. }));
    assert_eq!(pairing, before);

    let error = pairing.on_response(&reply(200, plist_data(&[("salt", vec![1, 2]), ("pk", Vec::new())]))).unwrap_err();
    assert!(matches!(error, AirPlayError::AuthenticationFailed { .. }));
    assert_eq!(pairing, before);
}

#[test]
fn pin_pairing_is_over_once_paired() {
    let descriptor = descriptor(ReceiverKind::ModernAirPlayAuth, None);
    let (mut pairing, _) = ModernAirPlaySession::connect(&descriptor).unwrap().pair_with_pin("1234").unwrap();
    pairing.step = LegacyPairingStep::Done;
    assert_eq!(pairing.on_response(&reply(200, Vec::new())).unwrap_err(), AirPlayError::NotReady);
}

#[test]
fn pin_pairing_rejects_a_wrong_server_proof() {
    let mut pairing = pairing_at_srp("1234");
    let setup_verify =
        sent(pairing.on_response(&reply(200, plist_data(&[("salt", vec![1, 2]), ("pk", vec![3, 4])]))).unwrap());
    let fields = plist_dictionary(&setup_verify.body);
    assert_eq!(data_field(&fields, "pk").len(), 256);
    assert_eq!(data_field(&fields, "proof").len(), 20);
    assert!(matches!(pairing.step, LegacyPairingStep::AwaitSetupPinVerify { .. }));
    let before = pairing.clone();

    let error = pairing.on_response(&reply(200, plist_data(&[("proof", vec![0; 20])]))).unwrap_err();

    assert!(matches!(error, AirPlayError::AuthenticationFailed { .. }));
    assert_eq!(pairing, before);
}

#[test]
fn srp_public_values_are_left_padded_to_the_group_size() {
    let padded = left_pad_legacy_srp_public(&[1, 2, 3]).unwrap();
    assert_eq!(padded.len(), 256);
    assert!(padded[..253].iter().all(|byte| *byte == 0));
    assert_eq!(&padded[253..], &[1, 2, 3]);
    assert_eq!(left_pad_legacy_srp_public(&[7; 256]).unwrap(), vec![7; 256]);
    let error = left_pad_legacy_srp_public(&[7; 257]).unwrap_err();
    assert!(matches!(error, AirPlayError::AuthenticationFailed { .. }));
}

#[test]
fn pair_setup_keys_come_from_sha_digests() {
    let premaster_secret = [0x42_u8; 256];
    let session_key = derive_legacy_pair_setup_session_key(&premaster_secret);
    assert_eq!(session_key.len(), 40);
    assert_eq!(session_key, session_key_of(&premaster_secret));

    let (key, iv) = derive_legacy_pair_setup_key_iv(&session_key);
    assert_eq!(key, labelled_16(b"Pair-Setup-AES-Key", &session_key));
    assert_eq!(iv, plus_one(labelled_16(b"Pair-Setup-AES-IV", &session_key)));
    assert_ne!(iv, labelled_16(b"Pair-Setup-AES-IV", &session_key));
}

#[test]
fn pair_setup_public_keys_are_sealed_with_successive_nonces() {
    let session_key = vec![0x24_u8; 40];
    let controller_ltpk = [0x11_u8; 32];
    let sealed = encrypt_legacy_pair_setup_public_key(&session_key, &controller_ltpk).unwrap();
    assert_eq!(sealed.ciphertext.len(), 32);
    assert_ne!(sealed.ciphertext, controller_ltpk.to_vec());

    let key = labelled_16(b"Pair-Setup-AES-Key", &session_key);
    let nonce = plus_one(labelled_16(b"Pair-Setup-AES-IV", &session_key));
    let cipher = Gcm16::new_from_slice(&key).unwrap();
    let mut opened = sealed.ciphertext.clone();
    cipher
        .decrypt_in_place_detached(
            aes_gcm::Nonce::<aes::cipher::consts::U16>::from_slice(&nonce),
            b"",
            &mut opened,
            aes_gcm::Tag::<aes::cipher::consts::U16>::from_slice(&sealed.tag),
        )
        .unwrap();
    assert_eq!(opened, controller_ltpk.to_vec());

    let receiver_ltpk = [0x22_u8; 32];
    let mut sealed_receiver = receiver_ltpk.to_vec();
    let tag = cipher
        .encrypt_in_place_detached(
            aes_gcm::Nonce::<aes::cipher::consts::U16>::from_slice(&plus_one(nonce)),
            b"",
            &mut sealed_receiver,
        )
        .unwrap();
    let mut tag_bytes = [0u8; 16];
    tag_bytes.copy_from_slice(&tag);
    assert_eq!(decrypt_legacy_pair_setup_public_key(&session_key, &sealed_receiver, &tag_bytes).unwrap(), receiver_ltpk);

    tag_bytes[0] ^= 1;
    let error = decrypt_legacy_pair_setup_public_key(&session_key, &sealed_receiver, &tag_bytes).unwrap_err();
    assert!(matches!(error, AirPlayError::AuthenticationFailed { .. }));
}

#[test]
fn pair_setup_exchange_reply_needs_a_sixteen_byte_tag() {
    let body = plist_data(&[("epk", vec![0; 32]), ("authTag", vec![0; 15])]);
    let error = map_pair_setup_pin_exchange_response(&reply(200, body), &[1; 40]).unwrap_err();
    assert!(matches!(error, AirPlayError::Protocol { .. }));

    let error = map_pair_setup_pin_exchange_response(&reply(200, plist_data(&[("epk", vec![0; 32])])), &[1; 40])
        .unwrap_err();
    assert!(matches!(error, AirPlayError::Protocol { .. }));
}

#[test]
fn server_proof_is_sha1_of_public_value_proof_and_key() {
    let mut hasher = Sha1::new();
    hasher.update([1u8, 2]);
    hasher.update([3u8]);
    hasher.update([4u8, 5, 6]);
    let proof = hasher.finalize().to_vec();
    assert_eq!(verify_legacy_pair_setup_server_proof(&[1, 2], &[3], &[4, 5, 6], &proof), Ok(()));
    let error = verify_legacy_pair_setup_server_proof(&[1, 2], &[3], &[4, 5, 7], &proof).unwrap_err();
    assert!(matches!(error, AirPlayError::AuthenticationFailed { .. }));
}

#[test]
fn pair_setup_fields_may_be_base64_text() {
    let mut dictionary = plist::Dictionary::new();
    dictionary.insert(String::from("salt"), plist::Value::String(String::from("AQID")));
    dictionary.insert(String::from("pk"), plist::Value::String(String::from("BAU")));
    let mut body = Vec::new();
    plist::Value::Dictionary(dictionary).to_writer_binary(&mut body).unwrap();

    let (salt, public_key) = map_pair_setup_pin_start_response(&reply(200, body)).unwrap();

    assert_eq!(salt, vec![1, 2, 3]);
    assert_eq!(public_key, vec![4, 5]);

    let mut dictionary = plist::Dictionary::new();
    dictionary.insert(String::from("salt"), plist::Value::String(String::from("not base64!")));
    dictionary.insert(String::from("pk"), plist::Value::Data(vec![1]));
    let mut body = Vec::new();
    plist::Value::Dictionary(dictionary).to_writer_binary(&mut body).unwrap();
    let error = map_pair_setup_pin_start_response(&reply(200, body)).unwrap_err();
    assert!(matches!(error, AirPlayError::Protocol { .. }));
}

#[test]
fn srp_step_refuses_exactly_the_values_that_vanish_modulo_the_prime() {
    let modulus = G_2048.n.to_bytes_be();

    let mut pairing = pairing_at_srp("1234");
    let before = pairing.clone();
    let error = pairing.on_response(&reply(200, plist_data(&[("salt", vec![1, 2]), ("pk", modulus)]))).unwrap_err();
    assert!(matches!(error, AirPlayError::AuthenticationFailed { .. }));
    assert_eq!(pairing, before);

    let action = pairing.on_response(&reply(200, plist_data(&[("salt", vec![1, 2]), ("pk", vec![5])]))).unwrap();
    assert_eq!(first_line(&sent(action)), "POST /pair-setup-pin RTSP/1.0");
    assert!(matches!(pairing.step, LegacyPairingStep::AwaitSetupPinVerify { .. }));
}
