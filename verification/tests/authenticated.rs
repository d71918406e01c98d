use chacha20poly1305::aead::{Aead, KeyInit};
use chacha20poly1305::ChaCha20Poly1305;
use ctr::cipher::{KeyIvInit, StreamCipher};
use ed25519_dalek::{Signature, Signer, SigningKey, Verifier, VerifyingKey};
use hkdf::Hkdf;
use sha2::{Digest, Sha512};

use rairstream::model::{
    AirPlayGeneration, AudioFormat, DeviceSupport, ReceiverAuthFlow, ReceiverCredentials, ReceiverKind,
    SessionDescriptor, SpeakerDevice,
};
use rairstream::modern::{ModernHandshake, ModernHandshakeAction};
use rairstream::rtsp::{RtspHeaders, RtspRequest, RtspResponse, RtspStatus, SetupTransport};
use rairstream::session::{ModernAirPlaySession, RaopHandshake, RaopHandshakeAction, RaopSession, RtspKeepalive};
use rairstream::tlv::{
    PairingTlv, PAIRING_TLV_ENCRYPTED_DATA, PAIRING_TLV_IDENTIFIER, PAIRING_TLV_PUBLIC_KEY, PAIRING_TLV_SIGNATURE,
    PAIRING_TLV_STATE,
};

type Ctr = ctr::Ctr128BE<aes::Aes128>;

const RECEIVER_PAIRING_ID: &str = "receiver-id";

fn base_point() -> [u8; 32] {
    let mut point = [0u8; 32];
    point[0] = 9;
    point
}

fn descriptor(auth_flow: ReceiverAuthFlow, controller: &SigningKey, receiver_ltpk: [u8; 32]) -> SessionDescriptor {
    let mut descriptor = SessionDescriptor::new(
        SpeakerDevice {
            id: String::from("speaker"),
            name: String::from("Speaker"),
            host: String::from("127.0.0.1"),
            port: 7000,
            generation: AirPlayGeneration::AirPlay1,
            pairing_id: Some(RECEIVER_PAIRING_ID.to_string()),
            receiver_public_key: Some(hex::encode(receiver_ltpk)),
            receiver_kind: ReceiverKind::ModernAirPlayAuth,
            support: DeviceSupport::Supported,
        },
        AudioFormat::default(),
    );
    descriptor.receiver_credentials = Some(ReceiverCredentials {
        auth_flow,
        controller_pairing_id: String::from("controller-id"),
        controller_ltpk_hex: hex::encode(controller.verifying_key().to_bytes()),
        controller_ltsk_hex: hex::encode(controller.to_bytes()),
        receiver_pairing_id: RECEIVER_PAIRING_ID.to_string(),
        receiver_ltpk_hex: hex::encode(receiver_ltpk),
    });
    descriptor
}

fn reply(code: u16, body: Vec<u8>) -> RtspResponse {
    RtspResponse { status: RtspStatus { code, reason_phrase: String::from("X") }, headers: RtspHeaders::new(), body }
}

fn first_line(request: &RtspRequest) -> String {
    String::from_utf8_lossy(&request.encode()).lines().next().unwrap().to_string()
}

fn sent(action: ModernHandshakeAction) -> RtspRequest {
    match action {
        ModernHandshakeAction::Send(request) => request,
        other => panic!("expected a request, got {other:?}"),
    }
}

fn labelled_16(label: &[u8], secret: &[u8]) -> [u8; 16] {
    let mut hasher = Sha512::new();
    hasher.update(label);
    hasher.update(secret);
    let mut out = [0u8; 16];
    out.copy_from_slice(&hasher.finalize()[..16]);
    out
}

/// Continues with the RAOP handshake after authentication, as the same
/// connection would, and ends with TEARDOWN; gives the request lines and
/// the receiver's audio port.
fn continue_with_raop(descriptor: &SessionDescriptor, cseq: u32, requests: &mut Vec<String>) -> u16 {
    let session = RaopSession::connect(descriptor).unwrap().with_initial_cseq(cseq);
    let transport = SetupTransport { control_port: 50_001, timing_port: 50_002 };
    let (mut handshake, mut action) = RaopHandshake::start(session, transport, None);
    let replies = [
        "RTSP/1.0 200 OK\r\nCSeq: 5\r\n\r\n",
        "RTSP/1.0 200 OK\r\nCSeq: 6\r\n\r\n",
        "RTSP/1.0 200 OK\r\nTransport: RTP/AVP/UDP;unicast;mode=record;server_port=5200;control_port=5201;timing_port=5202\r\nSession: authbeef;timeout=60\r\n\r\n",
        "RTSP/1.0 200 OK\r\nSession: authbeef\r\n\r\n",
    ];
    for raw in replies {
        let request = match action {
            RaopHandshakeAction::Send(request) | RaopHandshakeAction::StartTimingThenSend(request) => request,
            other => panic!("expected a request, got {other:?}"),
        };
        requests.push(first_line(&request));
        action = handshake.on_response(&RtspResponse::parse(raw).unwrap()).unwrap();
    }
    match action {
        RaopHandshakeAction::Established { session_id, server_port, cseq, .. } => {
            let mut keepalive = RtspKeepalive::new(descriptor.clone(), session_id, cseq);
            requests.push(first_line(&keepalive.teardown_request()));
            server_port
        }
        other => panic!("expected the stream to be established, got {other:?}"),
    }
}

fn assert_authenticated_request_flow(requests: &[String]) {
    assert_eq!(requests.len(), 9);
    assert!(requests[0].starts_with("GET /info RTSP/1.0"));
    assert!(requests[1].starts_with("POST /pair-verify RTSP/1.0"));
    assert!(requests[2].starts_with("POST /pair-verify RTSP/1.0"));
    assert!(requests[3].starts_with("POST /auth-setup RTSP/1.0"));
    assert!(requests[4].starts_with("OPTIONS "));
    assert!(requests[5].starts_with("ANNOUNCE "));
    assert!(requests[6].starts_with("SETUP "));
    assert!(requests[7].starts_with("RECORD "));
    assert!(requests[8].starts_with("TEARDOWN "));
}

#[test]
fn modern_handshake_restores_authentication_and_continues_raop_flow() {
    let controller = SigningKey::from_bytes(&[0x31; 32]);
    let receiver = SigningKey::from_bytes(&[0x42; 32]);
    let descriptor = descriptor(ReceiverAuthFlow::Modern, &controller, receiver.verifying_key().to_bytes());
    let (mut handshake, info) = ModernHandshake::start(ModernAirPlaySession::connect(&descriptor).unwrap());
    let mut requests = vec![first_line(&sent(info))];

    let verify_start = sent(handshake.on_response(&reply(200, Vec::new())).unwrap());
    requests.push(first_line(&verify_start));
    let start_items = PairingTlv::parse(&verify_start.body).unwrap();
    assert_eq!(start_items.get(PAIRING_TLV_STATE), Some(&[1u8][..]));
    let mut controller_public = [0u8; 32];
    controller_public.copy_from_slice(start_items.get(PAIRING_TLV_PUBLIC_KEY).unwrap());

    let receiver_secret = [0x17_u8; 32];
    let receiver_public = x25519_dalek::x25519(receiver_secret, base_point());
    let shared = x25519_dalek::x25519(receiver_secret, controller_public);
    let mut verify_key = [0u8; 32];
    Hkdf::<Sha512>::new(Some(b"Pair-Verify-Encrypt-Salt"), &shared)
        .expand(b"Pair-Verify-Encrypt-Info", &mut verify_key)
        .unwrap();
    let mut signed = receiver_public.to_vec();
    signed.extend_from_slice(RECEIVER_PAIRING_ID.as_bytes());
    signed.extend_from_slice(&controller_public);
    let mut plaintext = PairingTlv::new();
    plaintext.push(PAIRING_TLV_IDENTIFIER, RECEIVER_PAIRING_ID.as_bytes());
    plaintext.push(PAIRING_TLV_SIGNATURE, &receiver.sign(&signed).to_bytes());
    let cipher = ChaCha20Poly1305::new_from_slice(&verify_key).unwrap();
    let mut nonce = [0u8; 12];
    nonce[4..].copy_from_slice(b"PV-Msg02");
    let encrypted = cipher.encrypt(chacha20poly1305::Nonce::from_slice(&nonce), plaintext.encode().as_slice()).unwrap();
    let mut start_reply = PairingTlv::new();
    start_reply.push(PAIRING_TLV_STATE, &[2]);
    start_reply.push(PAIRING_TLV_PUBLIC_KEY, &receiver_public);
    start_reply.push(PAIRING_TLV_ENCRYPTED_DATA, &encrypted);

    let verify_finish = sent(handshake.on_response(&reply(200, start_reply.encode())).unwrap());
    requests.push(first_line(&verify_finish));
    let finish_items = PairingTlv::parse(&verify_finish.body).unwrap();
    assert_eq!(finish_items.get(PAIRING_TLV_STATE), Some(&[3u8][..]));
    let mut proof_nonce = [0u8; 12];
    proof_nonce[4..].copy_from_slice(b"PV-Msg03");
    let proof = cipher
        .decrypt(
            chacha20poly1305::Nonce::from_slice(&proof_nonce),
            finish_items.get(PAIRING_TLV_ENCRYPTED_DATA).unwrap(),
        )
        .unwrap();
    let proof_items = PairingTlv::parse(&proof).unwrap();
    assert_eq!(proof_items.get(PAIRING_TLV_IDENTIFIER), Some("controller-id".as_bytes()));
    let mut controller_signed = controller_public.to_vec();
    controller_signed.extend_from_slice(b"controller-id");
    controller_signed.extend_from_slice(&receiver_public);
    let mut signature = [0u8; 64];
    signature.copy_from_slice(proof_items.get(PAIRING_TLV_SIGNATURE).unwrap());
    controller.verifying_key().verify(&controller_signed, &Signature::from_bytes(&signature)).unwrap();

    let mut finish_reply = PairingTlv::new();
    finish_reply.push(PAIRING_TLV_STATE, &[4]);
    let auth_setup = sent(handshake.on_response(&reply(200, finish_reply.encode())).unwrap());
    requests.push(first_line(&auth_setup));
    assert_eq!(auth_setup.body.len(), 33);
    assert_eq!(auth_setup.body[0], 1);

    let cseq = match handshake.on_response(&reply(200, Vec::new())).unwrap() {
        ModernHandshakeAction::Authenticated { cseq } => cseq,
        other => panic!("expected authentication, got {other:?}"),
    };
    assert_eq!(cseq, 4);
    assert_eq!(continue_with_raop(&descriptor, cseq, &mut requests), 5200);
    assert_authenticated_request_flow(&requests);
}

fn legacy_pin_flow(auth_setup_status: u16) -> (Vec<String>, u16) {
    let controller = SigningKey::from_bytes(&[0x51; 32]);
    let receiver = SigningKey::from_bytes(&[0x62; 32]);
    let descriptor = descriptor(ReceiverAuthFlow::LegacyPin, &controller, receiver.verifying_key().to_bytes());
    let (mut handshake, info) = ModernHandshake::start(ModernAirPlaySession::connect(&descriptor).unwrap());
    let mut requests = vec![first_line(&sent(info))];

    let verify_start = sent(handshake.on_response(&reply(200, Vec::new())).unwrap());
    requests.push(first_line(&verify_start));
    assert_eq!(verify_start.body.len(), 68);
    assert_eq!(&verify_start.body[..4], &[1, 0, 0, 0]);
    assert_eq!(&verify_start.body[36..], controller.verifying_key().to_bytes().as_slice());
    let mut controller_public = [0u8; 32];
    controller_public.copy_from_slice(&verify_start.body[4..36]);

    let receiver_secret = [0x23_u8; 32];
    let receiver_public = x25519_dalek::x25519(receiver_secret, base_point());
    let shared = x25519_dalek::x25519(receiver_secret, controller_public);
    let key = labelled_16(b"Pair-Verify-AES-Key", &shared);
    let iv = labelled_16(b"Pair-Verify-AES-IV", &shared);
    let mut signed = receiver_public.to_vec();
    signed.extend_from_slice(&controller_public);
    let mut challenge = receiver.sign(&signed).to_bytes();
    Ctr::new(&key.into(), &iv.into()).apply_keystream(&mut challenge);
    let mut start_reply = receiver_public.to_vec();
    start_reply.extend_from_slice(&challenge);

    let verify_finish = sent(handshake.on_response(&reply(200, start_reply)).unwrap());
    requests.push(first_line(&verify_finish));
    assert_eq!(verify_finish.body.len(), 68);
    assert_eq!(&verify_finish.body[..4], &[0, 0, 0, 0]);
    let mut keystream = Ctr::new(&key.into(), &iv.into());
    let mut skipped = challenge;
    keystream.apply_keystream(&mut skipped);
    let mut signature = [0u8; 64];
    signature.copy_from_slice(&verify_finish.body[4..]);
    keystream.apply_keystream(&mut signature);
    let mut controller_signed = controller_public.to_vec();
    controller_signed.extend_from_slice(&receiver_public);
    VerifyingKey::from_bytes(&controller.verifying_key().to_bytes())
        .unwrap()
        .verify(&controller_signed, &Signature::from_bytes(&signature))
        .unwrap();

    let auth_setup = sent(handshake.on_response(&reply(200, Vec::new())).unwrap());
    requests.push(first_line(&auth_setup));
    let cseq = match handshake.on_response(&reply(auth_setup_status, Vec::new())).unwrap() {
        ModernHandshakeAction::Authenticated { cseq } => cseq,
        other => panic!("expected authentication, got {other:?}"),
    };
    let audio_port = continue_with_raop(&descriptor, cseq, &mut requests);
    (requests, audio_port)
}

#[test]
fn legacy_pin_handshake_restores_authentication_and_continues_raop_flow() {
    let (requests, audio_port) = legacy_pin_flow(200);
    assert_eq!(audio_port, 5200);
    assert_authenticated_request_flow(&requests);
}

#[test]
fn legacy_pin_handshake_tolerates_auth_setup_not_found_and_continues_raop_flow() {
    let (requests, audio_port) = legacy_pin_flow(404);
    assert_eq!(audio_port, 5200);
    assert_authenticated_request_flow(&requests);
}
