use rairstream::error::AirPlayError;
use rairstream::model::{
    AirPlayGeneration, AudioFormat, DeviceSupport, ReceiverAuthFlow, ReceiverCredentials, ReceiverKind, SessionDescriptor,
    SpeakerDevice,
};
use rairstream::modern::{ModernHandshake, ModernHandshakeAction, ModernHandshakeStep};
use rairstream::pair_verify::{decode_mdns_public_key, decode_receiver_credentials, hex_decode, hex_encode};
use rairstream::pairing::{
    build_auth_setup_body, build_legacy_pair_verify_start_body, build_pair_verify_start_body, build_prefixed_nonce,
    decode_fixed_32, increment_big_endian_counter, map_legacy_pair_verify_start_response,
    map_pair_verify_finish_response, map_pair_verify_start_response,
};
use rairstream::rtsp::{RtspHeaders, RtspMethod, RtspResponse, RtspStatus, SetupTransport};
use rairstream::session::{
    compute_rtsp_keepalive_interval, format_response_status, ModernAirPlaySession, RaopHandshake, RaopHandshakeAction,
    RaopSession, RaopSessionState, RtspKeepalive,
};
use rairstream::tlv::{PairingTlv, PAIRING_TLV_ERROR, PAIRING_TLV_PUBLIC_KEY, PAIRING_TLV_STATE};

fn device(port: u16, receiver_kind: ReceiverKind) -> SpeakerDevice {
    SpeakerDevice {
        id: String::from("speaker"),
        name: String::from("Speaker"),
        host: String::from("127.0.0.1"),
        port,
        generation: AirPlayGeneration::AirPlay1,
        pairing_id: None,
        receiver_public_key: None,
        receiver_kind,
        support: DeviceSupport::Supported,
    }
}

fn response(raw: &str) -> RtspResponse {
    RtspResponse::parse(raw).unwrap()
}

fn response_with_body(code: u16, body: Vec<u8>) -> RtspResponse {
    RtspResponse { status: RtspStatus { code, reason_phrase: String::from("X") }, headers: RtspHeaders::new(), body }
}

fn request_of(action: &RaopHandshakeAction) -> String {
    match action {
        RaopHandshakeAction::Send(r) | RaopHandshakeAction::StartTimingThenSend(r) => {
            String::from_utf8(r.encode()).unwrap()
        }
        RaopHandshakeAction::Established { .. } => String::new(),
    }
}

// ---------------------------------------------------------------------------
// RAOP handshake

#[test]
fn handshake_runs_rtsp_flow_with_dynamic_udp_ports() {
    let descriptor = SessionDescriptor::new(device(7000, ReceiverKind::ClassicRaop), AudioFormat::default());
    let session = RaopSession::connect(&descriptor).unwrap();
    let expected_audio_ssrc = session.audio_ssrc();
    let expected_packet_counters = session.packet_counters();
    let local_control_port = 50123;
    let transport = SetupTransport { control_port: local_control_port, timing_port: 50124 };

    let (mut handshake, first) = RaopHandshake::start(session, transport, None);
    let mut requests = vec![request_of(&first)];
    let replies = [
        "RTSP/1.0 200 OK\r\nCSeq: 1\r\n\r\n",
        "RTSP/1.0 200 OK\r\nCSeq: 2\r\n\r\n",
        "RTSP/1.0 200 OK\r\nTransport: RTP/AVP/UDP;unicast;mode=record;server_port=5100;control_port=5101;timing_port=5102\r\nSession: deadbeef;timeout=60\r\n\r\n",
        "RTSP/1.0 200 OK\r\nSession: deadbeef\r\n\r\n",
    ];
    let mut established = None;
    for (i, reply) in replies.iter().enumerate() {
        let action = handshake.on_response(&response(reply)).unwrap();
        if i == 1 {
            assert!(matches!(action, RaopHandshakeAction::StartTimingThenSend(_)));
        }
        match action {
            RaopHandshakeAction::Established { .. } => established = Some(action),
            other => requests.push(request_of(&other)),
        }
    }

    assert_eq!(requests.len(), 4);
    assert!(requests[0].starts_with("OPTIONS "));
    assert!(requests[1].starts_with("ANNOUNCE "));
    assert!(requests[2].starts_with("SETUP "));
    assert!(requests[3].starts_with("RECORD "));
    assert!(requests[2].contains("control_port="));
    assert!(!requests[2].contains("control_port=6001"));
    assert!(requests[2].contains(&format!("control_port={local_control_port}")));
    assert_eq!(
        established,
        Some(RaopHandshakeAction::Established {
            session_id: String::from("deadbeef"),
            keepalive_interval_secs: 30,
            server_port: 5100,
            control_port: 5101,
            cseq: 4,
        })
    );
    assert_eq!(handshake.session.state(), RaopSessionState::Streaming);
    assert_eq!(handshake.session.audio_ssrc(), expected_audio_ssrc);
    assert_eq!(handshake.session.packet_counters(), expected_packet_counters);

    let mut keepalive = RtspKeepalive::new(descriptor, String::from("deadbeef"), 4);
    let teardown = String::from_utf8(keepalive.teardown_request().encode()).unwrap();
    assert!(teardown.starts_with("TEARDOWN "));
    assert!(teardown.contains("CSeq: 5\r\n"));
}

#[test]
fn handshake_maps_authentication_failure() {
    let descriptor = SessionDescriptor::new(device(7000, ReceiverKind::ClassicRaop), AudioFormat::default());
    let session = RaopSession::connect(&descriptor).unwrap();
    let (mut handshake, _) = RaopHandshake::start(session, SetupTransport { control_port: 1, timing_port: 2 }, None);

    let error = handshake.on_response(&response("RTSP/1.0 401 Unauthorized\r\n\r\n")).unwrap_err();

    assert_eq!(error, AirPlayError::AuthenticationRequired);
}

#[test]
fn handshake_rejects_setup_reply_without_transport_and_finished_handshake() {
    let descriptor = SessionDescriptor::new(device(7000, ReceiverKind::ClassicRaop), AudioFormat::default());
    let session = RaopSession::connect(&descriptor).unwrap();
    let (mut handshake, _) = RaopHandshake::start(session, SetupTransport { control_port: 1, timing_port: 2 }, None);
    handshake.on_response(&RtspResponse::success(200)).unwrap();
    handshake.on_response(&RtspResponse::success(200)).unwrap();
    let before = handshake.clone();

    let error = handshake.on_response(&response("RTSP/1.0 200 OK\r\nSession: 1\r\n\r\n")).unwrap_err();

    assert!(matches!(error, AirPlayError::Protocol { .. }));
    assert_eq!(handshake, before);
}

#[test]
fn keepalive_interval_and_reply_checks() {
    assert_eq!(compute_rtsp_keepalive_interval(None), 30);
    assert_eq!(compute_rtsp_keepalive_interval(Some(60)), 30);
    assert_eq!(compute_rtsp_keepalive_interval(Some(20)), 15);
    assert_eq!(compute_rtsp_keepalive_interval(Some(10)), 9);
    assert_eq!(compute_rtsp_keepalive_interval(Some(1)), 1);
    assert!(RtspKeepalive::check_keepalive_response(&RtspResponse::success(200)).is_ok());
    assert_eq!(
        RtspKeepalive::check_teardown_response(&response_with_body(403, Vec::new())),
        Err(AirPlayError::AuthenticationRequired)
    );
    assert_eq!(format_response_status("OPTIONS", &RtspResponse::success(200)), "OPTIONS -> 200 OK");
}

// ---------------------------------------------------------------------------
// AirPlay 2 authentication

fn modern_descriptor(credentials: Option<ReceiverCredentials>) -> SessionDescriptor {
    let mut descriptor = SessionDescriptor::new(device(7000, ReceiverKind::ModernAirPlayAuth), AudioFormat::default());
    descriptor.receiver_credentials = credentials;
    descriptor
}

fn first_line(action: &ModernHandshakeAction) -> String {
    match action {
        ModernHandshakeAction::Send(r) => {
            let text = String::from_utf8_lossy(&r.encode()).to_string();
            text.lines().next().unwrap().to_string()
        }
        ModernHandshakeAction::Authenticated { .. } => String::new(),
    }
}

#[test]
fn modern_handshake_maps_info_status_to_pairing_required() {
    let session = ModernAirPlaySession::connect(&modern_descriptor(None)).unwrap();
    let (mut handshake, info) = ModernHandshake::start(session);
    let probe = handshake.on_response(&response("RTSP/1.0 401 Unauthorized\r\nCSeq: 1\r\n\r\n")).unwrap();

    let error = handshake.on_response(&response("RTSP/1.0 200 OK\r\nCSeq: 2\r\n\r\n")).unwrap_err();

    assert_eq!(error, AirPlayError::PairingRequired);
    assert_eq!(first_line(&info), "GET /info RTSP/1.0");
    assert_eq!(first_line(&probe), "POST /pair-pin-start RTSP/1.0");
}

#[test]
fn pair_pin_start_470_is_treated_as_pairing_required_in_handshake() {
    let session = ModernAirPlaySession::connect(&modern_descriptor(None)).unwrap();
    let (mut handshake, _) = ModernHandshake::start(session);
    handshake.on_response(&response("RTSP/1.0 200 OK\r\nCSeq: 1\r\n\r\n")).unwrap();

    let error = handshake
        .on_response(&response("RTSP/1.0 470 Connection Authorization Required\r\nCSeq: 2\r\n\r\n"))
        .unwrap_err();

    assert_eq!(error, AirPlayError::PairingRequired);
}

#[test]
fn modern_handshake_without_credentials_probes_pair_pin_start_even_if_info_returns_ok() {
    let session = ModernAirPlaySession::connect(&modern_descriptor(None)).unwrap();
    let (mut handshake, info) = ModernHandshake::start(session);
    let probe = handshake.on_response(&response("RTSP/1.0 200 OK\r\nCSeq: 1\r\n\r\n")).unwrap();

    let error = handshake.on_response(&response("RTSP/1.0 200 OK\r\nCSeq: 2\r\n\r\n")).unwrap_err();

    assert_eq!(error, AirPlayError::PairingRequired);
    assert_eq!(first_line(&info), "GET /info RTSP/1.0");
    assert_eq!(first_line(&probe), "POST /pair-pin-start RTSP/1.0");
}

fn stored_credentials(controller_public_hex: &str) -> ReceiverCredentials {
    ReceiverCredentials {
        auth_flow: ReceiverAuthFlow::Modern,
        controller_pairing_id: String::from("controller"),
        controller_ltpk_hex: controller_public_hex.to_string(),
        controller_ltsk_hex: "11".repeat(32),
        receiver_pairing_id: String::from("receiver"),
        receiver_ltpk_hex: "22".repeat(32),
    }
}

#[test]
fn modern_handshake_with_mismatched_keys_is_an_invalid_session() {
    let session = ModernAirPlaySession::connect(&modern_descriptor(Some(stored_credentials(&"33".repeat(32))))).unwrap();
    let (mut handshake, _) = ModernHandshake::start(session);
    let before = handshake.clone();

    let error = handshake.on_response(&response("RTSP/1.0 200 OK\r\nCSeq: 1\r\n\r\n")).unwrap_err();

    assert!(matches!(error, AirPlayError::InvalidSession { .. }));
    assert_eq!(handshake, before);
    assert_eq!(handshake.step, ModernHandshakeStep::AwaitInfo);
}

#[test]
fn modern_handshake_with_credentials_maps_info_rejections() {
    let session = ModernAirPlaySession::connect(&modern_descriptor(Some(stored_credentials(&"33".repeat(32))))).unwrap();
    let (handshake, _) = ModernHandshake::start(session);

    let mut unauthorized = handshake.clone();
    assert_eq!(unauthorized.on_response(&response_with_body(401, Vec::new())), Err(AirPlayError::PairingRequired));
    let mut forbidden = handshake.clone();
    assert!(matches!(
        forbidden.on_response(&response_with_body(403, Vec::new())),
        Err(AirPlayError::AuthenticationFailed { .. })
    ));
    let mut odd = handshake;
    assert!(matches!(odd.on_response(&response_with_body(500, Vec::new())), Err(AirPlayError::Protocol { .. })));
}

#[test]
fn stored_credentials_decode_only_when_keys_agree() {
    let bad = stored_credentials(&"33".repeat(32));
    assert!(matches!(
        decode_receiver_credentials(&bad, &device(7000, ReceiverKind::ModernAirPlayAuth)),
        Err(AirPlayError::InvalidSession { .. })
    ));
    let mut not_hex = stored_credentials(&"33".repeat(32));
    not_hex.controller_ltsk_hex = String::from("zz");
    assert!(matches!(
        decode_receiver_credentials(&not_hex, &device(7000, ReceiverKind::ModernAirPlayAuth)),
        Err(AirPlayError::InvalidSession { .. })
    ));
}

// ---------------------------------------------------------------------------
// pairing messages

#[test]
fn tlv_encode_then_parse_gives_items_back() {
    let mut tlv = PairingTlv::new();
    tlv.push(PAIRING_TLV_STATE, &[2]);
    let long: Vec<u8> = (0..600_u32).map(|i| (i % 251) as u8).collect();
    tlv.push(PAIRING_TLV_PUBLIC_KEY, &long);
    tlv.push(PAIRING_TLV_ERROR, &[]);

    let encoded = tlv.encode();

    assert_eq!(&encoded[..3], &[PAIRING_TLV_STATE, 1, 2]);
    assert_eq!(encoded.len(), 3 + (2 + 255) * 2 + (2 + 90) + 2);
    assert_eq!(encoded[3 + 1], 255);
    let parsed = PairingTlv::parse(&encoded).unwrap();
    assert_eq!(parsed, tlv);
    assert_eq!(parsed.get(PAIRING_TLV_PUBLIC_KEY), Some(long.as_slice()));
    assert_eq!(parsed.require_byte(PAIRING_TLV_STATE, "state"), Ok(2));
    assert!(matches!(parsed.require_byte(PAIRING_TLV_PUBLIC_KEY, "pk"), Err(AirPlayError::Protocol { .. })));
    assert!(matches!(parsed.require(0x09, "missing"), Err(AirPlayError::Protocol { .. })));
}

#[test]
fn tlv_parse_rejects_cut_short_data() {
    assert!(matches!(PairingTlv::parse(&[6]), Err(AirPlayError::Protocol { .. })));
    assert!(matches!(PairingTlv::parse(&[6, 3, 1]), Err(AirPlayError::Protocol { .. })));
    assert_eq!(PairingTlv::parse(&[]).unwrap(), PairingTlv::new());
}

#[test]
fn pair_verify_messages_have_their_layouts() {
    let key = [7_u8; 32];
    let start = build_pair_verify_start_body(&key);
    assert_eq!(&start[..5], &[PAIRING_TLV_STATE, 1, 1, PAIRING_TLV_PUBLIC_KEY, 32]);
    assert_eq!(&start[5..], &key);

    let auth = build_auth_setup_body(&key);
    assert_eq!(auth[0], 1);
    assert_eq!(&auth[1..], &key);

    let legacy = build_legacy_pair_verify_start_body(&[1; 32], &[2; 32]);
    assert_eq!(&legacy[..4], &[1, 0, 0, 0]);
    assert_eq!(legacy.len(), 68);
    assert_eq!(legacy[67], 2);

    assert_eq!(build_prefixed_nonce(b"PV-Msg02").unwrap()[4..], *b"PV-Msg02");
    assert_eq!(build_prefixed_nonce(b"PV-Msg02").unwrap()[..4], [0, 0, 0, 0]);
    assert!(matches!(build_prefixed_nonce(&[0; 9]), Err(AirPlayError::Protocol { .. })));
    assert!(matches!(decode_fixed_32(&[0; 31], "key"), Err(AirPlayError::Protocol { .. })));
}

#[test]
fn pair_verify_replies_are_read() {
    let mut tlv = PairingTlv::new();
    tlv.push(PAIRING_TLV_STATE, &[2]);
    tlv.push(PAIRING_TLV_PUBLIC_KEY, &[9; 32]);
    tlv.push(0x05, &[1, 2, 3]);
    let reply = map_pair_verify_start_response(&response_with_body(200, tlv.encode())).unwrap();
    assert_eq!(reply.public_key, [9; 32]);
    assert_eq!(reply.encrypted_data, vec![1, 2, 3]);

    let mut failed = PairingTlv::new();
    failed.push(PAIRING_TLV_ERROR, &[2]);
    assert!(matches!(
        map_pair_verify_start_response(&response_with_body(200, failed.encode())),
        Err(AirPlayError::AuthenticationFailed { .. })
    ));
    assert_eq!(
        map_pair_verify_start_response(&response_with_body(470, Vec::new())),
        Err(AirPlayError::PairingRequired)
    );

    let mut finish = PairingTlv::new();
    finish.push(PAIRING_TLV_STATE, &[4]);
    assert!(map_pair_verify_finish_response(&response_with_body(200, finish.encode())).is_ok());
    let mut wrong = PairingTlv::new();
    wrong.push(PAIRING_TLV_STATE, &[3]);
    assert!(matches!(
        map_pair_verify_finish_response(&response_with_body(200, wrong.encode())),
        Err(AirPlayError::Protocol { .. })
    ));

    let mut legacy_body = vec![5_u8; 32];
    legacy_body.extend_from_slice(&[6_u8; 64]);
    let legacy = map_legacy_pair_verify_start_response(&response_with_body(200, legacy_body)).unwrap();
    assert_eq!(legacy.public_key, [5; 32]);
    assert_eq!(legacy.challenge, [6; 64]);
    assert!(matches!(
        map_legacy_pair_verify_start_response(&response_with_body(200, vec![0; 95])),
        Err(AirPlayError::Protocol { .. })
    ));
}

#[test]
fn counter_increment_carries_and_wraps() {
    let mut counter = [0_u8; 16];
    counter[15] = 0xff;
    counter[14] = 0x01;
    increment_big_endian_counter(&mut counter);
    assert_eq!(counter[14], 0x02);
    assert_eq!(counter[15], 0x00);

    let mut all = [0xff_u8; 16];
    increment_big_endian_counter(&mut all);
    assert_eq!(all, [0; 16]);
}

#[test]
fn hex_round_trip_and_mdns_keys() {
    assert_eq!(hex_decode("00ff10Ab"), Some(vec![0x00, 0xff, 0x10, 0xab]));
    assert_eq!(hex_decode("abc"), None);
    assert_eq!(hex_decode("zz"), None);
    assert_eq!(hex_encode(&[0x00, 0xff, 0x10, 0xab]), "00ff10ab");

    let hex_key = "ab".repeat(32);
    assert_eq!(decode_mdns_public_key(&hex_key).unwrap(), [0xab; 32]);
    let base64_key = "q6urq6urq6urq6urq6urq6urq6urq6urq6urq6urq6s=";
    assert_eq!(decode_mdns_public_key(base64_key).unwrap(), [0xab; 32]);
    let unpadded_key = "q6urq6urq6urq6urq6urq6urq6urq6urq6urq6urq6s";
    assert_eq!(decode_mdns_public_key(unpadded_key).unwrap(), [0xab; 32]);
    assert!(matches!(decode_mdns_public_key("abcd"), Err(AirPlayError::InvalidSession { .. })));
    assert!(matches!(decode_mdns_public_key("!!"), Err(AirPlayError::InvalidSession { .. })));
}

#[test]
fn modern_request_builders_name_the_pairing_endpoints() {
    let session = ModernAirPlaySession::connect(&modern_descriptor(None)).unwrap();
    let mut session = session;
    let pin_start = session.pair_pin_start_request();
    let pin = session.pair_setup_pin_request(&[1, 2]);
    let auth = session.auth_setup_request(&[3]);

    assert_eq!(pin_start.method, RtspMethod::Post);
    assert_eq!(pin_start.uri, "/pair-pin-start");
    assert_eq!(pin.uri, "/pair-setup-pin");
    assert_eq!(pin.headers.get("Content-Type"), Some("application/x-apple-binary-plist"));
    assert_eq!(auth.uri, "/auth-setup");
    assert_eq!(auth.headers.get("CSeq"), Some("3"));
}
