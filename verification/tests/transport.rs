use rairstream::codec::{validate_input_format, CodecDescription};
use rairstream::error::AirPlayError;
use rairstream::model::{
    AirPlayGeneration, AudioFormat, AudioSampleType, DeviceSupport, ReceiverKind, SessionDescriptor, SpeakerDevice,
    RAOP_STARTUP_LATENCY_FRAMES, RAOP_STARTUP_LATENCY_MILLIS,
};
use rairstream::packet::{RaopPacketCounters, RaopSyncPacket, RtpAudioPacket};
use rairstream::rtsp::{
    build_announce_request, build_auth_setup_request, build_info_request, build_keepalive_request,
    build_options_request, build_pair_setup_request, build_pair_verify_request, build_record_request,
    build_session_uri, build_setup_request, build_teardown_request, parse_setup_reply, RtspHeaders, RtspMethod,
    RtspRequest, RtspResponse, RtspStatus, SetupTransport,
};
use rairstream::session::{
    map_pair_pin_start_response, ModernAirPlaySession, PreparedTransportSession, RaopSession, RaopSessionState,
};
use rairstream::sink::{RaopPacketizer, RaopSinkConfig};
use rairstream::timing::{build_timing_reply, build_timing_reply_at};

// ---------------------------------------------------------------------------
// packets

#[test]
fn packet_counters_peek_next_packet_without_advancing() {
    let counters = RaopPacketCounters::new(7, 11);

    assert_eq!(counters.peek_audio_packet(), (7, 11));
    assert_eq!(counters.peek_audio_packet(), (7, 11));
}

#[test]
fn packet_counters_advance_with_frame_count() {
    let mut counters = RaopPacketCounters::new(7, 11);

    assert_eq!(counters.allocate_audio_packet(352).unwrap(), (7, 11));
    assert_eq!(counters.allocate_audio_packet(352).unwrap(), (8, 363));
}

#[test]
fn packet_counters_wrap_sequence_number() {
    let mut counters = RaopPacketCounters::new(u16::MAX, 1);

    assert_eq!(counters.allocate_audio_packet(1).unwrap(), (u16::MAX, 1));
    assert_eq!(counters.allocate_audio_packet(1).unwrap(), (0, 2));
}

#[test]
fn rtp_audio_packet_encode_writes_standard_header() {
    let packet = RtpAudioPacket {
        marker: true,
        sequence: 0x1234,
        timestamp: 0x0102_0304,
        payload_type: 96,
        ssrc: 0x5566_7788,
        payload: vec![1, 2, 3, 4],
    };

    let bytes = packet.encode();

    assert_eq!(bytes[..12], [0x80, 0xe0, 0x12, 0x34, 0x01, 0x02, 0x03, 0x04, 0x55, 0x66, 0x77, 0x88]);
    assert_eq!(&bytes[12..], &[1, 2, 3, 4]);
}

#[test]
fn sync_packet_encode_writes_short_raop_header() {
    let packet = RaopSyncPacket {
        first_packet_in_stream: true,
        sequence: 0x1234,
        ntp_timestamp: 0x0102_0304_0506_0708,
        rtp_timestamp: 0x1112_1314,
        next_rtp_timestamp: 0x2122_2324,
    };

    let bytes = packet.encode();

    assert_eq!(bytes[0], 0x90);
    assert_eq!(bytes[1], 0xd4);
    assert_eq!(&bytes[2..4], &[0x12, 0x34]);
    assert_eq!(&bytes[4..8], &[0x11, 0x12, 0x13, 0x14]);
    assert_eq!(&bytes[8..16], &[1, 2, 3, 4, 5, 6, 7, 8]);
    assert_eq!(&bytes[16..20], &[0x21, 0x22, 0x23, 0x24]);
}

#[test]
fn rtp_audio_packet_without_marker_keeps_payload_type_bit_clear() {
    let packet = RtpAudioPacket {
        marker: false,
        sequence: 1,
        timestamp: 2,
        payload_type: 96,
        ssrc: 3,
        payload: Vec::new(),
    };

    let bytes = packet.encode();

    assert_eq!(bytes.len(), 12);
    assert_eq!(bytes[1], 0x60);
}

// ---------------------------------------------------------------------------
// codec

#[test]
fn pcm_codec_description_matches_raop_mvp() {
    let codec = CodecDescription::pcm_stereo();

    assert_eq!(codec.encoding_name, "L16");
    assert_eq!(codec.rtpmap, "L16/44100/2");
    assert!(codec.fmtp.is_none());
}

#[test]
fn validate_input_format_accepts_default_pcm_profile() {
    let result = validate_input_format(AudioFormat::default());

    assert!(result.is_ok());
}

#[test]
fn validate_input_format_accepts_common_windows_mix_profile() {
    let result = validate_input_format(AudioFormat {
        sample_rate_hz: 48_000,
        channels: 8,
        bits_per_sample: 32,
        sample_type: AudioSampleType::Float,
    });

    assert!(result.is_ok());
}

#[test]
fn validate_input_format_rejects_zero_channels() {
    let error = validate_input_format(AudioFormat { channels: 0, ..AudioFormat::default() }).unwrap_err();

    assert!(matches!(error, AirPlayError::UnsupportedAudioFormat { .. }));
}

// ---------------------------------------------------------------------------
// RTSP

fn rtsp_descriptor() -> SessionDescriptor {
    SessionDescriptor::new(
        SpeakerDevice {
            id: String::from("speaker-id"),
            name: String::from("Speaker"),
            host: String::from("speaker.local"),
            port: 7000,
            generation: AirPlayGeneration::AirPlay1,
            pairing_id: None,
            receiver_public_key: None,
            receiver_kind: ReceiverKind::ClassicRaop,
            support: DeviceSupport::Supported,
        },
        AudioFormat::default(),
    )
}

#[test]
fn request_builder_keeps_method_uri_and_headers() {
    let request = RtspRequest::new(RtspMethod::Announce, "rtsp://speaker.local/1")
        .with_header("CSeq", "1")
        .with_body(b"v=0");

    assert_eq!(request.method.as_str(), "ANNOUNCE");
    assert_eq!(request.uri, "rtsp://speaker.local/1");
    assert_eq!(request.headers.get("cseq"), Some("1"));
    assert_eq!(request.body, b"v=0");
}

#[test]
fn request_encode_emits_rtsp_wire_format() {
    let request = RtspRequest::new(RtspMethod::Options, "*").with_header("CSeq", "1");

    assert_eq!(request.encode(), b"OPTIONS * RTSP/1.0\r\nCSeq: 1\r\n\r\n");
}

#[test]
fn headers_lookup_is_case_insensitive() {
    let mut headers = RtspHeaders::new();
    headers.insert("Session", "abc");

    assert_eq!(headers.get("session"), Some("abc"));
}

#[test]
fn success_response_reports_success_status() {
    let response = RtspResponse::success(200);

    assert!(response.is_success());
    assert_eq!(response.status.reason_phrase, "OK");
}

#[test]
fn response_parser_extracts_status_headers_and_body() {
    let response = RtspResponse::parse("RTSP/1.0 200 OK\r\nSession: 1\r\nCSeq: 2\r\n\r\nbody").unwrap();

    assert_eq!(response.status.code, 200);
    assert_eq!(response.headers.get("session"), Some("1"));
    assert_eq!(response.body, b"body");
}

#[test]
fn response_parser_rejects_garbage_status_line() {
    assert!(matches!(RtspResponse::parse("HTTP/1.1 OK\r\n\r\n"), Err(AirPlayError::Protocol { .. })));
}

#[test]
fn build_session_uri_targets_device_endpoint_and_stream_session_id() {
    let descriptor = rtsp_descriptor();

    assert_eq!(
        build_session_uri(&descriptor),
        format!("rtsp://speaker.local:7000/{}", descriptor.stream_session_id())
    );
}

#[test]
fn options_request_contains_cseq() {
    let descriptor = rtsp_descriptor();
    let request = build_options_request(&descriptor, 7);

    assert_eq!(request.method, RtspMethod::Options);
    assert_eq!(request.uri, "*");
    assert_eq!(request.headers.get("CSeq"), Some("7"));
    assert_eq!(request.headers.get("User-Agent"), Some("Rairstream/0.1"));
    assert_eq!(request.headers.get("Client-Instance"), Some(descriptor.client_instance().as_str()));
    assert_eq!(request.headers.get("DACP-ID"), Some(descriptor.dacp_id().as_str()));
    assert_eq!(request.headers.get("Active-Remote"), Some(descriptor.active_remote().as_str()));
}

#[test]
fn info_request_targets_modern_info_endpoint() {
    let descriptor = rtsp_descriptor();
    let request = build_info_request(&descriptor, 12);

    assert_eq!(request.method, RtspMethod::Get);
    assert_eq!(request.uri, "/info");
    assert_eq!(request.headers.get("CSeq"), Some("12"));
    assert_eq!(request.headers.get("Content-Length"), Some("0"));
}

#[test]
fn pair_requests_attach_binary_body_and_content_headers() {
    let descriptor = rtsp_descriptor();
    let pair_setup = build_pair_setup_request(&descriptor, 13, "application/octet-stream", &[1_u8, 2, 3]);
    let pair_verify = build_pair_verify_request(&descriptor, 14, "application/octet-stream", &[4_u8, 5]);
    let auth_setup = build_auth_setup_request(&descriptor, 15, &[6_u8; 33]);

    assert_eq!(pair_setup.method, RtspMethod::Post);
    assert_eq!(pair_setup.uri, "/pair-setup");
    assert_eq!(pair_setup.headers.get("Content-Type"), Some("application/octet-stream"));
    assert_eq!(pair_setup.headers.get("Content-Length"), Some("3"));
    assert_eq!(pair_setup.body, [1_u8, 2, 3]);

    assert_eq!(pair_verify.method, RtspMethod::Post);
    assert_eq!(pair_verify.uri, "/pair-verify");
    assert_eq!(pair_verify.headers.get("Content-Length"), Some("2"));
    assert_eq!(pair_verify.body, [4_u8, 5]);

    assert_eq!(auth_setup.method, RtspMethod::Post);
    assert_eq!(auth_setup.uri, "/auth-setup");
    assert_eq!(auth_setup.headers.get("Content-Length"), Some("33"));
    assert_eq!(auth_setup.headers.get("Content-Type"), Some("application/octet-stream"));
}

#[test]
fn announce_request_contains_pcm_sdp() {
    let descriptor = rtsp_descriptor();
    let sender_ip = "192.168.1.5";
    let request = build_announce_request(&descriptor, 8, &CodecDescription::pcm_stereo(), Some(sender_ip));
    let body = request.body_text().unwrap();

    assert_eq!(request.method, RtspMethod::Announce);
    assert_eq!(request.uri, format!("rtsp://speaker.local:7000/{}", descriptor.stream_session_id()));
    assert_eq!(request.headers.get("Content-Type"), Some("application/sdp"));
    assert_eq!(request.headers.get("DACP-ID"), Some(descriptor.dacp_id().as_str()));
    assert_eq!(request.headers.get("Active-Remote"), Some(descriptor.active_remote().as_str()));
    assert!(body.contains(&format!("o=Rairstream {} 0 IN IP4", descriptor.stream_session_id())));
    assert!(body.contains(&format!("c=IN IP4 {sender_ip}")));
    assert!(!body.contains("c=IN IP4 speaker.local"));
    assert!(body.contains("a=rtpmap:96 L16/44100/2"));
    assert!(body.contains(&format!("a=min-latency:{RAOP_STARTUP_LATENCY_FRAMES}")));
    assert!(body.contains("m=audio 0 RTP/AVP 96"));
}

#[test]
fn announce_request_without_sender_address_announces_unspecified_address() {
    let descriptor = rtsp_descriptor();
    let request = build_announce_request(&descriptor, 8, &CodecDescription::pcm_stereo(), None);

    assert!(request.body_text().unwrap().contains("c=IN IP4 0.0.0.0"));
}

#[test]
fn announce_request_min_latency_matches_current_baseline_millis() {
    assert_eq!(RAOP_STARTUP_LATENCY_MILLIS, 250);
    assert_eq!(RAOP_STARTUP_LATENCY_FRAMES, 11_025);
    assert_eq!(RAOP_STARTUP_LATENCY_FRAMES, RAOP_STARTUP_LATENCY_MILLIS * 44_100 / 1_000);
}

#[test]
fn setup_request_contains_transport_header() {
    let descriptor = rtsp_descriptor();
    let request = build_setup_request(&descriptor, 9, SetupTransport { control_port: 6001, timing_port: 6002 });

    assert_eq!(request.method, RtspMethod::Setup);
    assert_eq!(request.headers.get("DACP-ID"), Some(descriptor.dacp_id().as_str()));
    assert_eq!(request.headers.get("Active-Remote"), Some(descriptor.active_remote().as_str()));
    assert_eq!(
        request.headers.get("Transport"),
        Some("RTP/AVP/UDP;unicast;interleaved=0-1;mode=record;control_port=6001;timing_port=6002")
    );
}

#[test]
fn record_request_contains_session_and_rtp_info() {
    let descriptor = rtsp_descriptor();
    let request = build_record_request(&descriptor, 10, "abc", 11, 12);

    assert_eq!(request.method, RtspMethod::Record);
    assert_eq!(request.headers.get("Session"), Some("abc"));
    assert_eq!(request.headers.get("DACP-ID"), Some(descriptor.dacp_id().as_str()));
    assert_eq!(request.headers.get("Active-Remote"), Some(descriptor.active_remote().as_str()));
    assert_eq!(request.headers.get("RTP-Info"), Some("seq=11;rtptime=12"));
}

#[test]
fn teardown_request_contains_session() {
    let descriptor = rtsp_descriptor();
    let request = build_teardown_request(&descriptor, 11, "abc");

    assert_eq!(request.method, RtspMethod::Teardown);
    assert_eq!(request.headers.get("Session"), Some("abc"));
    assert_eq!(request.headers.get("DACP-ID"), Some(descriptor.dacp_id().as_str()));
    assert_eq!(request.headers.get("Active-Remote"), Some(descriptor.active_remote().as_str()));
}

#[test]
fn parse_setup_reply_extracts_ports_and_session() {
    let response = RtspResponse::parse(
        "RTSP/1.0 200 OK\r\nTransport: RTP/AVP/UDP;unicast;mode=record;server_port=5000;control_port=5001;timing_port=5002\r\nSession: deadbeef;timeout=60\r\n\r\n",
    )
    .unwrap();

    let reply = parse_setup_reply(&response).unwrap();

    assert_eq!(reply.session_id, "deadbeef");
    assert_eq!(reply.session_timeout_secs, Some(60));
    assert_eq!(reply.server_port, 5000);
    assert_eq!(reply.control_port, 5001);
    assert_eq!(reply.timing_port, 5002);
}

#[test]
fn keepalive_request_uses_options_star_and_session() {
    let descriptor = rtsp_descriptor();
    let request = build_keepalive_request(&descriptor, 12, "abc");

    assert_eq!(request.method, RtspMethod::Options);
    assert_eq!(request.uri, "*");
    assert_eq!(request.headers.get("CSeq"), Some("12"));
    assert_eq!(request.headers.get("Session"), Some("abc"));
}

#[test]
fn parse_setup_reply_rejects_missing_transport() {
    let response = RtspResponse::parse("RTSP/1.0 200 OK\r\nSession: 1\r\n\r\n").unwrap();
    let error = parse_setup_reply(&response).unwrap_err();

    assert!(matches!(error, AirPlayError::Protocol { .. }));
}

// ---------------------------------------------------------------------------
// sessions

fn build_descriptor(format: AudioFormat) -> SessionDescriptor {
    build_descriptor_for(ReceiverKind::ClassicRaop, format)
}

fn build_descriptor_for(receiver_kind: ReceiverKind, format: AudioFormat) -> SessionDescriptor {
    SessionDescriptor::new(
        SpeakerDevice {
            id: String::from("speaker"),
            name: String::from("Speaker"),
            host: String::from("127.0.0.1"),
            port: 7000,
            generation: AirPlayGeneration::AirPlay1,
            pairing_id: None,
            receiver_public_key: None,
            receiver_kind,
            support: DeviceSupport::Supported,
        },
        format,
    )
}

fn build_setup_response() -> RtspResponse {
    RtspResponse::parse(
        "RTSP/1.0 200 OK\r\nTransport: RTP/AVP/UDP;unicast;mode=record;server_port=5000;control_port=5001;timing_port=5002\r\nSession: deadbeef;timeout=60\r\n\r\n",
    )
    .unwrap()
}

fn status_response(code: u16) -> RtspResponse {
    RtspResponse {
        status: RtspStatus { code, reason_phrase: String::from("Status") },
        headers: RtspHeaders::new(),
        body: Vec::new(),
    }
}

#[test]
fn connect_builds_connecting_session_for_supported_format() {
    let session = RaopSession::connect(&build_descriptor(AudioFormat::default())).unwrap();

    assert_eq!(session.state(), RaopSessionState::Connecting);
    assert_eq!(session.sink_config().frames_per_packet, 352);
}

#[test]
fn prepared_transport_uses_classic_raop_for_classic_receiver() {
    let descriptor = build_descriptor(AudioFormat::default());

    let prepared = PreparedTransportSession::prepare(&descriptor).unwrap();

    match prepared {
        PreparedTransportSession::ClassicRaop(session) => {
            assert_eq!(session.state(), RaopSessionState::Connecting);
        }
        PreparedTransportSession::ModernAirPlay(_) => {
            panic!("classic receiver should use classic raop prepare path");
        }
    }
}

#[test]
fn modern_session_connects_for_modern_receiver() {
    let descriptor = build_descriptor_for(ReceiverKind::ModernAirPlayAuth, AudioFormat::default());

    let session = ModernAirPlaySession::connect(&descriptor).unwrap();

    assert_eq!(session.descriptor().device.receiver_kind, ReceiverKind::ModernAirPlayAuth);
    assert_eq!(ModernAirPlaySession::transport_name(), "airplay2");
}

#[test]
fn modern_session_request_builders_advance_cseq() {
    let descriptor = build_descriptor_for(ReceiverKind::ModernAirPlayAuth, AudioFormat::default());
    let mut session = ModernAirPlaySession::connect(&descriptor).unwrap();

    let info = session.info_request();
    let pair_setup = session.pair_setup_request(&[1_u8, 2, 3]);
    let pair_verify = session.pair_verify_request(&[4_u8, 5]);

    assert_eq!(info.headers.get("CSeq"), Some("1"));
    assert_eq!(pair_setup.headers.get("CSeq"), Some("2"));
    assert_eq!(pair_verify.headers.get("CSeq"), Some("3"));
}

#[test]
fn pair_pin_start_response_maps_success() {
    let response = status_response(200);

    assert!(map_pair_pin_start_response(&response).is_ok());
}

#[test]
fn pair_pin_start_response_maps_pairing_required() {
    let response = status_response(401);

    assert_eq!(map_pair_pin_start_response(&response).unwrap_err(), AirPlayError::PairingRequired);
}

#[test]
fn pair_pin_start_470_is_treated_as_pairing_required() {
    let response = status_response(470);

    assert_eq!(map_pair_pin_start_response(&response).unwrap_err(), AirPlayError::PairingRequired);
}

#[test]
fn connect_seeds_non_zero_rtp_session_parameters() {
    let session = RaopSession::connect(&build_descriptor(AudioFormat::default())).unwrap();
    let (sequence, timestamp) = session.packet_counters().peek_audio_packet();

    assert!(sequence > 0);
    assert!(timestamp >= RAOP_STARTUP_LATENCY_FRAMES);
    assert!(session.audio_ssrc() > 0);
}

#[test]
fn seeded_start_timestamp_stays_ahead_of_the_startup_latency() {
    let mut descriptor = build_descriptor(AudioFormat::default());
    descriptor.device.id = String::from("living-room");
    descriptor.device.host = String::from("192.168.1.10");
    descriptor.device.port = 7000;
    let session = RaopSession::connect_with_clock(&descriptor, 6_102_126_671_502_475_499).unwrap();
    let (sequence, timestamp) = session.packet_counters().peek_audio_packet();

    assert!(sequence > 0);
    // The hash bits are 4294960792: one latency ahead wraps to 4521, which
    // moves one latency further.
    assert_eq!(timestamp, 4521 + RAOP_STARTUP_LATENCY_FRAMES);
    assert!(session.audio_ssrc() > 0);
}

#[test]
fn connect_accepts_common_windows_mix_profile() {
    let session = RaopSession::connect(&build_descriptor(AudioFormat {
        sample_rate_hz: 48_000,
        channels: 8,
        bits_per_sample: 32,
        sample_type: AudioSampleType::Float,
    }))
    .unwrap();

    assert_eq!(session.state(), RaopSessionState::Connecting);
}

#[test]
fn request_builders_advance_cseq() {
    let mut session = RaopSession::connect(&build_descriptor(AudioFormat::default())).unwrap();

    let options = session.options_request();
    let announce = session.announce_request(None);
    let setup = session.setup_request(SetupTransport { control_port: 6001, timing_port: 6002 });

    assert_eq!(options.headers.get("CSeq"), Some("1"));
    assert_eq!(announce.headers.get("CSeq"), Some("2"));
    assert_eq!(setup.headers.get("CSeq"), Some("3"));
}

#[test]
fn apply_setup_response_moves_session_to_prepared() {
    let mut session = RaopSession::connect(&build_descriptor(AudioFormat::default())).unwrap();

    session.apply_setup_response(&build_setup_response()).unwrap();

    assert_eq!(session.state(), RaopSessionState::Prepared);
}

#[test]
fn record_request_requires_setup_to_finish() {
    let mut session = RaopSession::connect(&build_descriptor(AudioFormat::default())).unwrap();
    let error = session.record_request().unwrap_err();

    assert_eq!(error, AirPlayError::NotReady);
}

#[test]
fn record_request_uses_setup_session_without_advancing_stream_state() {
    let mut session = RaopSession::connect(&build_descriptor(AudioFormat::default())).unwrap();
    session.apply_setup_response(&build_setup_response()).unwrap();
    let expected_packet_counters = session.packet_counters();
    let (sequence, rtp_timestamp) = expected_packet_counters.peek_audio_packet();

    let request = session.record_request().unwrap();

    assert_eq!(request.headers.get("Session"), Some("deadbeef"));
    let expected_rtp_info = format!("seq={sequence};rtptime={rtp_timestamp}");
    assert_eq!(request.headers.get("RTP-Info"), Some(expected_rtp_info.as_str()));
    assert_eq!(session.state(), RaopSessionState::Prepared);
    assert_eq!(session.packet_counters(), expected_packet_counters);
}

#[test]
fn apply_record_response_moves_session_to_streaming() {
    let mut session = RaopSession::connect(&build_descriptor(AudioFormat::default())).unwrap();
    session.apply_setup_response(&build_setup_response()).unwrap();

    session.apply_record_response(&RtspResponse::success(200)).unwrap();

    assert_eq!(session.state(), RaopSessionState::Streaming);
}

#[test]
fn teardown_request_uses_setup_session() {
    let mut session = RaopSession::connect(&build_descriptor(AudioFormat::default())).unwrap();
    session.apply_setup_response(&build_setup_response()).unwrap();

    let request = session.teardown_request().unwrap();

    assert_eq!(request.headers.get("Session"), Some("deadbeef"));
}

#[test]
fn raop_transport_name_remains_stable() {
    assert_eq!(RaopSession::transport_name(), "raop");
}

#[test]
fn airplay2_transport_name_remains_stable() {
    assert_eq!(ModernAirPlaySession::transport_name(), "airplay2");
}

#[test]
fn session_timing_reply_copies_sequence_and_request_timestamp() {
    let request = [
        0x80, 0xd2, 0x12, 0x34, 0x00, 0x00, 0x00, 0x00, 0, 0, 0, 0, 0, 0, 0, 0, 0, 0, 0, 0, 0xaa, 0xbb, 0xcc, 0xdd,
        0xee, 0xff, 0x00, 0x11, 0x22, 0x33, 0x44, 0x55,
    ];

    let reply = build_timing_reply(&request).unwrap();

    assert_eq!(reply[1] & 0x7f, 83);
    assert_eq!(&reply[2..4], &[0x12, 0x34]);
    assert_eq!(&reply[8..16], &[0xee, 0xff, 0x00, 0x11, 0x22, 0x33, 0x44, 0x55]);
}

#[test]
fn raop_timing_reply_copies_sequence_and_request_timestamp() {
    let request = [
        0x80, 0xd2, 0x12, 0x34, 0x00, 0x00, 0x00, 0x00, 0, 0, 0, 0, 0, 0, 0, 0, 0, 0, 0, 0, 0xaa, 0xbb, 0xcc, 0xdd,
        0xee, 0xff, 0x00, 0x11, 0x22, 0x33, 0x44, 0x55,
    ];

    let reply = build_timing_reply(&request).unwrap();

    assert_eq!(reply[1] & 0x7f, 83);
    assert_eq!(&reply[2..4], &[0x12, 0x34]);
    assert_eq!(&reply[8..16], &[0xee, 0xff, 0x00, 0x11, 0x22, 0x33, 0x44, 0x55]);
}

#[test]
fn timing_reply_at_stamps_given_times_and_rejects_other_packets() {
    let mut request = [0_u8; 32];
    request[1] = 0xd2;
    request[24] = 9;

    let reply = build_timing_reply_at(&request, 0x0102_0304_0506_0708, 0x1112_1314_1516_1718).unwrap();

    assert_eq!(reply[0], 0x80);
    assert_eq!(reply[1], 0xd3);
    assert_eq!(reply[8], 9);
    assert_eq!(&reply[16..24], &[1, 2, 3, 4, 5, 6, 7, 8]);
    assert_eq!(&reply[24..32], &[0x11, 0x12, 0x13, 0x14, 0x15, 0x16, 0x17, 0x18]);

    request[1] = 0xd4;
    assert!(build_timing_reply_at(&request, 0, 0).is_none());
    assert!(build_timing_reply_at(&request[..31], 0, 0).is_none());
}

#[test]
fn sink_config_defaults_match_raop_mvp() {
    let config = RaopSinkConfig::default();

    assert_eq!(config.frames_per_packet, 352);
    assert_eq!(config.sync_interval_packets, 125);
    assert_eq!(config.sender_volume_percent, 100);
}

#[test]
fn first_packet_is_framed_with_a_sync_even_without_a_sync_interval() {
    let config = RaopSinkConfig { sync_interval_packets: 0, ..RaopSinkConfig::default() };
    let mut packetizer = RaopPacketizer::new(7, RaopPacketCounters::new(10, 20), config);

    let planned = packetizer.next_packet(vec![0; 8], 99).unwrap();

    assert!(planned.audio.marker);
    assert_eq!(planned.audio.sequence, 10);
    assert_eq!(planned.audio.timestamp, 20);
    let sync = planned.sync.unwrap();
    assert_eq!(sync.next_rtp_timestamp, 22);
    assert_eq!(sync.ntp_timestamp, 99);
}
