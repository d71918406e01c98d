//! The RAOP session state machine, the AirPlay 2 pairing session, and the
//! reading of receiver replies during the handshakes.

use vstd::prelude::*;

use crate::bytes::{be_u128, be_u16, push_be_u128};
use crate::codec::CodecDescription;
use crate::error::{authentication_failed, AirPlayError};
use crate::model::{
    descriptor_valid, device_hash, is_validation_error, fnv_segment, hash_identifier_segment, SessionDescriptor,
    RAOP_STARTUP_LATENCY_FRAMES, FNV_OFFSET_BASIS, ReceiverKind,
};
use crate::packet::RaopPacketCounters;
use crate::text::decimal;
use crate::rtsp::{
    header_get, lemma_record_request_headers, rtp_info_text, setup_reply_error,
    announced_ip, build_announce_request, build_auth_setup_request, build_info_request,
    build_options_request, build_pair_pin_start_request, build_pair_setup_pin_request,
    build_pair_setup_request, build_pair_verify_request, build_record_request, build_setup_request,
    build_teardown_request, build_keepalive_request, is_announce_request, is_empty_body_request, is_options_request,
    is_post, is_record_request, is_session_request, is_setup_request, parse_setup_reply,
    session_uri, setup_reply_fields, RtspMethod, RtspRequest, RtspResponse, SetupReply, SetupTransport,
};
use crate::sink::RaopSinkConfig;
use crate::timing::unix_time_now;

verus! {

/// The lifecycle of a RAOP session.
#[derive(Debug, Clone, Copy, PartialEq, Eq, Structural)]
pub enum RaopSessionState {
    Connecting,
    Prepared,
    Streaming,
}

/// `x + 1`, saturating at the largest `u32`.
pub open spec fn next_cseq(x: u32) -> u32 {
    if x == u32::MAX {
        x
    } else {
        (x + 1) as u32
    }
}

// ---------------------------------------------------------------------------
// RTP session seeds

/// The hash the RTP seeds of a session come from: the receiver's identity
/// hash extended with the start time in nanoseconds.
pub open spec fn session_seed_hash(d: SessionDescriptor, unix_nanos: u128) -> u64 {
    fnv_segment(device_hash(d.device), be_u128(unix_nanos))
}

/// The initial RTP timestamp from the 32 hash bits `base`: one start-up
/// latency ahead of them; where that passes the end of the 32-bit range,
/// it wraps and then moves one start-up latency further, so that it is
/// never below the latency.
pub open spec fn start_timestamp(base: int) -> u32 {
    if base + RAOP_STARTUP_LATENCY_FRAMES < 0x1_0000_0000 {
        (base + RAOP_STARTUP_LATENCY_FRAMES) as u32
    } else {
        (base + RAOP_STARTUP_LATENCY_FRAMES - 0x1_0000_0000 + RAOP_STARTUP_LATENCY_FRAMES) as u32
    }
}

/// Initial sequence number, initial RTP timestamp and SSRC from a seed
/// hash. Sequence and SSRC are never zero; the timestamp starts one
/// start-up latency ahead (see `start_timestamp`).
pub open spec fn rtp_seed(h: u64) -> (u16, u32, u32) {
    let sequence = h % 0x1_0000;
    let base = h / 0x1_0000 % 0x1_0000_0000;
    let ssrc = h / 256 % 0x1_0000_0000;
    (
        (if sequence == 0 { 1 } else { sequence }) as u16,
        start_timestamp(base as int),
        (if ssrc == 0 { 1 } else { ssrc }) as u32,
    )
}

/// The RTP seeds of a session started at `unix_nanos`.
pub fn build_rtp_session_seed(descriptor: &SessionDescriptor, unix_nanos: u128) -> (r: (u16, u32, u32))
    ensures
        r == rtp_seed(session_seed_hash(*descriptor, unix_nanos)),
        r.0 >= 1,
        r.1 >= RAOP_STARTUP_LATENCY_FRAMES,
        r.2 >= 1,
{
    let mut hash: u64 = FNV_OFFSET_BASIS;
    hash_identifier_segment(&mut hash, descriptor.device.id.as_str().as_bytes());
    hash_identifier_segment(&mut hash, descriptor.device.host.as_str().as_bytes());
    let port_bytes: [u8; 2] = [(descriptor.device.port / 256) as u8, (descriptor.device.port % 256) as u8];
    assert(port_bytes@ =~= be_u16(descriptor.device.port));
    hash_identifier_segment(&mut hash, &port_bytes);
    let mut time_bytes: Vec<u8> = Vec::new();
    push_be_u128(&mut time_bytes, unix_nanos);
    assert(time_bytes@ =~= be_u128(unix_nanos));
    hash_identifier_segment(&mut hash, time_bytes.as_slice());
    let low = hash % 0x1_0000;
    let initial_sequence: u16 = if low == 0 { 1 } else { low as u16 };
    let base = hash / 0x1_0000 % 0x1_0000_0000;
    let ahead: u64 = base + RAOP_STARTUP_LATENCY_FRAMES as u64;
    let initial_timestamp: u32 = if ahead < 0x1_0000_0000 {
        ahead as u32
    } else {
        (ahead - 0x1_0000_0000 + RAOP_STARTUP_LATENCY_FRAMES as u64) as u32
    };
    let mid = hash / 256 % 0x1_0000_0000;
    let audio_ssrc: u32 = if mid == 0 { 1 } else { mid as u32 };
    (initial_sequence, initial_timestamp, audio_ssrc)
}

// ---------------------------------------------------------------------------
// Reply checks

/// Whether `e` is the error a failed reply with status `code` to `method`
/// gives: 401 and 403 ask for authentication, everything else is a
/// protocol error naming the method and the status.
pub open spec fn reply_failure(method: Seq<char>, code: u16, e: AirPlayError) -> bool {
    if code == 401 || code == 403 {
        e == AirPlayError::AuthenticationRequired
    } else {
        e matches AirPlayError::Protocol { message } && message@ == method + " 返回了失败状态码 "@ + decimal(
            code as nat,
        )
    }
}

/// The error a failed reply to `method` gives: 401 and 403 ask for
/// authentication, everything else is a protocol error.
pub fn ensure_success(response: &RtspResponse, method: &str) -> (r: Result<(), AirPlayError>)
    ensures
        200 <= response.status.code < 300 ==> r is Ok,
        !(200 <= response.status.code < 300) ==> (r matches Err(e) && reply_failure(
            method@,
            response.status.code,
            e,
        )),
{
    if response.is_success() {
        return Ok(());
    }
    if response.status.code == 401 || response.status.code == 403 {
        return Err(AirPlayError::AuthenticationRequired);
    }
    let mut message = String::from_str(method);
    crate::text::push_str(&mut message, " 返回了失败状态码 ");
    crate::text::push_decimal(&mut message, response.status.code as u64);
    Err(AirPlayError::Protocol { message })
}

/// What an AirPlay 2 receiver's `/info` reply says about stored credentials.
#[derive(Debug, Clone, Copy, PartialEq, Eq, Structural)]
pub enum ModernAuthProbeOutcome {
    ContinueWithCredentials,
    RequiresPairing,
}

/// Reads the `/info` probe: 200 continues, 401 asks for pairing, 403 is a
/// rejection, anything else a protocol error.
pub fn map_modern_auth_probe_response(response: &RtspResponse) -> (r: Result<ModernAuthProbeOutcome, AirPlayError>)
    ensures
        response.status.code == 200 ==> r == Ok::<ModernAuthProbeOutcome, AirPlayError>(
            ModernAuthProbeOutcome::ContinueWithCredentials,
        ),
        response.status.code == 401 ==> r == Ok::<ModernAuthProbeOutcome, AirPlayError>(
            ModernAuthProbeOutcome::RequiresPairing,
        ),
        response.status.code == 403 ==> r matches Err(AirPlayError::AuthenticationFailed { .. }),
        response.status.code != 200 && response.status.code != 401 && response.status.code != 403
            ==> r matches Err(AirPlayError::Protocol { .. }),
{
    if response.status.code == 200 {
        Ok(ModernAuthProbeOutcome::ContinueWithCredentials)
    } else if response.status.code == 401 {
        Ok(ModernAuthProbeOutcome::RequiresPairing)
    } else if response.status.code == 403 {
        Err(authentication_failed("设备拒绝当前认证上下文或匿名控制探测"))
    } else {
        let mut message = String::from_str("现代 AirPlay /info 返回了未预期状态码 ");
        crate::text::push_decimal(&mut message, response.status.code as u64);
        Err(AirPlayError::Protocol { message })
    }
}

/// The error a failed pairing request gives: 401 and 470 ask for pairing,
/// 403 is a rejection, anything else a protocol error.
pub open spec fn pairing_failure_kind(code: u16, e: AirPlayError) -> bool {
    if code == 401 || code == 470 {
        e == AirPlayError::PairingRequired
    } else if code == 403 {
        e is AuthenticationFailed
    } else {
        e is Protocol
    }
}

/// The error a failed reply to the pairing request at `path` gives.
pub fn map_pairing_http_failure(response: &RtspResponse, path: &str) -> (e: AirPlayError)
    ensures
        pairing_failure_kind(response.status.code, e),
{
    let code = response.status.code;
    if code == 401 || code == 470 {
        AirPlayError::PairingRequired
    } else if code == 403 {
        let mut message = String::from_str(path);
        crate::text::push_str(&mut message, " 被设备拒绝");
        AirPlayError::AuthenticationFailed { message }
    } else {
        let mut message = String::from_str(path);
        crate::text::push_str(&mut message, " 返回了未预期状态码 ");
        crate::text::push_decimal(&mut message, code as u64);
        AirPlayError::Protocol { message }
    }
}

/// Reads the `/pair-pin-start` reply: success, or the pairing failure.
pub fn map_pair_pin_start_response(response: &RtspResponse) -> (r: Result<(), AirPlayError>)
    ensures
        200 <= response.status.code < 300 ==> r is Ok,
        !(200 <= response.status.code < 300) ==> (r matches Err(e) && pairing_failure_kind(
            response.status.code,
            e,
        )),
{
    if response.is_success() {
        return Ok(());
    }
    Err(map_pairing_http_failure(response, "/pair-pin-start"))
}

// ---------------------------------------------------------------------------
// Keep-alive

/// Seconds between keep-alive requests for a session timeout (60 s when
/// the receiver names none): half the timeout but at least 15 s, and never
/// later than one second before the timeout (and at least 1 s).
pub open spec fn keepalive_interval_secs(session_timeout_secs: Option<u64>) -> u64 {
    let t: u64 = match session_timeout_secs {
        Some(t) => t,
        None => 60,
    };
    let preferred: u64 = if t / 2 > 15 { t / 2 } else { 15 };
    let latest: u64 = if t <= 1 { 1 } else { (t - 1) as u64 };
    if preferred < latest {
        preferred
    } else {
        latest
    }
}

/// The keep-alive goes out at half the session timeout once that is 30 s
/// or more; below, it waits 15 s, but always comes at least one second
/// before the timeout (and after at least 1 s). Without a timeout the
/// receiver's 60 s are assumed, so every 30 s.
pub proof fn lemma_keepalive_at_half_the_timeout(t: u64)
    ensures
        t >= 30 ==> keepalive_interval_secs(Some(t)) == t / 2,
        t >= 30 ==> 2 * keepalive_interval_secs(Some(t)) <= t,
        16 <= t < 30 ==> keepalive_interval_secs(Some(t)) == 15,
        2 <= t < 16 ==> keepalive_interval_secs(Some(t)) == t - 1,
        t < 2 ==> keepalive_interval_secs(Some(t)) == 1,
        t >= 2 ==> keepalive_interval_secs(Some(t)) < t,
        keepalive_interval_secs(None) == 30,
{
}

/// The keep-alive interval, in seconds, for a session timeout.
pub fn compute_rtsp_keepalive_interval(session_timeout_secs: Option<u64>) -> (r: u64)
    ensures
        r == keepalive_interval_secs(session_timeout_secs),
        1 <= r,
        forall|t: u64| session_timeout_secs == Some(t) && t >= 2 ==> r < t,
        forall|t: u64| session_timeout_secs == Some(t) && t >= 30 ==> r == t / 2,
        forall|t: u64| session_timeout_secs == Some(t) && 16 <= t < 30 ==> r == 15,
        forall|t: u64| session_timeout_secs == Some(t) && 2 <= t < 16 ==> r == t - 1,
        session_timeout_secs is None ==> r == 30,
{
    proof {
        if let Some(t) = session_timeout_secs {
            lemma_keepalive_at_half_the_timeout(t);
        }
        lemma_keepalive_at_half_the_timeout(60);
    }
    let t = match session_timeout_secs {
        Some(t) => t,
        None => 60,
    };
    let preferred = if t / 2 > 15 { t / 2 } else { 15 };
    let latest = if t <= 1 { 1 } else { t - 1 };
    if preferred < latest {
        preferred
    } else {
        latest
    }
}

/// The keep-alive side of an established session: it owns the CSeq counter
/// once the handshake is over.
#[derive(Debug, Clone, PartialEq, Eq)]
pub struct RtspKeepalive {
    pub descriptor: SessionDescriptor,
    pub session_id: String,
    pub cseq: u32,
}

impl RtspKeepalive {
    /// Keep-alive state continuing from the handshake's last CSeq.
    pub fn new(descriptor: SessionDescriptor, session_id: String, initial_cseq: u32) -> (r: Self)
        ensures
            r.descriptor == descriptor,
            r.session_id == session_id,
            r.cseq == initial_cseq,
    {
        RtspKeepalive { descriptor, session_id, cseq: initial_cseq }
    }

    /// The next keep-alive request (`OPTIONS *` in the session).
    pub fn keepalive_request(&mut self) -> (r: RtspRequest)
        ensures
            final(self).cseq == next_cseq(old(self).cseq),
            final(self).descriptor == old(self).descriptor,
            final(self).session_id == old(self).session_id,
            is_session_request(r, old(self).descriptor, final(self).cseq, RtspMethod::Options, "*"@, old(self).session_id@),
    {
        self.cseq = self.cseq.saturating_add(1);
        build_keepalive_request(&self.descriptor, self.cseq, self.session_id.as_str())
    }

    /// The TEARDOWN request that ends the session.
    pub fn teardown_request(&mut self) -> (r: RtspRequest)
        ensures
            final(self).cseq == next_cseq(old(self).cseq),
            final(self).descriptor == old(self).descriptor,
            final(self).session_id == old(self).session_id,
            is_session_request(
                r,
                old(self).descriptor,
                final(self).cseq,
                RtspMethod::Teardown,
                session_uri(old(self).descriptor),
                old(self).session_id@,
            ),
    {
        self.cseq = self.cseq.saturating_add(1);
        build_teardown_request(&self.descriptor, self.cseq, self.session_id.as_str())
    }
}

// ---------------------------------------------------------------------------
// RAOP session

/// A RAOP session being set up: the descriptor, the CSeq counter, what
/// SETUP returned and the RTP parameters of the stream.
#[derive(Debug, Clone, PartialEq, Eq)]
pub struct RaopSession {
    pub descriptor: SessionDescriptor,
    pub sink_config: RaopSinkConfig,
    pub codec: CodecDescription,
    pub state: RaopSessionState,
    pub cseq: u32,
    pub setup_reply: Option<SetupReply>,
    pub audio_ssrc: u32,
    pub packet_counters: RaopPacketCounters,
}

/// Whether `s` is a freshly connected session for `d` with the given seeds.
pub open spec fn fresh_raop_session(s: RaopSession, d: SessionDescriptor, seed: (u16, u32, u32)) -> bool {
    &&& s.descriptor == d
    &&& s.sink_config == RaopSinkConfig {
        frames_per_packet: d.frames_per_packet,
        sync_interval_packets: 125,
        sender_volume_percent: 100,
    }
    &&& s.codec.rtpmap@ == "L16/44100/2"@
    &&& s.state == RaopSessionState::Connecting
    &&& s.cseq == 0
    &&& s.setup_reply is None
    &&& s.packet_counters.next_sequence == seed.0
    &&& s.packet_counters.next_timestamp == seed.1
    &&& s.audio_ssrc == seed.2
}

impl RaopSession {
    /// The name of this transport.
    pub fn transport_name() -> (r: &'static str)
        ensures
            r@ == "raop"@,
    {
        "raop"
    }

    /// A new session for `descriptor` started at `unix_nanos`, or the
    /// descriptor's validation error.
    pub fn connect_with_clock(descriptor: &SessionDescriptor, unix_nanos: u128) -> (r: Result<Self, AirPlayError>)
        ensures
            r is Ok <==> descriptor_valid(*descriptor),
            r matches Err(e) ==> is_validation_error(e, *descriptor),
            r matches Ok(s) ==> fresh_raop_session(s, *descriptor, rtp_seed(session_seed_hash(*descriptor, unix_nanos))),
            r matches Ok(s) ==> s.packet_counters.next_sequence >= 1 && s.packet_counters.next_timestamp
                >= RAOP_STARTUP_LATENCY_FRAMES && s.audio_ssrc >= 1,
    {
        match descriptor.validate() {
            Ok(()) => {},
            Err(e) => {
                return Err(e);
            },
        }
        let (initial_sequence, initial_timestamp, audio_ssrc) = build_rtp_session_seed(descriptor, unix_nanos);
        let mut sink_config = RaopSinkConfig::default();
        sink_config.frames_per_packet = descriptor.frames_per_packet;
        Ok(RaopSession {
            descriptor: descriptor.duplicate(),
            sink_config,
            codec: CodecDescription::pcm_stereo(),
            state: RaopSessionState::Connecting,
            cseq: 0,
            setup_reply: None,
            audio_ssrc,
            packet_counters: RaopPacketCounters::new(initial_sequence, initial_timestamp),
        })
    }

    /// A new session for `descriptor`, seeded from the current time, or the
    /// descriptor's validation error.
    pub fn connect(descriptor: &SessionDescriptor) -> (r: Result<Self, AirPlayError>)
        ensures
            r is Ok <==> descriptor_valid(*descriptor),
            r matches Err(e) ==> is_validation_error(e, *descriptor),
            r matches Ok(s) ==> exists|t: u128| fresh_raop_session(s, *descriptor, rtp_seed(#[trigger] session_seed_hash(*descriptor, t))),
            r matches Ok(s) ==> s.packet_counters.next_sequence >= 1 && s.packet_counters.next_timestamp
                >= RAOP_STARTUP_LATENCY_FRAMES && s.audio_ssrc >= 1,
    {
        let (secs, nanos) = unix_time_now();
        let unix_nanos: u128 = (secs as u128) * 1_000_000_000 + (nanos as u128);
        Self::connect_with_clock(descriptor, unix_nanos)
    }

    /// The same session with its CSeq counter set to `cseq`.
    pub fn with_initial_cseq(self, cseq: u32) -> (r: Self)
        ensures
            r == (RaopSession { cseq, ..self }),
    {
        let mut r = self;
        r.cseq = cseq;
        r
    }

    pub fn descriptor(&self) -> (r: &SessionDescriptor)
        ensures
            *r == self.descriptor,
    {
        &self.descriptor
    }

    pub fn sink_config(&self) -> (r: RaopSinkConfig)
        ensures
            r == self.sink_config,
    {
        self.sink_config
    }

    pub fn state(&self) -> (r: RaopSessionState)
        ensures
            r == self.state,
    {
        self.state
    }

    pub fn audio_ssrc(&self) -> (r: u32)
        ensures
            r == self.audio_ssrc,
    {
        self.audio_ssrc
    }

    pub fn packet_counters(&self) -> (r: RaopPacketCounters)
        ensures
            r == self.packet_counters,
    {
        self.packet_counters
    }

    fn advance_cseq(&mut self) -> (r: u32)
        ensures
            r == next_cseq(old(self).cseq),
            *final(self) == (RaopSession { cseq: r, ..*old(self) }),
    {
        self.cseq = self.cseq.saturating_add(1);
        self.cseq
    }

    /// `OPTIONS` with the next CSeq.
    pub fn options_request(&mut self) -> (r: RtspRequest)
        ensures
            *final(self) == (RaopSession { cseq: next_cseq(old(self).cseq), ..*old(self) }),
            is_options_request(r, old(self).descriptor, final(self).cseq),
    {
        let cseq = self.advance_cseq();
        build_options_request(&self.descriptor, cseq)
    }

    /// `ANNOUNCE` of the session's codec with the next CSeq; `sender_ip`
    /// is the local address that reaches the receiver, when known.
    pub fn announce_request(&mut self, sender_ip: Option<&str>) -> (r: RtspRequest)
        ensures
            *final(self) == (RaopSession { cseq: next_cseq(old(self).cseq), ..*old(self) }),
            is_announce_request(r, old(self).descriptor, final(self).cseq, old(self).codec.rtpmap@, announced_ip(sender_ip)),
    {
        let cseq = self.advance_cseq();
        build_announce_request(&self.descriptor, cseq, &self.codec, sender_ip)
    }

    /// `SETUP` with the next CSeq.
    pub fn setup_request(&mut self, transport: SetupTransport) -> (r: RtspRequest)
        ensures
            *final(self) == (RaopSession { cseq: next_cseq(old(self).cseq), ..*old(self) }),
            is_setup_request(r, old(self).descriptor, final(self).cseq, transport),
    {
        let cseq = self.advance_cseq();
        build_setup_request(&self.descriptor, cseq, transport)
    }

    /// Takes in the SETUP reply: a usable reply is kept and the session is
    /// prepared; otherwise nothing changes and the reply's error comes back.
    pub fn apply_setup_response(&mut self, response: &RtspResponse) -> (r: Result<(), AirPlayError>)
        ensures
            match setup_reply_fields(response.status.code, response.headers@) {
                Some((sid, timeout, server, control, timing)) => r is Ok && final(self).state == RaopSessionState::Prepared
                    && (final(self).setup_reply matches Some(reply) && reply.session_id@ == sid
                    && reply.session_timeout_secs == timeout && reply.server_port == server
                    && reply.control_port == control && reply.timing_port == timing)
                    && *final(self) == (RaopSession {
                        state: RaopSessionState::Prepared,
                        setup_reply: final(self).setup_reply,
                        ..*old(self)
                    }),
                None => (r matches Err(AirPlayError::Protocol { message }) && message@ == setup_reply_error(
                    response.status.code,
                    response.headers@,
                )) && *final(self) == *old(self),
            },
    {
        let setup_reply = match parse_setup_reply(response) {
            Ok(reply) => reply,
            Err(e) => {
                return Err(e);
            },
        };
        self.setup_reply = Some(setup_reply);
        self.state = RaopSessionState::Prepared;
        Ok(())
    }

    /// `RECORD` from the next packet's counters, with the next CSeq; before
    /// SETUP succeeded it is refused and nothing changes.
    pub fn record_request(&mut self) -> (r: Result<RtspRequest, AirPlayError>)
        ensures
            old(self).setup_reply is None ==> r == Err::<RtspRequest, AirPlayError>(AirPlayError::NotReady)
                && *final(self) == *old(self),
            old(self).setup_reply matches Some(reply) ==> (r matches Ok(req)
                && *final(self) == (RaopSession { cseq: next_cseq(old(self).cseq), ..*old(self) })
                && is_record_request(
                req,
                old(self).descriptor,
                final(self).cseq,
                reply.session_id@,
                old(self).packet_counters.next_sequence,
                old(self).packet_counters.next_timestamp,
            )),
            // Looking its headers up gives the session id and the start of
            // the stream.
            old(self).setup_reply matches Some(reply) ==> (r matches Ok(req) && header_get(req.headers@, "Session"@)
                == Some(reply.session_id@) && header_get(req.headers@, "RTP-Info"@) == Some(
                rtp_info_text(old(self).packet_counters.next_sequence, old(self).packet_counters.next_timestamp),
            )),
    {
        let session_id = match &self.setup_reply {
            Some(reply) => reply.session_id.clone(),
            None => {
                return Err(AirPlayError::NotReady);
            },
        };
        let (sequence, rtp_timestamp) = self.packet_counters.peek_audio_packet();
        let cseq = self.advance_cseq();
        let request = build_record_request(&self.descriptor, cseq, session_id.as_str(), sequence, rtp_timestamp);
        proof {
            lemma_record_request_headers(request, self.descriptor, cseq, session_id@, sequence, rtp_timestamp);
        }
        Ok(request)
    }

    /// Takes in the RECORD reply: success starts streaming, otherwise the
    /// reply's error comes back and nothing changes.
    pub fn apply_record_response(&mut self, response: &RtspResponse) -> (r: Result<(), AirPlayError>)
        ensures
            200 <= response.status.code < 300 ==> r is Ok && *final(self) == (RaopSession {
                state: RaopSessionState::Streaming,
                ..*old(self)
            }),
            !(200 <= response.status.code < 300) ==> (r matches Err(e) && reply_failure(
                "RECORD"@,
                response.status.code,
                e,
            )) && *final(self) == *old(self),
    {
        match ensure_success(response, "RECORD") {
            Ok(()) => {},
            Err(e) => {
                return Err(e);
            },
        }
        self.state = RaopSessionState::Streaming;
        Ok(())
    }

    /// `TEARDOWN` with the next CSeq; before SETUP succeeded it is refused
    /// and nothing changes.
    pub fn teardown_request(&mut self) -> (r: Result<RtspRequest, AirPlayError>)
        ensures
            old(self).setup_reply is None ==> r == Err::<RtspRequest, AirPlayError>(AirPlayError::NotReady)
                && *final(self) == *old(self),
            old(self).setup_reply matches Some(reply) ==> (r matches Ok(req)
                && *final(self) == (RaopSession { cseq: next_cseq(old(self).cseq), ..*old(self) })
                && is_session_request(
                req,
                old(self).descriptor,
                final(self).cseq,
                RtspMethod::Teardown,
                session_uri(old(self).descriptor),
                reply.session_id@,
            )),
    {
        let session_id = match &self.setup_reply {
            Some(reply) => reply.session_id.clone(),
            None => {
                return Err(AirPlayError::NotReady);
            },
        };
        let cseq = self.advance_cseq();
        Ok(build_teardown_request(&self.descriptor, cseq, session_id.as_str()))
    }

    /// The session id SETUP returned.
    pub fn session_id(&self) -> (r: Result<&str, AirPlayError>)
        ensures
            self.setup_reply is None ==> r == Err::<&str, AirPlayError>(AirPlayError::NotReady),
            self.setup_reply matches Some(reply) ==> (r matches Ok(s) && s@ == reply.session_id@),
    {
        match &self.setup_reply {
            Some(reply) => Ok(reply.session_id.as_str()),
            None => Err(AirPlayError::NotReady),
        }
    }

    /// What SETUP returned.
    pub fn setup_reply(&self) -> (r: Result<&SetupReply, AirPlayError>)
        ensures
            self.setup_reply is None ==> r == Err::<&SetupReply, AirPlayError>(AirPlayError::NotReady),
            self.setup_reply matches Some(reply) ==> r == Ok::<&SetupReply, AirPlayError>(&reply),
    {
        match &self.setup_reply {
            Some(reply) => Ok(reply),
            None => Err(AirPlayError::NotReady),
        }
    }
}

// ---------------------------------------------------------------------------
// AirPlay 2 session

/// An AirPlay 2 receiver being paired with or authenticated to.
#[derive(Debug, Clone, PartialEq, Eq)]
pub struct ModernAirPlaySession {
    pub descriptor: SessionDescriptor,
    pub cseq: u32,
}

impl ModernAirPlaySession {
    /// The name of this transport.
    pub fn transport_name() -> (r: &'static str)
        ensures
            r@ == "airplay2"@,
    {
        "airplay2"
    }

    /// A new session for `descriptor`, or the descriptor's validation error.
    pub fn connect(descriptor: &SessionDescriptor) -> (r: Result<Self, AirPlayError>)
        ensures
            r is Ok <==> descriptor_valid(*descriptor),
            r matches Err(e) ==> is_validation_error(e, *descriptor),
            r matches Ok(s) ==> s.descriptor == *descriptor && s.cseq == 0,
    {
        match descriptor.validate() {
            Ok(()) => {},
            Err(e) => {
                return Err(e);
            },
        }
        Ok(ModernAirPlaySession { descriptor: descriptor.duplicate(), cseq: 0 })
    }

    pub fn descriptor(&self) -> (r: &SessionDescriptor)
        ensures
            *r == self.descriptor,
    {
        &self.descriptor
    }

    fn advance_cseq(&mut self) -> (r: u32)
        ensures
            r == next_cseq(old(self).cseq),
            final(self).cseq == r,
            final(self).descriptor == old(self).descriptor,
    {
        self.cseq = self.cseq.saturating_add(1);
        self.cseq
    }

    /// `GET /info` with the next CSeq.
    pub fn info_request(&mut self) -> (r: RtspRequest)
        ensures
            final(self).cseq == next_cseq(old(self).cseq),
            final(self).descriptor == old(self).descriptor,
            is_empty_body_request(r, old(self).descriptor, final(self).cseq, RtspMethod::Get, "/info"@),
    {
        let cseq = self.advance_cseq();
        build_info_request(&self.descriptor, cseq)
    }

    /// `POST /pair-setup` of `body` with the next CSeq.
    pub fn pair_setup_request(&mut self, body: &[u8]) -> (r: RtspRequest)
        ensures
            final(self).cseq == next_cseq(old(self).cseq),
            final(self).descriptor == old(self).descriptor,
            is_post(r, old(self).descriptor, final(self).cseq, "/pair-setup"@, "application/octet-stream"@, body@),
    {
        let cseq = self.advance_cseq();
        build_pair_setup_request(&self.descriptor, cseq, "application/octet-stream", body)
    }

    /// `POST /pair-pin-start` with the next CSeq.
    pub fn pair_pin_start_request(&mut self) -> (r: RtspRequest)
        ensures
            final(self).cseq == next_cseq(old(self).cseq),
            final(self).descriptor == old(self).descriptor,
            is_empty_body_request(r, old(self).descriptor, final(self).cseq, RtspMethod::Post, "/pair-pin-start"@),
    {
        let cseq = self.advance_cseq();
        build_pair_pin_start_request(&self.descriptor, cseq)
    }

    /// `POST /pair-setup-pin` of a binary plist `body` with the next CSeq.
    pub fn pair_setup_pin_request(&mut self, body: &[u8]) -> (r: RtspRequest)
        ensures
            final(self).cseq == next_cseq(old(self).cseq),
            final(self).descriptor == old(self).descriptor,
            is_post(
                r,
                old(self).descriptor,
                final(self).cseq,
                "/pair-setup-pin"@,
                "application/x-apple-binary-plist"@,
                body@,
            ),
    {
        let cseq = self.advance_cseq();
        build_pair_setup_pin_request(&self.descriptor, cseq, body)
    }

    /// `POST /pair-verify` of `body` with the next CSeq.
    pub fn pair_verify_request(&mut self, body: &[u8]) -> (r: RtspRequest)
        ensures
            final(self).cseq == next_cseq(old(self).cseq),
            final(self).descriptor == old(self).descriptor,
            is_post(r, old(self).descriptor, final(self).cseq, "/pair-verify"@, "application/octet-stream"@, body@),
    {
        let cseq = self.advance_cseq();
        build_pair_verify_request(&self.descriptor, cseq, "application/octet-stream", body)
    }

    /// `POST /auth-setup` of `body` with the next CSeq.
    pub fn auth_setup_request(&mut self, body: &[u8]) -> (r: RtspRequest)
        ensures
            final(self).cseq == next_cseq(old(self).cseq),
            final(self).descriptor == old(self).descriptor,
            is_post(r, old(self).descriptor, final(self).cseq, "/auth-setup"@, "application/octet-stream"@, body@),
    {
        let cseq = self.advance_cseq();
        build_auth_setup_request(&self.descriptor, cseq, body)
    }
}

// ---------------------------------------------------------------------------
// Transport choice

/// The session a receiver needs, before any handshake.
#[derive(Debug, Clone, PartialEq, Eq)]
pub enum PreparedTransportSession {
    ClassicRaop(RaopSession),
    ModernAirPlay(ModernAirPlaySession),
}

impl PreparedTransportSession {
    /// Picks the transport the receiver's kind calls for and opens it, or
    /// returns the descriptor's validation error.
    pub fn prepare(descriptor: &SessionDescriptor) -> (r: Result<Self, AirPlayError>)
        ensures
            r is Ok <==> descriptor_valid(*descriptor),
            r matches Err(e) ==> is_validation_error(e, *descriptor),
            r matches Ok(p) ==> match descriptor.device.receiver_kind {
                ReceiverKind::ClassicRaop => p matches PreparedTransportSession::ClassicRaop(s)
                    && s.descriptor == *descriptor && s.state == RaopSessionState::Connecting
                    && s.cseq == 0,
                ReceiverKind::ModernAirPlayAuth => p matches PreparedTransportSession::ModernAirPlay(s)
                    && s.descriptor == *descriptor && s.cseq == 0,
            },
    {
        match descriptor.device.receiver_kind {
            ReceiverKind::ClassicRaop => match RaopSession::connect(descriptor) {
                Ok(s) => Ok(PreparedTransportSession::ClassicRaop(s)),
                Err(e) => Err(e),
            },
            ReceiverKind::ModernAirPlayAuth => match ModernAirPlaySession::connect(descriptor) {
                Ok(s) => Ok(PreparedTransportSession::ModernAirPlay(s)),
                Err(e) => Err(e),
            },
        }
    }

    /// The name of the chosen transport.
    pub fn transport_name(&self) -> (r: &'static str)
        ensures
            self is ClassicRaop ==> r@ == "raop"@,
            self is ModernAirPlay ==> r@ == "airplay2"@,
    {
        match self {
            PreparedTransportSession::ClassicRaop(_) => RaopSession::transport_name(),
            PreparedTransportSession::ModernAirPlay(_) => ModernAirPlaySession::transport_name(),
        }
    }
}


// ---------------------------------------------------------------------------
// RAOP handshake

/// `"METHOD -> code reason"`, the progress line for a reply.
pub fn format_response_status(method: &str, response: &RtspResponse) -> (r: String)
    ensures
        r@ == method@ + " -> "@ + crate::text::decimal(response.status.code as nat) + " "@
            + response.status.reason_phrase@,
{
    let mut line = String::from_str(method);
    crate::text::push_str(&mut line, " -> ");
    crate::text::push_decimal(&mut line, response.status.code as u64);
    crate::text::push_str(&mut line, " ");
    crate::text::push_str(&mut line, response.status.reason_phrase.as_str());
    line
}

/// The reply a RAOP handshake waits for.
#[derive(Debug, Clone, Copy, PartialEq, Eq, Structural)]
pub enum RaopHandshakeStep {
    AwaitOptions,
    AwaitAnnounce,
    AwaitSetup,
    AwaitRecord,
    Done,
}

/// What the caller of a RAOP handshake does next.
#[derive(Debug, Clone, PartialEq, Eq)]
pub enum RaopHandshakeAction {
    /// Send the request and hand the reply back.
    Send(RtspRequest),
    /// Start answering timing requests on the local timing port, then send
    /// the request and hand the reply back.
    StartTimingThenSend(RtspRequest),
    /// The receiver streams: keep the control connection alive every
    /// `keepalive_interval_secs` from CSeq `cseq` on, and send audio and
    /// control packets to the receiver's `server_port` and `control_port`.
    Established {
        session_id: String,
        keepalive_interval_secs: u64,
        server_port: u16,
        control_port: u16,
        cseq: u32,
    },
}

/// The RTSP exchange that takes a RAOP session from connected to streaming:
/// OPTIONS, ANNOUNCE, SETUP, RECORD, each sent once the previous reply came
/// back as success.
#[derive(Debug, Clone, PartialEq, Eq)]
pub struct RaopHandshake {
    pub session: RaopSession,
    pub step: RaopHandshakeStep,
    pub transport: SetupTransport,
    pub sender_ip: Option<String>,
}

/// The optional string as an optional `&str`.
fn opt_as_str(o: &Option<String>) -> (r: Option<&str>)
    ensures
        match *o {
            Some(s) => r matches Some(t) && t@ == s@,
            None => r is None,
        },
{
    match o {
        Some(s) => Some(s.as_str()),
        None => None,
    }
}

/// The address ANNOUNCE names for an optional sender address.
pub open spec fn announced_ip_of(o: Option<String>) -> Seq<char> {
    match o {
        Some(s) => s@,
        None => "0.0.0.0"@,
    }
}

impl RaopHandshake {
    /// Starts the handshake of `session` with OPTIONS; `transport` holds the
    /// local control and timing ports and `sender_ip` the local address that
    /// reaches the receiver, when known.
    pub fn start(session: RaopSession, transport: SetupTransport, sender_ip: Option<String>) -> (r: (Self, RaopHandshakeAction))
        ensures
            r.0.step == RaopHandshakeStep::AwaitOptions,
            r.0.session == (RaopSession { cseq: next_cseq(session.cseq), ..session }),
            r.0.transport == transport,
            r.0.sender_ip == sender_ip,
            r.1 matches RaopHandshakeAction::Send(req) && is_options_request(req, session.descriptor, r.0.session.cseq),
    {
        let mut session = session;
        let request = session.options_request();
        (RaopHandshake { session, step: RaopHandshakeStep::AwaitOptions, transport, sender_ip }, RaopHandshakeAction::Send(request))
    }

    /// Takes in the reply to the last request and says what comes next; a
    /// failed reply ends the handshake with its error and changes nothing.
    pub fn on_response(&mut self, response: &RtspResponse) -> (r: Result<RaopHandshakeAction, AirPlayError>)
        ensures
            final(self).transport == old(self).transport,
            final(self).sender_ip == old(self).sender_ip,
            r is Err ==> *final(self) == *old(self),
            old(self).step == RaopHandshakeStep::Done ==> r == Err::<RaopHandshakeAction, AirPlayError>(AirPlayError::NotReady),
            old(self).step == RaopHandshakeStep::AwaitOptions ==> if 200 <= response.status.code < 300 {
                &&& final(self).step == RaopHandshakeStep::AwaitAnnounce
                &&& final(self).session == (RaopSession { cseq: next_cseq(old(self).session.cseq), ..old(self).session })
                &&& r matches Ok(RaopHandshakeAction::Send(req)) && is_announce_request(
                    req,
                    old(self).session.descriptor,
                    final(self).session.cseq,
                    old(self).session.codec.rtpmap@,
                    announced_ip_of(old(self).sender_ip),
                )
            } else {
                r matches Err(e) && reply_failure("OPTIONS"@, response.status.code, e)
            },
            old(self).step == RaopHandshakeStep::AwaitAnnounce ==> if 200 <= response.status.code < 300 {
                &&& final(self).step == RaopHandshakeStep::AwaitSetup
                &&& final(self).session == (RaopSession { cseq: next_cseq(old(self).session.cseq), ..old(self).session })
                &&& r matches Ok(RaopHandshakeAction::StartTimingThenSend(req)) && is_setup_request(
                    req,
                    old(self).session.descriptor,
                    final(self).session.cseq,
                    old(self).transport,
                )
            } else {
                r matches Err(e) && reply_failure("ANNOUNCE"@, response.status.code, e)
            },
            old(self).step == RaopHandshakeStep::AwaitSetup ==> match setup_reply_fields(response.status.code, response.headers@) {
                Some((sid, timeout, server, control, timing)) => {
                    &&& final(self).step == RaopHandshakeStep::AwaitRecord
                    &&& final(self).session.state == RaopSessionState::Prepared
                    &&& final(self).session.cseq == next_cseq(old(self).session.cseq)
                    &&& final(self).session.descriptor == old(self).session.descriptor
                    &&& final(self).session.packet_counters == old(self).session.packet_counters
                    &&& final(self).session.audio_ssrc == old(self).session.audio_ssrc
                    &&& (final(self).session.setup_reply matches Some(reply) && reply.session_id@ == sid
                        && reply.session_timeout_secs == timeout && reply.server_port == server
                        && reply.control_port == control && reply.timing_port == timing)
                    &&& r matches Ok(RaopHandshakeAction::Send(req)) && is_record_request(
                        req,
                        old(self).session.descriptor,
                        final(self).session.cseq,
                        sid,
                        old(self).session.packet_counters.next_sequence,
                        old(self).session.packet_counters.next_timestamp,
                    )
                },
                None => r matches Err(AirPlayError::Protocol { message }) && message@ == setup_reply_error(
                    response.status.code,
                    response.headers@,
                ),
            },
            old(self).step == RaopHandshakeStep::AwaitRecord && old(self).session.setup_reply is Some ==> if 200
                <= response.status.code < 300 {
                &&& final(self).step == RaopHandshakeStep::Done
                &&& final(self).session == (RaopSession { state: RaopSessionState::Streaming, ..old(self).session })
                &&& old(self).session.setup_reply matches Some(reply) && r == Ok::<RaopHandshakeAction, AirPlayError>(
                    RaopHandshakeAction::Established {
                        session_id: reply.session_id,
                        keepalive_interval_secs: keepalive_interval_secs(reply.session_timeout_secs),
                        server_port: reply.server_port,
                        control_port: reply.control_port,
                        cseq: old(self).session.cseq,
                    },
                )
            } else {
                r matches Err(e) && reply_failure("RECORD"@, response.status.code, e)
            },
            old(self).step == RaopHandshakeStep::AwaitRecord && old(self).session.setup_reply is None ==> r
                == Err::<RaopHandshakeAction, AirPlayError>(AirPlayError::NotReady),
    {
        match self.step {
            RaopHandshakeStep::AwaitOptions => {
                match ensure_success(response, "OPTIONS") {
                    Ok(()) => {},
                    Err(e) => {
                        return Err(e);
                    },
                }
                let request = self.session.announce_request(opt_as_str(&self.sender_ip));
                self.step = RaopHandshakeStep::AwaitAnnounce;
                Ok(RaopHandshakeAction::Send(request))
            },
            RaopHandshakeStep::AwaitAnnounce => {
                match ensure_success(response, "ANNOUNCE") {
                    Ok(()) => {},
                    Err(e) => {
                        return Err(e);
                    },
                }
                let request = self.session.setup_request(self.transport);
                self.step = RaopHandshakeStep::AwaitSetup;
                Ok(RaopHandshakeAction::StartTimingThenSend(request))
            },
            RaopHandshakeStep::AwaitSetup => {
                match self.session.apply_setup_response(response) {
                    Ok(()) => {},
                    Err(e) => {
                        return Err(e);
                    },
                }
                let request = match self.session.record_request() {
                    Ok(request) => request,
                    Err(e) => {
                        return Err(e);
                    },
                };
                self.step = RaopHandshakeStep::AwaitRecord;
                Ok(RaopHandshakeAction::Send(request))
            },
            RaopHandshakeStep::AwaitRecord => {
                let (session_id, timeout, server_port, control_port) = match &self.session.setup_reply {
                    Some(reply) => (reply.session_id.clone(), reply.session_timeout_secs, reply.server_port, reply.control_port),
                    None => {
                        return Err(AirPlayError::NotReady);
                    },
                };
                match self.session.apply_record_response(response) {
                    Ok(()) => {},
                    Err(e) => {
                        return Err(e);
                    },
                }
                self.step = RaopHandshakeStep::Done;
                Ok(RaopHandshakeAction::Established {
                    session_id,
                    keepalive_interval_secs: compute_rtsp_keepalive_interval(timeout),
                    server_port,
                    control_port,
                    cseq: self.session.cseq,
                })
            },
            RaopHandshakeStep::Done => Err(AirPlayError::NotReady),
        }
    }
}

impl RtspKeepalive {
    /// Whether the keep-alive may go on after `response`: a failed reply
    /// ends it with its error.
    pub fn check_keepalive_response(response: &RtspResponse) -> (r: Result<(), AirPlayError>)
        ensures
            r is Ok <==> 200 <= response.status.code < 300,
            (response.status.code == 401 || response.status.code == 403) ==> r == Err::<(), AirPlayError>(
                AirPlayError::AuthenticationRequired,
            ),
    {
        ensure_success(response, "RTSP keepalive")
    }

    /// The outcome of TEARDOWN from its reply.
    pub fn check_teardown_response(response: &RtspResponse) -> (r: Result<(), AirPlayError>)
        ensures
            r is Ok <==> 200 <= response.status.code < 300,
            (response.status.code == 401 || response.status.code == 403) ==> r == Err::<(), AirPlayError>(
                AirPlayError::AuthenticationRequired,
            ),
    {
        ensure_success(response, "TEARDOWN")
    }
}

} // verus!
