//! Receivers, audio formats, stored pairing data and the descriptor of one
//! streaming session.

use vstd::prelude::*;

use vstd::utf8::encode_utf8;

use crate::bytes::be_u16;
use crate::error::AirPlayError;
use crate::text::{decimal, push_decimal, push_str};

verus! {

/// Sample rate of the RAOP stream.
pub const RAOP_SAMPLE_RATE_HZ: u32 = 44_100;

/// Channel count of the RAOP stream.
pub const RAOP_CHANNELS: u16 = 2;

/// Bits per sample of the RAOP stream.
pub const RAOP_BITS_PER_SAMPLE: u16 = 16;

/// Audio frames in one RTP packet.
pub const RAOP_FRAMES_PER_PACKET: usize = 352;

/// Start-up latency asked of the receiver, in milliseconds.
pub const RAOP_STARTUP_LATENCY_MILLIS: u32 = 250;

/// Start-up latency asked of the receiver, in frames at 44.1 kHz.
pub const RAOP_STARTUP_LATENCY_FRAMES: u32 = 11_025;

/// How samples are stored in the input.
#[derive(Debug, Clone, Copy, PartialEq, Eq, Structural)]
pub enum AudioSampleType {
    Int,
    Float,
}

/// Layout of the input audio.
#[derive(Debug, Clone, Copy, PartialEq, Eq, Structural)]
pub struct AudioFormat {
    pub sample_rate_hz: u32,
    pub channels: u16,
    pub bits_per_sample: u16,
    pub sample_type: AudioSampleType,
}

impl Default for AudioFormat {
    /// 44.1 kHz stereo 16-bit integer PCM, the RAOP wire format.
    fn default() -> (r: Self)
        ensures
            r == (AudioFormat {
                sample_rate_hz: 44_100,
                channels: 2,
                bits_per_sample: 16,
                sample_type: AudioSampleType::Int,
            }),
    {
        AudioFormat {
            sample_rate_hz: RAOP_SAMPLE_RATE_HZ,
            channels: RAOP_CHANNELS,
            bits_per_sample: RAOP_BITS_PER_SAMPLE,
            sample_type: AudioSampleType::Int,
        }
    }
}

/// Whether the sender can decode input in `f`: at least one channel of
/// 16-, 24- or 32-bit integers or of 32-bit floats.
pub open spec fn format_supported(f: AudioFormat) -> bool {
    &&& f.channels > 0
    &&& match f.sample_type {
        AudioSampleType::Int => f.bits_per_sample == 16 || f.bits_per_sample == 24
            || f.bits_per_sample == 32,
        AudioSampleType::Float => f.bits_per_sample == 32,
    }
}

/// The input formats the sender decodes: integer PCM of 16, 24 or 32 bits
/// and 32-bit float, with at least one channel; nothing else. Stereo 24-bit
/// integer PCM, for one, is accepted.
pub proof fn lemma_decodable_formats(f: AudioFormat)
    ensures
        format_supported(f) <==> (f.channels > 0 && ((f.sample_type == AudioSampleType::Int && (f.bits_per_sample
            == 16 || f.bits_per_sample == 24 || f.bits_per_sample == 32)) || (f.sample_type == AudioSampleType::Float
            && f.bits_per_sample == 32))),
        f.channels == 2 && f.sample_type == AudioSampleType::Int && f.bits_per_sample == 24 ==> format_supported(f)
            && f.channels * (f.bits_per_sample / 8) == 6,
{
}

impl AudioFormat {
    /// Bytes of one frame (all channels of one sample instant), for a
    /// supported format.
    pub fn block_align_bytes(&self) -> (r: Option<usize>)
        ensures
            format_supported(*self) ==> r == Some((self.channels * (self.bits_per_sample / 8)) as usize),
            !format_supported(*self) ==> r is None,
            // Integer PCM of 16, 24 or 32 bits and 32-bit float, with at
            // least one channel, are decoded; a frame holds one sample of
            // each channel.
            self.channels > 0 && self.sample_type == AudioSampleType::Int && (self.bits_per_sample == 16
                || self.bits_per_sample == 24 || self.bits_per_sample == 32) ==> r == Some(
                (self.channels * (self.bits_per_sample / 8)) as usize,
            ),
            self.channels > 0 && self.sample_type == AudioSampleType::Float && self.bits_per_sample == 32 ==> r
                == Some((self.channels * 4) as usize),
            self.channels == 0 ==> r is None,
    {
        let supported = self.channels > 0 && match self.sample_type {
            AudioSampleType::Int => self.bits_per_sample == 16 || self.bits_per_sample == 24
                || self.bits_per_sample == 32,
            AudioSampleType::Float => self.bits_per_sample == 32,
        };
        if supported {
            let per: usize = (self.bits_per_sample / 8) as usize;
            let ch: usize = self.channels as usize;
            assert(ch * per <= 65535 * 4) by (nonlinear_arith)
                requires
                    per <= 4,
                    ch <= 65535,
            ;
            Some(ch * per)
        } else {
            None
        }
    }
}

/// The AirPlay generation a receiver announces.
#[derive(Debug, Clone, Copy, PartialEq, Eq, Structural)]
pub enum AirPlayGeneration {
    AirPlay1,
    AirPlay2,
}

/// Which transport a receiver needs.
#[derive(Debug, Clone, Copy, PartialEq, Eq, Structural)]
pub enum ReceiverKind {
    /// Plain RAOP without authentication.
    ClassicRaop,
    /// AirPlay 2 style receivers that need pairing and pair-verify.
    ModernAirPlayAuth,
}

/// Whether this sender can stream to a receiver.
#[derive(Debug, Clone, Copy, PartialEq, Eq, Structural)]
pub enum DeviceSupport {
    Supported,
    Unsupported,
}

/// A receiver found on the network.
#[derive(Debug, Clone, PartialEq, Eq)]
pub struct SpeakerDevice {
    pub id: String,
    pub name: String,
    pub host: String,
    pub port: u16,
    pub generation: AirPlayGeneration,
    pub pairing_id: Option<String>,
    pub receiver_public_key: Option<String>,
    pub receiver_kind: ReceiverKind,
    pub support: DeviceSupport,
}

/// A copy of an optional string.
pub fn copy_opt_string(s: &Option<String>) -> (r: Option<String>)
    ensures
        r == *s,
{
    match s {
        Some(v) => Some(v.clone()),
        None => None,
    }
}

impl SpeakerDevice {
    /// A field-by-field copy.
    pub fn duplicate(&self) -> (r: Self)
        ensures
            r == *self,
    {
        SpeakerDevice {
            id: self.id.clone(),
            name: self.name.clone(),
            host: self.host.clone(),
            port: self.port,
            generation: self.generation,
            pairing_id: copy_opt_string(&self.pairing_id),
            receiver_public_key: copy_opt_string(&self.receiver_public_key),
            receiver_kind: self.receiver_kind,
            support: self.support,
        }
    }

    /// `host:port`.
    pub fn endpoint(&self) -> (r: String)
        ensures
            r@ == endpoint_text(*self),
    {
        let mut s = String::new();
        push_str(&mut s, self.host.as_str());
        s.push(':');
        push_decimal(&mut s, self.port as u64);
        s
    }
}

/// `host:port` of a receiver.
pub open spec fn endpoint_text(d: SpeakerDevice) -> Seq<char> {
    d.host@.push(':') + decimal(d.port as nat)
}

/// Which pairing protocol stored credentials come from.
#[derive(Debug, Clone, Copy, PartialEq, Eq, Structural)]
pub enum ReceiverAuthFlow {
    Modern,
    LegacyPin,
}

/// Long-term keys exchanged when pairing with a receiver, hex encoded.
#[derive(Debug, Clone, PartialEq, Eq)]
pub struct ReceiverCredentials {
    pub auth_flow: ReceiverAuthFlow,
    pub controller_pairing_id: String,
    pub controller_ltpk_hex: String,
    pub controller_ltsk_hex: String,
    pub receiver_pairing_id: String,
    pub receiver_ltpk_hex: String,
}

impl ReceiverCredentials {
    /// A field-by-field copy.
    pub fn duplicate(&self) -> (r: Self)
        ensures
            r == *self,
    {
        ReceiverCredentials {
            auth_flow: self.auth_flow,
            controller_pairing_id: self.controller_pairing_id.clone(),
            controller_ltpk_hex: self.controller_ltpk_hex.clone(),
            controller_ltsk_hex: self.controller_ltsk_hex.clone(),
            receiver_pairing_id: self.receiver_pairing_id.clone(),
            receiver_ltpk_hex: self.receiver_ltpk_hex.clone(),
        }
    }
}

// ---------------------------------------------------------------------------
// FNV-1a identity hashing

/// Offset basis of 64-bit FNV-1a.
pub const FNV_OFFSET_BASIS: u64 = 0xcbf2_9ce4_8422_2325;

/// Prime of 64-bit FNV-1a.
pub const FNV_PRIME: u64 = 0x0000_0100_0000_01b3;

/// One FNV-1a step.
pub open spec fn fnv_step(h: u64, b: u8) -> u64 {
    (((h ^ (b as u64)) as nat * FNV_PRIME as nat) % 0x1_0000_0000_0000_0000) as u64
}

/// FNV-1a over `bytes`, starting from `h`.
pub open spec fn fnv_bytes(h: u64, bytes: Seq<u8>) -> u64
    decreases bytes.len(),
{
    if bytes.len() == 0 {
        h
    } else {
        fnv_step(fnv_bytes(h, bytes.drop_last()), bytes.last())
    }
}

/// FNV-1a over `bytes` followed by the separator `|`.
pub open spec fn fnv_segment(h: u64, bytes: Seq<u8>) -> u64 {
    fnv_step(fnv_bytes(h, bytes), 124)
}

fn fnv_step_exec(h: u64, b: u8) -> (r: u64)
    ensures
        r == fnv_step(h, b),
{
    (h ^ (b as u64)).wrapping_mul(FNV_PRIME)
}

/// Mixes `bytes` and a `|` separator into `hash`.
pub fn hash_identifier_segment(hash: &mut u64, bytes: &[u8])
    ensures
        *final(hash) == fnv_segment(*old(hash), bytes@),
{
    let ghost start = *hash;
    let mut i: usize = 0;
    while i < bytes.len()
        invariant
            i <= bytes@.len(),
            *hash == fnv_bytes(start, bytes@.subrange(0, i as int)),
        decreases bytes@.len() - i,
    {
        assert(bytes@.subrange(0, i + 1).drop_last() =~= bytes@.subrange(0, i as int));
        *hash = fnv_step_exec(*hash, bytes[i]);
        i = i + 1;
    }
    assert(bytes@.subrange(0, bytes@.len() as int) =~= bytes@);
    *hash = fnv_step_exec(*hash, 124);
}

/// The identity hash of a receiver: FNV-1a over its id, host and port.
pub open spec fn device_hash(d: SpeakerDevice) -> u64 {
    fnv_segment(
        fnv_segment(fnv_segment(FNV_OFFSET_BASIS, encode_utf8(d.id@)), encode_utf8(d.host@)),
        be_u16(d.port),
    )
}

// ---------------------------------------------------------------------------
// Hex formatting

/// The upper-case hexadecimal digit of `d % 16`.
pub open spec fn hex_char(d: nat) -> char {
    let x = d % 16;
    if x < 10 {
        (x + 48) as char
    } else {
        (x + 55) as char
    }
}

/// The last `n` hexadecimal digits of `v`, most significant first.
pub open spec fn hex_fixed(v: nat, n: nat) -> Seq<char>
    decreases n,
{
    if n == 0 {
        seq![]
    } else {
        hex_fixed(v / 16, (n - 1) as nat).push(hex_char(v % 16))
    }
}

fn hex_digit(d: u64) -> (c: char)
    requires
        d < 16,
    ensures
        c == hex_char(d as nat),
{
    if d < 10 {
        ((d as u8) + 48) as char
    } else {
        ((d as u8) + 55) as char
    }
}

/// Appends the last `n` hexadecimal digits of `v`.
pub fn push_hex(out: &mut String, v: u64, n: u32)
    ensures
        final(out)@ == old(out)@ + hex_fixed(v as nat, n as nat),
    decreases n,
{
    if n > 0 {
        push_hex(out, v / 16, n - 1);
        let c = hex_digit(v % 16);
        out.push(c);
    }
    assert(final(out)@ =~= old(out)@ + hex_fixed(v as nat, n as nat));
}

/// The low `n` bytes of `v` in upper-case hex pairs joined by colons, the
/// most significant first.
pub open spec fn mac_text(v: nat, n: nat) -> Seq<char>
    decreases n,
{
    if n == 0 {
        seq![]
    } else if n == 1 {
        hex_fixed(v % 256, 2)
    } else {
        mac_text(v / 256, (n - 1) as nat) + seq![':'] + hex_fixed(v % 256, 2)
    }
}

/// Appends the low `n` bytes of `v` as colon-separated hex pairs.
pub fn push_mac(out: &mut String, v: u64, n: u32)
    ensures
        final(out)@ == old(out)@ + mac_text(v as nat, n as nat),
    decreases n,
{
    if n == 1 {
        push_hex(out, v % 256, 2);
    } else if n > 1 {
        push_mac(out, v / 256, n - 1);
        out.push(':');
        push_hex(out, v % 256, 2);
    }
    assert(final(out)@ =~= old(out)@ + mac_text(v as nat, n as nat));
}

// ---------------------------------------------------------------------------
// Session descriptor

/// Everything needed to open a session with one receiver.
#[derive(Debug, Clone, PartialEq, Eq)]
pub struct SessionDescriptor {
    pub device: SpeakerDevice,
    pub input_format: AudioFormat,
    pub frames_per_packet: usize,
    pub receiver_credentials: Option<ReceiverCredentials>,
    /// Identifies the stream in RTSP URIs and the SDP origin line.
    pub stream_session_id: u32,
    /// The `Client-Instance` and `DACP-ID` header value.
    pub client_instance: String,
    /// The id this sender pairs under, shaped like a MAC address.
    pub client_device_id: String,
    /// The `Active-Remote` header value.
    pub active_remote: String,
}

/// A copy of optional credentials.
pub fn copy_opt_credentials(c: &Option<ReceiverCredentials>) -> (r: Option<ReceiverCredentials>)
    ensures
        r == *c,
{
    match c {
        Some(v) => Some(v.duplicate()),
        None => None,
    }
}

impl SessionDescriptor {
    /// A descriptor for streaming `input_format` to `device`, with no stored
    /// credentials and RAOP-sized packets. The session identifiers derive
    /// from the device's identity hash: its low 32 bits are the stream id,
    /// the whole hash in 16 hex digits the client instance, and its high
    /// 32 bits in decimal the active-remote token.
    pub fn new(device: SpeakerDevice, input_format: AudioFormat) -> (r: Self)
        ensures
            r.device == device,
            r.input_format == input_format,
            r.frames_per_packet == RAOP_FRAMES_PER_PACKET,
            r.receiver_credentials is None,
            r.stream_session_id == device_hash(device) % 0x1_0000_0000,
            r.client_instance@ == hex_fixed(device_hash(device) as nat, 16),
            r.client_device_id@ == mac_text(device_hash(device) as nat, 6),
            r.active_remote@ == decimal(device_hash(device) as nat / 0x1_0000_0000),
    {
        let mut hash: u64 = FNV_OFFSET_BASIS;
        hash_identifier_segment(&mut hash, device.id.as_str().as_bytes());
        hash_identifier_segment(&mut hash, device.host.as_str().as_bytes());
        let port_bytes: [u8; 2] = [(device.port / 256) as u8, (device.port % 256) as u8];
        assert(port_bytes@ =~= be_u16(device.port));
        hash_identifier_segment(&mut hash, &port_bytes);
        let mut client_instance = String::new();
        push_hex(&mut client_instance, hash, 16);
        assert(client_instance@ =~= hex_fixed(hash as nat, 16));
        let mut client_device_id = String::new();
        push_mac(&mut client_device_id, hash, 6);
        let mut active_remote = String::new();
        push_decimal(&mut active_remote, hash / 0x1_0000_0000);
        assert(active_remote@ =~= decimal(hash as nat / 0x1_0000_0000));
        SessionDescriptor {
            device,
            input_format,
            frames_per_packet: RAOP_FRAMES_PER_PACKET,
            receiver_credentials: None,
            stream_session_id: (hash % 0x1_0000_0000) as u32,
            client_instance,
            client_device_id,
            active_remote,
        }
    }

    /// A field-by-field copy.
    pub fn duplicate(&self) -> (r: Self)
        ensures
            r == *self,
    {
        SessionDescriptor {
            device: self.device.duplicate(),
            input_format: self.input_format,
            frames_per_packet: self.frames_per_packet,
            receiver_credentials: copy_opt_credentials(&self.receiver_credentials),
            stream_session_id: self.stream_session_id,
            client_instance: self.client_instance.clone(),
            client_device_id: self.client_device_id.clone(),
            active_remote: self.active_remote.clone(),
        }
    }

    /// The stream id used in RTSP URIs.
    pub fn stream_session_id(&self) -> (r: u32)
        ensures
            r == self.stream_session_id,
    {
        self.stream_session_id
    }

    /// The `Client-Instance` header value.
    pub fn client_instance(&self) -> (r: String)
        ensures
            r@ == self.client_instance@,
    {
        self.client_instance.clone()
    }

    /// The `DACP-ID` header value, the same as the client instance.
    pub fn dacp_id(&self) -> (r: String)
        ensures
            r@ == self.client_instance@,
    {
        self.client_instance.clone()
    }

    /// The `Active-Remote` header value.
    pub fn active_remote(&self) -> (r: String)
        ensures
            r@ == self.active_remote@,
    {
        self.active_remote.clone()
    }

    /// The identifier this sender pairs under.
    pub fn client_device_id(&self) -> (r: String)
        ensures
            r@ == self.client_device_id@,
    {
        self.client_device_id.clone()
    }

    /// Checks that a session can be built: the input format must be
    /// supported and packets must hold at least one frame.
    pub fn validate(&self) -> (r: Result<(), AirPlayError>)
        ensures
            r is Ok <==> descriptor_valid(*self),
            r matches Err(e) ==> is_validation_error(e, *self),
    {
        if self.input_format.block_align_bytes().is_none() {
            return Err(AirPlayError::UnsupportedAudioFormat {
                message: String::from_str("input format is not decodable"),
            });
        }
        if self.frames_per_packet == 0 {
            return Err(AirPlayError::InvalidSession {
                message: String::from_str("packets must hold at least one frame"),
            });
        }
        Ok(())
    }
}

/// Whether `e` is the error validating `d` gives: an undecodable input
/// format first, then packets without frames.
pub open spec fn is_validation_error(e: AirPlayError, d: SessionDescriptor) -> bool {
    if !format_supported(d.input_format) {
        e matches AirPlayError::UnsupportedAudioFormat { message } && message@ == "input format is not decodable"@
    } else {
        e matches AirPlayError::InvalidSession { message } && message@ == "packets must hold at least one frame"@
    }
}

/// Whether a session can be built from `d`.
pub open spec fn descriptor_valid(d: SessionDescriptor) -> bool {
    format_supported(d.input_format) && d.frames_per_packet > 0
}

} // verus!
