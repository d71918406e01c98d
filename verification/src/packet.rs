//! RTP audio packets, RAOP sync packets and the RTP counters of a stream.

use vstd::prelude::*;

use crate::bytes::{be_u16, be_u32, be_u64, push_all, push_be_u16, push_be_u32, push_be_u64};

verus! {

/// Sequence number and RTP timestamp of the next audio packet of a stream.
#[derive(Debug, Clone, Copy, PartialEq, Eq)]
pub struct RaopPacketCounters {
    pub next_sequence: u16,
    pub next_timestamp: u32,
}

impl RaopPacketCounters {
    pub fn new(initial_sequence: u16, initial_timestamp: u32) -> (r: Self)
        ensures
            r.next_sequence == initial_sequence,
            r.next_timestamp == initial_timestamp,
    {
        RaopPacketCounters { next_sequence: initial_sequence, next_timestamp: initial_timestamp }
    }

    /// The counters the next allocated packet will carry; nothing advances.
    pub fn peek_audio_packet(self) -> (r: (u16, u32))
        ensures
            r == (self.next_sequence, self.next_timestamp),
    {
        (self.next_sequence, self.next_timestamp)
    }

    /// Hands out the current counters and advances them: the sequence by one,
    /// the timestamp by `frames`, both wrapping. A frame count beyond the
    /// 32-bit RTP timestamp range is refused and nothing changes.
    pub fn allocate_audio_packet(&mut self, frames: usize) -> (r: Result<(u16, u32), &'static str>)
        ensures
            frames > u32::MAX ==> (r matches Err(m) && m@ == "audio frame count exceeds RAOP RTP timestamp range"@)
                && *final(self) == *old(self),
            frames <= u32::MAX ==> {
                &&& r == Ok::<(u16, u32), &'static str>((old(self).next_sequence, old(self).next_timestamp))
                &&& final(self).next_sequence == (old(self).next_sequence + 1) % 0x1_0000
                &&& final(self).next_timestamp == (old(self).next_timestamp + frames) % 0x1_0000_0000
            },
    {
        if frames > u32::MAX as usize {
            return Err("audio frame count exceeds RAOP RTP timestamp range");
        }
        let frames = frames as u32;
        let sequence = self.next_sequence;
        let timestamp = self.next_timestamp;
        self.next_sequence = if sequence == u16::MAX { 0 } else { sequence + 1 };
        self.next_timestamp = if timestamp as u64 + frames as u64 > u32::MAX as u64 {
            (timestamp as u64 + frames as u64 - 0x1_0000_0000) as u32
        } else {
            timestamp + frames
        };
        Ok((sequence, timestamp))
    }
}

/// The second header byte of an RTP packet: marker bit, then the payload type.
pub open spec fn rtp_marker_byte(marker: bool, payload_type: u8) -> u8 {
    ((if marker { 128int } else { 0int }) + payload_type % 128) as u8
}

/// The 12-byte RTP header of an audio packet.
pub open spec fn rtp_header(marker: bool, payload_type: u8, sequence: u16, timestamp: u32, ssrc: u32) -> Seq<u8> {
    seq![0x80u8, rtp_marker_byte(marker, payload_type)] + be_u16(sequence) + be_u32(timestamp)
        + be_u32(ssrc)
}

/// An RTP packet sent to the audio data port.
#[derive(Debug, Clone, PartialEq, Eq)]
pub struct RtpAudioPacket {
    pub marker: bool,
    pub sequence: u16,
    pub timestamp: u32,
    pub payload_type: u8,
    pub ssrc: u32,
    pub payload: Vec<u8>,
}

impl RtpAudioPacket {
    /// The packet on the wire: the RTP header followed by the payload.
    pub fn encode(&self) -> (bytes: Vec<u8>)
        ensures
            bytes@ == rtp_header(self.marker, self.payload_type, self.sequence, self.timestamp, self.ssrc)
                + self.payload@,
    {
        let mut bytes: Vec<u8> = Vec::new();
        bytes.push(0x80);
        let pt = self.payload_type;
        let low: u8 = pt % 128;
        let second: u8 = if self.marker { 128 + low } else { low };
        bytes.push(second);
        push_be_u16(&mut bytes, self.sequence);
        push_be_u32(&mut bytes, self.timestamp);
        push_be_u32(&mut bytes, self.ssrc);
        push_all(&mut bytes, self.payload.as_slice());
        assert(bytes@ =~= rtp_header(self.marker, self.payload_type, self.sequence, self.timestamp, self.ssrc)
            + self.payload@);
        bytes
    }
}

/// The 20-byte RAOP sync packet sent to the control port.
pub open spec fn sync_packet_bytes(
    first_packet_in_stream: bool,
    sequence: u16,
    ntp_timestamp: u64,
    rtp_timestamp: u32,
    next_rtp_timestamp: u32,
) -> Seq<u8> {
    seq![if first_packet_in_stream { 0x90u8 } else { 0x80u8 }, 0xd4u8] + be_u16(sequence) + be_u32(
        rtp_timestamp,
    ) + be_u64(ntp_timestamp) + be_u32(next_rtp_timestamp)
}

/// A sync packet for the control port.
#[derive(Debug, Clone, Copy, PartialEq, Eq)]
pub struct RaopSyncPacket {
    pub first_packet_in_stream: bool,
    pub sequence: u16,
    pub ntp_timestamp: u64,
    pub rtp_timestamp: u32,
    pub next_rtp_timestamp: u32,
}

impl RaopSyncPacket {
    /// The packet on the wire, always 20 bytes.
    pub fn encode(&self) -> (bytes: [u8; 20])
        ensures
            bytes@ == sync_packet_bytes(
                self.first_packet_in_stream,
                self.sequence,
                self.ntp_timestamp,
                self.rtp_timestamp,
                self.next_rtp_timestamp,
            ),
    {
        let mut v: Vec<u8> = Vec::new();
        v.push(if self.first_packet_in_stream { 0x90 } else { 0x80 });
        v.push(0xd4);
        push_be_u16(&mut v, self.sequence);
        push_be_u32(&mut v, self.rtp_timestamp);
        push_be_u64(&mut v, self.ntp_timestamp);
        push_be_u32(&mut v, self.next_rtp_timestamp);
        let bytes: [u8; 20] = [
            v[0], v[1], v[2], v[3], v[4], v[5], v[6], v[7], v[8], v[9],
            v[10], v[11], v[12], v[13], v[14], v[15], v[16], v[17], v[18], v[19],
        ];
        assert(bytes@ =~= sync_packet_bytes(
            self.first_packet_in_stream,
            self.sequence,
            self.ntp_timestamp,
            self.rtp_timestamp,
            self.next_rtp_timestamp,
        ));
        bytes
    }
}

} // verus!
