//! Configuration of the audio sink and the packet pacing of a stream: which
//! RTP packet carries each payload and when a sync packet goes out.

use vstd::prelude::*;

use crate::model::RAOP_FRAMES_PER_PACKET;
use crate::packet::{RaopPacketCounters, RaopSyncPacket, RtpAudioPacket};

verus! {

/// RTP payload type of the audio stream.
pub const RAOP_AUDIO_PAYLOAD_TYPE: u8 = 96;

/// Settings of the audio sink of one stream.
#[derive(Debug, Clone, Copy, PartialEq, Eq, Structural)]
pub struct RaopSinkConfig {
    pub frames_per_packet: usize,
    pub sync_interval_packets: usize,
    pub sender_volume_percent: u16,
}

impl Default for RaopSinkConfig {
    /// 352-frame packets, a sync packet every 125 packets, full volume.
    fn default() -> (r: Self)
        ensures
            r == (RaopSinkConfig {
                frames_per_packet: 352,
                sync_interval_packets: 125,
                sender_volume_percent: 100,
            }),
    {
        RaopSinkConfig {
            frames_per_packet: RAOP_FRAMES_PER_PACKET,
            sync_interval_packets: 125,
            sender_volume_percent: 100,
        }
    }
}

/// What goes on the wire for one payload: the audio packet and, when due,
/// the sync packet sent right after it.
#[derive(Debug, Clone, PartialEq, Eq)]
pub struct PlannedPacket {
    pub audio: RtpAudioPacket,
    pub sync: Option<RaopSyncPacket>,
}

/// The packet pacing state of a stream.
#[derive(Debug, Clone, Copy, PartialEq, Eq)]
pub struct RaopPacketizer {
    pub audio_ssrc: u32,
    pub packet_counters: RaopPacketCounters,
    pub sync_interval_packets: usize,
    pub first_packet_in_stream: bool,
    pub sent_audio_packets: usize,
}

impl RaopPacketizer {
    /// The state at the start of a stream.
    pub fn new(audio_ssrc: u32, packet_counters: RaopPacketCounters, config: RaopSinkConfig) -> (r: Self)
        ensures
            r.audio_ssrc == audio_ssrc,
            r.packet_counters == packet_counters,
            r.sync_interval_packets == config.sync_interval_packets,
            r.first_packet_in_stream,
            r.sent_audio_packets == 0,
    {
        RaopPacketizer {
            audio_ssrc,
            packet_counters,
            sync_interval_packets: config.sync_interval_packets,
            first_packet_in_stream: true,
            sent_audio_packets: 0,
        }
    }

    /// Frames a 16-bit stereo PCM payload into the next RTP packet. The
    /// first packet of the stream carries the marker bit; the first packet
    /// and every packet whose index is a multiple of the sync interval are
    /// followed by a sync packet stamped `ntp_timestamp` that announces the
    /// timestamp of the packet after. A payload whose frame count exceeds
    /// the 32-bit timestamp range is refused and nothing changes. A sync
    /// interval of 0 can only frame the first packet.
    pub fn next_packet(&mut self, payload: Vec<u8>, ntp_timestamp: u64) -> (r: Result<PlannedPacket, &'static str>)
        requires
            old(self).sync_interval_packets > 0 || old(self).first_packet_in_stream,
        ensures
            payload@.len() / 4 > u32::MAX ==> r is Err && *final(self) == *old(self),
            payload@.len() / 4 <= u32::MAX ==> (r matches Ok(planned) && {
                let before = old(self).packet_counters;
                let after = final(self).packet_counters;
                let sync_due = old(self).first_packet_in_stream || old(self).sent_audio_packets
                    % old(self).sync_interval_packets == 0;
                &&& after.next_sequence == (before.next_sequence + 1) % 0x1_0000
                &&& after.next_timestamp == (before.next_timestamp + payload@.len() / 4) % 0x1_0000_0000
                &&& planned.audio.marker == old(self).first_packet_in_stream
                &&& planned.audio.sequence == before.next_sequence
                &&& planned.audio.timestamp == before.next_timestamp
                &&& planned.audio.payload_type == RAOP_AUDIO_PAYLOAD_TYPE
                &&& planned.audio.ssrc == old(self).audio_ssrc
                &&& planned.audio.payload@ == payload@
                &&& sync_due ==> planned.sync == Some(
                    RaopSyncPacket {
                        first_packet_in_stream: old(self).first_packet_in_stream,
                        sequence: before.next_sequence,
                        ntp_timestamp,
                        rtp_timestamp: before.next_timestamp,
                        next_rtp_timestamp: after.next_timestamp,
                    },
                )
                &&& !sync_due ==> planned.sync is None
                &&& !final(self).first_packet_in_stream
                &&& final(self).sent_audio_packets == if old(self).sent_audio_packets == usize::MAX {
                    usize::MAX as int
                } else {
                    old(self).sent_audio_packets + 1
                }
                &&& final(self).audio_ssrc == old(self).audio_ssrc
                &&& final(self).sync_interval_packets == old(self).sync_interval_packets
            }),
    {
        let frames = payload.len() / 4;
        let (sequence, timestamp) = match self.packet_counters.allocate_audio_packet(frames) {
            Ok(p) => p,
            Err(e) => {
                return Err(e);
            },
        };
        let audio = RtpAudioPacket {
            marker: self.first_packet_in_stream,
            sequence,
            timestamp,
            payload_type: RAOP_AUDIO_PAYLOAD_TYPE,
            ssrc: self.audio_ssrc,
            payload,
        };
        let sync = if self.first_packet_in_stream || self.sent_audio_packets % self.sync_interval_packets == 0 {
            let next_rtp_timestamp = self.packet_counters.peek_audio_packet().1;
            Some(
                RaopSyncPacket {
                    first_packet_in_stream: self.first_packet_in_stream,
                    sequence,
                    ntp_timestamp,
                    rtp_timestamp: timestamp,
                    next_rtp_timestamp,
                },
            )
        } else {
            None
        };
        self.first_packet_in_stream = false;
        self.sent_audio_packets = self.sent_audio_packets.saturating_add(1);
        Ok(PlannedPacket { audio, sync })
    }
}

} // verus!
