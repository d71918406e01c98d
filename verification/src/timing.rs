//! Clocks and the RAOP timing protocol.

use vstd::prelude::*;

use crate::bytes::{be_u64, push_be_u64};

verus! {

/// Seconds from the NTP epoch (1900) to the Unix epoch (1970).
pub const NTP_UNIX_OFFSET_SECS: u64 = 2_208_988_800;

/// The current time since the Unix epoch as whole seconds and the
/// nanoseconds beyond them; a clock set before 1970 reads as zero.
#[verifier::external_body]
pub(crate) fn unix_time_now() -> (r: (u64, u32))
    ensures
        r.1 < 1_000_000_000,
{
    let elapsed = std::time::SystemTime::now().duration_since(std::time::UNIX_EPOCH).unwrap_or_default();
    (elapsed.as_secs(), elapsed.subsec_nanos())
}

/// The 64-bit NTP timestamp of a Unix instant: the seconds since 1900
/// (saturating, then cut to 32 bits) over the fraction of a second in
/// units of 2^-32 s.
pub open spec fn ntp_from_unix(secs: u64, subsec_nanos: u32) -> u64 {
    let seconds: nat = if secs + NTP_UNIX_OFFSET_SECS > u64::MAX {
        u64::MAX as nat
    } else {
        (secs + NTP_UNIX_OFFSET_SECS) as nat
    };
    let fraction: nat = (subsec_nanos as nat * 0x1_0000_0000) / 1_000_000_000;
    ((seconds % 0x1_0000_0000) * 0x1_0000_0000 + fraction) as u64
}

/// The seconds since 1900 of the Unix instant `secs`, saturating at the
/// largest `u64`.
pub open spec fn ntp_seconds(secs: u64) -> int {
    if secs + NTP_UNIX_OFFSET_SECS > u64::MAX {
        u64::MAX as int
    } else {
        secs + NTP_UNIX_OFFSET_SECS
    }
}

/// An NTP timestamp counts from 1900: its high 32 bits are the Unix
/// seconds plus the 70 years from 1900 to 1970 (2 208 988 800 s),
/// saturating, cut to 32 bits, and its low 32 bits the fraction of a second
/// in units of 2^-32 s, below one second.
pub proof fn lemma_ntp_timestamp_counts_from_1900(secs: u64, subsec_nanos: u32)
    requires
        subsec_nanos < 1_000_000_000,
    ensures
        ntp_from_unix(secs, subsec_nanos) / 0x1_0000_0000 == ntp_seconds(secs) % 0x1_0000_0000,
        ntp_from_unix(secs, subsec_nanos) % 0x1_0000_0000 == (subsec_nanos as int * 0x1_0000_0000) / 1_000_000_000,
        secs + 2_208_988_800 <= u64::MAX ==> ntp_from_unix(secs, subsec_nanos) / 0x1_0000_0000 == (secs
            + 2_208_988_800) % 0x1_0000_0000,
{
    let seconds: int = ntp_seconds(secs);
    let high: int = seconds % 0x1_0000_0000;
    let fraction: int = (subsec_nanos as int * 0x1_0000_0000) / 1_000_000_000;
    assert(0 <= fraction < 0x1_0000_0000) by (nonlinear_arith)
        requires
            0 <= subsec_nanos < 1_000_000_000,
            fraction == (subsec_nanos as int * 0x1_0000_0000) / 1_000_000_000,
    ;
    assert(0 <= high < 0x1_0000_0000);
    assert(0 <= high * 0x1_0000_0000 + fraction <= u64::MAX) by (nonlinear_arith)
        requires
            0 <= high < 0x1_0000_0000,
            0 <= fraction < 0x1_0000_0000,
    ;
    assert(ntp_from_unix(secs, subsec_nanos) == high * 0x1_0000_0000 + fraction);
    assert((high * 0x1_0000_0000 + fraction) / 0x1_0000_0000 == high && (high * 0x1_0000_0000 + fraction)
        % 0x1_0000_0000 == fraction) by (nonlinear_arith)
        requires
            0 <= high < 0x1_0000_0000,
            0 <= fraction < 0x1_0000_0000,
    ;
}

/// The NTP timestamp of a Unix instant.
pub fn ntp_timestamp_from_unix(secs: u64, subsec_nanos: u32) -> (r: u64)
    requires
        subsec_nanos < 1_000_000_000,
    ensures
        r == ntp_from_unix(secs, subsec_nanos),
        r / 0x1_0000_0000 == (if secs + NTP_UNIX_OFFSET_SECS > u64::MAX {
            u64::MAX as int
        } else {
            secs + NTP_UNIX_OFFSET_SECS
        }) % 0x1_0000_0000,
        r % 0x1_0000_0000 == (subsec_nanos as int * 0x1_0000_0000) / 1_000_000_000,
{
    proof {
        lemma_ntp_timestamp_counts_from_1900(secs, subsec_nanos);
    }
    let seconds = secs.saturating_add(NTP_UNIX_OFFSET_SECS);
    let n = subsec_nanos as u128;
    let fraction: u128 = (n * 0x1_0000_0000) / 1_000_000_000;
    assert(fraction < 0x1_0000_0000) by (nonlinear_arith)
        requires
            n < 1_000_000_000,
            fraction == (n * 0x1_0000_0000) / 1_000_000_000,
    ;
    let high: u64 = seconds % 0x1_0000_0000;
    let shifted: u128 = (high as u128) * 0x1_0000_0000;
    assert(shifted <= 0xffff_ffff_0000_0000) by (nonlinear_arith)
        requires
            high < 0x1_0000_0000,
            shifted == high * 0x1_0000_0000,
    ;
    (shifted + fraction) as u64
}

/// The current time as an NTP timestamp.
pub fn ntp_timestamp_now() -> (r: u64)
    ensures
        exists|s: u64, n: u32| n < 1_000_000_000 && r == ntp_from_unix(s, n),
{
    let (secs, nanos) = unix_time_now();
    ntp_timestamp_from_unix(secs, nanos)
}

/// The wall clock in NTP form.
#[derive(Debug, Clone, Copy, PartialEq, Eq)]
pub struct NtpClock;

impl NtpClock {
    /// The current time as an NTP timestamp.
    pub fn now() -> (r: u64)
        ensures
            exists|s: u64, n: u32| n < 1_000_000_000 && r == ntp_from_unix(s, n),
    {
        ntp_timestamp_now()
    }
}

/// A PTP clock; this sender has none.
#[derive(Debug, Clone, Copy, PartialEq, Eq)]
pub struct PtpClock;

impl PtpClock {
    /// Whether PTP timing is available: never.
    pub fn available() -> (r: bool)
        ensures
            !r,
    {
        false
    }
}

/// Whether `request` is a RAOP timing request: at least 32 bytes with
/// payload type 82.
pub open spec fn is_timing_request(request: Seq<u8>) -> bool {
    request.len() >= 32 && request[1] % 128 == 82
}

/// The reply to a timing request: payload type 83 with the marker bit, the
/// request's sequence bytes and the following four, the request's transmit
/// time as origin, then the receive and transmit times.
pub open spec fn timing_reply_bytes(request: Seq<u8>, receive_timestamp: u64, transmit_timestamp: u64) -> Seq<u8> {
    seq![0x80u8, 0xd3u8] + request.subrange(2, 8) + request.subrange(24, 32) + be_u64(receive_timestamp)
        + be_u64(transmit_timestamp)
}

/// The reply to a timing request, stamped with the given times.
pub fn build_timing_reply_at(request: &[u8], receive_timestamp: u64, transmit_timestamp: u64) -> (r:
    Option<[u8; 32]>)
    ensures
        !is_timing_request(request@) ==> r is None,
        is_timing_request(request@) ==> (r matches Some(reply) && reply@ == timing_reply_bytes(
            request@,
            receive_timestamp,
            transmit_timestamp,
        )),
{
    if request.len() < 32 || request[1] % 128 != 82 {
        return None;
    }
    let mut v: Vec<u8> = Vec::new();
    v.push(0x80);
    v.push(0xd3);
    let mut i: usize = 2;
    while i < 8
        invariant
            2 <= i <= 8,
            request@.len() >= 32,
            v@ == seq![0x80u8, 0xd3u8] + request@.subrange(2, i as int),
        decreases 8 - i,
    {
        v.push(request[i]);
        i = i + 1;
        assert(v@ =~= seq![0x80u8, 0xd3u8] + request@.subrange(2, i as int));
    }
    let mut j: usize = 24;
    while j < 32
        invariant
            24 <= j <= 32,
            request@.len() >= 32,
            v@ == seq![0x80u8, 0xd3u8] + request@.subrange(2, 8) + request@.subrange(24, j as int),
        decreases 32 - j,
    {
        v.push(request[j]);
        j = j + 1;
        assert(v@ =~= seq![0x80u8, 0xd3u8] + request@.subrange(2, 8) + request@.subrange(24, j as int));
    }
    push_be_u64(&mut v, receive_timestamp);
    push_be_u64(&mut v, transmit_timestamp);
    assert(v@ =~= timing_reply_bytes(request@, receive_timestamp, transmit_timestamp));
    let reply: [u8; 32] = [
        v[0], v[1], v[2], v[3], v[4], v[5], v[6], v[7], v[8], v[9], v[10], v[11], v[12], v[13], v[14],
        v[15], v[16], v[17], v[18], v[19], v[20], v[21], v[22], v[23], v[24], v[25], v[26], v[27],
        v[28], v[29], v[30], v[31],
    ];
    assert(reply@ =~= v@);
    Some(reply)
}

/// The reply to a timing request, stamped with the current time.
pub fn build_timing_reply(request: &[u8]) -> (r: Option<[u8; 32]>)
    ensures
        r is Some <==> is_timing_request(request@),
        r matches Some(reply) ==> exists|rx: u64, tx: u64| reply@ == timing_reply_bytes(request@, rx, tx),
{
    if request.len() < 32 || request[1] % 128 != 82 {
        return None;
    }
    let receive_timestamp = ntp_timestamp_now();
    let transmit_timestamp = ntp_timestamp_now();
    build_timing_reply_at(request, receive_timestamp, transmit_timestamp)
}

} // verus!
