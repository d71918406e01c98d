//! The codec announced to receivers and the check of input formats.

use vstd::prelude::*;

use crate::error::AirPlayError;
use crate::model::{format_supported, AudioFormat, AudioSampleType};

verus! {

/// The audio encoding announced in SDP.
#[derive(Debug, Clone, PartialEq, Eq)]
pub struct CodecDescription {
    pub encoding_name: &'static str,
    pub rtpmap: &'static str,
    pub fmtp: Option<String>,
}

impl CodecDescription {
    /// 16-bit big-endian stereo PCM at 44.1 kHz.
    pub fn pcm_stereo() -> (r: Self)
        ensures
            r.encoding_name@ == "L16"@,
            r.rtpmap@ == "L16/44100/2"@,
            r.fmtp is None,
    {
        CodecDescription { encoding_name: "L16", rtpmap: "L16/44100/2", fmtp: None }
    }
}

/// Accepts the input formats the sender can decode and rejects the others
/// with an unsupported-format error.
pub fn validate_input_format(format: AudioFormat) -> (r: Result<(), AirPlayError>)
    ensures
        r is Ok <==> format_supported(format),
        format.channels > 0 && format.sample_type == AudioSampleType::Int && (format.bits_per_sample == 16
            || format.bits_per_sample == 24 || format.bits_per_sample == 32) ==> r is Ok,
        format.channels > 0 && format.sample_type == AudioSampleType::Float && format.bits_per_sample == 32
            ==> r is Ok,
        !format_supported(format) ==> r matches Err(AirPlayError::UnsupportedAudioFormat { .. }),
{
    match format.block_align_bytes() {
        Some(_) => Ok(()),
        None => Err(AirPlayError::UnsupportedAudioFormat {
            message: String::from_str("input format is not decodable"),
        }),
    }
}

} // verus!
