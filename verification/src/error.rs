//! Errors of the transport layer and of the application layer.

use vstd::prelude::*;

use crate::text::push_str;

verus! {

/// What can go wrong while talking to a receiver.
#[derive(Debug, Clone, PartialEq, Eq)]
pub enum AirPlayError {
    /// The receiver sent something this sender cannot understand.
    Protocol { message: String },
    /// The audio input cannot be sent.
    UnsupportedAudioFormat { message: String },
    /// The session parameters or stored pairing data are unusable.
    InvalidSession { message: String },
    /// The network connection failed.
    ConnectionFailed { message: String },
    /// The receiver rejected the authentication attempt.
    AuthenticationFailed { message: String },
    /// The receiver asks for authentication this sender does not do.
    AuthenticationRequired,
    /// The receiver must be paired first.
    PairingRequired,
    /// No stored pairing data exists for the receiver.
    CredentialsMissing,
    /// A request was made before the session reached the needed state.
    NotReady,
}

/// The human-readable text of a transport error.
pub open spec fn airplay_error_text(e: AirPlayError) -> Seq<char> {
    match e {
        AirPlayError::Protocol { message } => "protocol error: "@ + message@,
        AirPlayError::UnsupportedAudioFormat { message } => "unsupported audio format: "@ + message@,
        AirPlayError::InvalidSession { message } => "invalid session: "@ + message@,
        AirPlayError::ConnectionFailed { message } => "connection failed: "@ + message@,
        AirPlayError::AuthenticationFailed { message } => "authentication failed: "@ + message@,
        AirPlayError::AuthenticationRequired => "receiver requires authentication"@,
        AirPlayError::PairingRequired => "receiver requires pairing"@,
        AirPlayError::CredentialsMissing => "no stored pairing for the receiver"@,
        AirPlayError::NotReady => "session is not ready for this request"@,
    }
}

impl AirPlayError {
    /// The human-readable text of this error.
    pub fn describe(&self) -> (s: String)
        ensures
            s@ == airplay_error_text(*self),
    {
        let mut s = String::new();
        match self {
            AirPlayError::Protocol { message } => {
                push_str(&mut s, "protocol error: ");
                push_str(&mut s, message.as_str());
            },
            AirPlayError::UnsupportedAudioFormat { message } => {
                push_str(&mut s, "unsupported audio format: ");
                push_str(&mut s, message.as_str());
            },
            AirPlayError::InvalidSession { message } => {
                push_str(&mut s, "invalid session: ");
                push_str(&mut s, message.as_str());
            },
            AirPlayError::ConnectionFailed { message } => {
                push_str(&mut s, "connection failed: ");
                push_str(&mut s, message.as_str());
            },
            AirPlayError::AuthenticationFailed { message } => {
                push_str(&mut s, "authentication failed: ");
                push_str(&mut s, message.as_str());
            },
            AirPlayError::AuthenticationRequired => push_str(&mut s, "receiver requires authentication"),
            AirPlayError::PairingRequired => push_str(&mut s, "receiver requires pairing"),
            AirPlayError::CredentialsMissing => push_str(&mut s, "no stored pairing for the receiver"),
            AirPlayError::NotReady => push_str(&mut s, "session is not ready for this request"),
        }
        s
    }
}

/// A protocol error carrying `text`.
pub fn protocol_error(text: &str) -> (e: AirPlayError)
    ensures
        e matches AirPlayError::Protocol { message } && message@ == text@,
{
    AirPlayError::Protocol { message: String::from_str(text) }
}

/// An authentication failure carrying `text`.
pub fn authentication_failed(text: &str) -> (e: AirPlayError)
    ensures
        e matches AirPlayError::AuthenticationFailed { message } && message@ == text@,
{
    AirPlayError::AuthenticationFailed { message: String::from_str(text) }
}

/// An invalid-session error carrying `text`.
pub fn invalid_session(text: &str) -> (e: AirPlayError)
    ensures
        e matches AirPlayError::InvalidSession { message } && message@ == text@,
{
    AirPlayError::InvalidSession { message: String::from_str(text) }
}

/// What can go wrong at the application level.
#[derive(Debug, Clone, PartialEq, Eq)]
pub enum RairstreamError {
    /// A transport error.
    Transport(AirPlayError),
    /// The configuration or the request refers to something that does not exist.
    InvalidConfiguration { message: String },
    /// The feature is not available on this platform.
    UnsupportedPlatform { os: String, feature: String },
    /// The feature is not implemented yet.
    NotImplemented { feature: String },
    /// Playback failed.
    Playback { message: String },
}

/// The human-readable text of an application error.
pub open spec fn rairstream_error_text(e: RairstreamError) -> Seq<char> {
    match e {
        RairstreamError::Transport(inner) => airplay_error_text(inner),
        RairstreamError::InvalidConfiguration { message } => "配置无效: "@ + message@,
        RairstreamError::UnsupportedPlatform { os, feature } => "功能尚未实现: "@ + feature@,
        RairstreamError::NotImplemented { feature } => "功能尚未实现: "@ + feature@,
        RairstreamError::Playback { message } => "播放失败: "@ + message@,
    }
}

impl RairstreamError {
    /// The human-readable text of this error.
    pub fn describe(&self) -> (s: String)
        ensures
            s@ == rairstream_error_text(*self),
    {
        match self {
            RairstreamError::Transport(inner) => inner.describe(),
            RairstreamError::InvalidConfiguration { message } => {
                let mut s = String::new();
                push_str(&mut s, "配置无效: ");
                push_str(&mut s, message.as_str());
                s
            },
            RairstreamError::UnsupportedPlatform { os, feature } => {
                let mut s = String::new();
                push_str(&mut s, "功能尚未实现: ");
                push_str(&mut s, feature.as_str());
                s
            },
            RairstreamError::NotImplemented { feature } => {
                let mut s = String::new();
                push_str(&mut s, "功能尚未实现: ");
                push_str(&mut s, feature.as_str());
                s
            },
            RairstreamError::Playback { message } => {
                let mut s = String::new();
                push_str(&mut s, "播放失败: ");
                push_str(&mut s, message.as_str());
                s
            },
        }
    }
}

} // verus!
