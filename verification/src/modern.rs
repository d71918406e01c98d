//! The authentication exchange with an AirPlay 2 receiver before RAOP
//! streaming: `/info`, then pair-verify with the stored credentials (the
//! HomeKit-style flow or the legacy PIN flow) and `/auth-setup`; without
//! stored credentials the receiver is probed for PIN pairing.

use vstd::prelude::*;
use vstd::utf8::encode_utf8;

use crate::crypto::{
    aes128_ctr_applied, chacha20poly1305_opened, ed25519_key_valid, ed25519_public_from_seed, ed25519_public_key,
    ed25519_signature, ed25519_signature_valid, hkdf_sha512_32, hkdf_sha512_32_okm, random_bytes_32, x25519,
    x25519_result, X25519_BASE_POINT,
};
use crate::error::AirPlayError;
use crate::model::{ReceiverAuthFlow, SessionDescriptor};
use crate::pair_verify::{
    build_legacy_pair_verify_finish_body, build_pair_verify_finish_body, controller_proof_tlv, decode_receiver_credentials,
    decoded_keys, derive_legacy_pair_verify_key_iv, labelled_sha512_16, prefixed_nonce, receiver_identity_proven,
    verify_legacy_pair_verify_signature, verify_receiver_identity, DecodedReceiverCredentials,
    LEGACY_PAIR_VERIFY_AES_IV, LEGACY_PAIR_VERIFY_AES_KEY, PAIR_VERIFY_ENCRYPT_INFO, PAIR_VERIFY_ENCRYPT_SALT,
    PAIR_VERIFY_M2_NONCE, PAIR_VERIFY_M3_NONCE,
};
use crate::pairing::{
    build_auth_setup_body, build_legacy_pair_verify_start_body, build_pair_verify_start_body,
    map_legacy_pair_verify_start_response, map_pair_verify_finish_response, map_pair_verify_start_response,
    pair_verify_start_fields, receiver_pairing_id_from_device, tlv_byte, AUTH_SETUP_ENCRYPTION_TYPE_UNENCRYPTED,
    PAIR_VERIFY_FINISH_REQUEST_STATE, PAIR_VERIFY_FINISH_RESPONSE_STATE, PAIR_VERIFY_START_REQUEST_STATE,
};
use crate::rtsp::{is_empty_body_request, is_post, RtspMethod, RtspRequest, RtspResponse};
use crate::session::{
    map_modern_auth_probe_response, map_pair_pin_start_response, map_pairing_http_failure, next_cseq,
    pairing_failure_kind, ModernAirPlaySession, ModernAuthProbeOutcome,
};
use crate::tlv::{encode_tlv, parse_tlv, tlv_find, PAIRING_TLV_ENCRYPTED_DATA, PAIRING_TLV_ERROR, PAIRING_TLV_PUBLIC_KEY, PAIRING_TLV_STATE};

verus! {

/// The reply an AirPlay 2 authentication waits for, with what the next
/// step needs.
#[derive(Debug, Clone, PartialEq, Eq)]
pub enum ModernHandshakeStep {
    AwaitInfo,
    AwaitPinStartProbe,
    AwaitPairVerifyStart { secret: [u8; 32], public: [u8; 32], credentials: DecodedReceiverCredentials },
    AwaitPairVerifyFinish,
    AwaitLegacyPairVerifyStart { secret: [u8; 32], public: [u8; 32], credentials: DecodedReceiverCredentials },
    AwaitLegacyPairVerifyFinish,
    AwaitAuthSetup { optional: bool },
    Done,
}

/// What the caller of an AirPlay 2 authentication does next.
#[derive(Debug, Clone, PartialEq, Eq)]
pub enum ModernHandshakeAction {
    /// Send the request and hand the reply back.
    Send(RtspRequest),
    /// The receiver accepted the controller: continue with the RAOP
    /// handshake on the same connection, from CSeq `cseq`.
    Authenticated { cseq: u32 },
}

/// An AirPlay 2 authentication in progress.
#[derive(Debug, Clone, PartialEq, Eq)]
pub struct ModernHandshake {
    pub session: ModernAirPlaySession,
    pub step: ModernHandshakeStep,
}

/// The stored receiver key of a pair-verify step is one `ed25519_dalek`
/// accepts, as reading the credentials checked.
pub open spec fn modern_handshake_wf(h: ModernHandshake) -> bool {
    match h.step {
        ModernHandshakeStep::AwaitPairVerifyStart { credentials, .. } => ed25519_key_valid(credentials.receiver_public_key@),
        ModernHandshakeStep::AwaitLegacyPairVerifyStart { credentials, .. } => ed25519_key_valid(
            credentials.receiver_public_key@,
        ),
        _ => true,
    }
}

/// The pair-verify session key from the controller's X25519 secret and the
/// receiver's X25519 key.
pub open spec fn modern_verify_key(secret: Seq<u8>, receiver_public: Seq<u8>) -> Seq<u8> {
    hkdf_sha512_32_okm(
        x25519_result(secret, receiver_public),
        encode_utf8(PAIR_VERIFY_ENCRYPT_SALT@),
        encode_utf8(PAIR_VERIFY_ENCRYPT_INFO@),
    )
}

/// The controller's answer to a first pair-verify reply, when the reply is
/// well-formed and proves the receiver's identity.
pub open spec fn modern_finish_body(
    response: RtspResponse,
    secret: Seq<u8>,
    public: Seq<u8>,
    creds: DecodedReceiverCredentials,
) -> Option<Seq<u8>> {
    if !(200 <= response.status.code < 300) {
        None
    } else {
        match parse_tlv(response.body@) {
            None => None,
            Some(items) => if tlv_find(items, PAIRING_TLV_ERROR) is Some {
                None
            } else {
                match pair_verify_start_fields(items) {
                    None => None,
                    Some((pk, enc)) => {
                        let vk = modern_verify_key(secret, pk);
                        let proof = encode_tlv(controller_proof_tlv(creds, public, pk));
                        match chacha20poly1305_opened(vk, prefixed_nonce(encode_utf8(PAIR_VERIFY_M2_NONCE@)), enc) {
                            Some(p) => if receiver_identity_proven(creds, public, pk, p) && proof.len() / 64
                                < 0xffff_ffff {
                                Some(
                                    encode_tlv(
                                        seq![
                                            (PAIRING_TLV_STATE, seq![PAIR_VERIFY_FINISH_REQUEST_STATE]),
                                            (PAIRING_TLV_ENCRYPTED_DATA, crate::crypto::chacha20poly1305_sealed(
                                                vk,
                                                prefixed_nonce(encode_utf8(PAIR_VERIFY_M3_NONCE@)),
                                                proof,
                                            )),
                                        ],
                                    ),
                                )
                            } else {
                                None
                            },
                            None => None,
                        }
                    },
                }
            },
        }
    }
}

/// The controller's answer to a first legacy pair-verify reply, when the
/// reply is 96 bytes and carries the receiver's valid signature.
pub open spec fn legacy_finish_body(
    response: RtspResponse,
    secret: Seq<u8>,
    public: Seq<u8>,
    creds: DecodedReceiverCredentials,
) -> Option<Seq<u8>> {
    if !(200 <= response.status.code < 300) || response.body@.len() != 96 {
        None
    } else {
        let pk = response.body@.subrange(0, 32);
        let challenge = response.body@.subrange(32, 96);
        let shared = x25519_result(secret, pk);
        let key = labelled_sha512_16(LEGACY_PAIR_VERIFY_AES_KEY@, shared);
        let iv = labelled_sha512_16(LEGACY_PAIR_VERIFY_AES_IV@, shared);
        if ed25519_signature_valid(creds.receiver_public_key@, pk + public, aes128_ctr_applied(key, iv, challenge)) {
            Some(
                seq![0u8, 0u8, 0u8, 0u8] + aes128_ctr_applied(
                    key,
                    iv,
                    challenge + ed25519_signature(creds.controller_secret_key@, public + pk),
                ).subrange(64, 128),
            )
        } else {
            None
        }
    }
}

/// Whether `req` is the auth-setup request for some X25519 secret.
pub open spec fn is_auth_setup_request(req: RtspRequest, d: SessionDescriptor, cseq: u32) -> bool {
    exists|k: Seq<u8>| #[trigger]
        is_post(
            req,
            d,
            cseq,
            "/auth-setup"@,
            "application/octet-stream"@,
            seq![AUTH_SETUP_ENCRYPTION_TYPE_UNENCRYPTED] + x25519_result(k, X25519_BASE_POINT@),
        )
}

/// The request an answer asks to send, if it asks for one.
pub open spec fn sent_request(r: Result<ModernHandshakeAction, AirPlayError>) -> Option<RtspRequest> {
    match r {
        Ok(ModernHandshakeAction::Send(req)) => Some(req),
        _ => None,
    }
}

/// The error of a failed answer.
pub open spec fn failure(r: Result<ModernHandshakeAction, AirPlayError>) -> Option<AirPlayError> {
    match r {
        Err(e) => Some(e),
        Ok(_) => None,
    }
}

/// What the `/info` reply leads to.
pub open spec fn info_outcome(
    before: ModernHandshake,
    after: ModernHandshake,
    response: RtspResponse,
    r: Result<ModernHandshakeAction, AirPlayError>,
) -> bool {
    let d = before.session.descriptor;
    let code = response.status.code;
    match d.receiver_credentials {
        None => {
            &&& after.step == ModernHandshakeStep::AwaitPinStartProbe
            &&& sent_request(r) is Some
            &&& is_empty_body_request(sent_request(r)->0, d, after.session.cseq, RtspMethod::Post, "/pair-pin-start"@)
        },
        Some(c) => if code == 401 {
            r == Err::<ModernHandshakeAction, AirPlayError>(AirPlayError::PairingRequired)
        } else if code == 403 {
            failure(r) matches Some(AirPlayError::AuthenticationFailed { .. })
        } else if code != 200 {
            failure(r) matches Some(AirPlayError::Protocol { .. })
        } else {
            match decoded_keys(c, d.device) {
                None => failure(r) matches Some(AirPlayError::InvalidSession { .. }),
                Some((seed, rpk)) => match (c.auth_flow, after.step) {
                    (
                        ReceiverAuthFlow::Modern,
                        ModernHandshakeStep::AwaitPairVerifyStart { secret, public, credentials },
                    ) => {
                        &&& public@ == x25519_result(secret@, X25519_BASE_POINT@)
                        &&& credentials.controller_secret_key@ == seed
                        &&& credentials.receiver_public_key@ == rpk
                        &&& sent_request(r) is Some
                        &&& is_post(
                            sent_request(r)->0,
                            d,
                            after.session.cseq,
                            "/pair-verify"@,
                            "application/octet-stream"@,
                            encode_tlv(
                                seq![
                                    (PAIRING_TLV_STATE, seq![PAIR_VERIFY_START_REQUEST_STATE]),
                                    (PAIRING_TLV_PUBLIC_KEY, public@),
                                ],
                            ),
                        )
                    },
                    (ReceiverAuthFlow::LegacyPin, _) if d.device.pairing_id is None => failure(r) matches Some(
                        AirPlayError::InvalidSession { .. },
                    ),
                    (
                        ReceiverAuthFlow::LegacyPin,
                        ModernHandshakeStep::AwaitLegacyPairVerifyStart { secret, public, credentials },
                    ) => {
                        &&& public@ == x25519_result(secret@, X25519_BASE_POINT@)
                        &&& credentials.controller_secret_key@ == seed
                        &&& credentials.receiver_public_key@ == rpk
                        &&& sent_request(r) is Some
                        &&& is_post(
                            sent_request(r)->0,
                            d,
                            after.session.cseq,
                            "/pair-verify"@,
                            "application/octet-stream"@,
                            seq![1u8, 0u8, 0u8, 0u8] + public@ + ed25519_public_key(seed),
                        )
                    },
                    _ => false,
                },
            }
        },
    }
}

/// What a reply in any other step leads to.
pub open spec fn later_outcome(
    before: ModernHandshake,
    after: ModernHandshake,
    response: RtspResponse,
    r: Result<ModernHandshakeAction, AirPlayError>,
) -> bool {
    let d = before.session.descriptor;
    let code = response.status.code;
    let success = 200 <= code < 300;
    match before.step {
        ModernHandshakeStep::AwaitInfo => true,
        ModernHandshakeStep::AwaitPinStartProbe => match failure(r) {
            Some(e) => if success { e == AirPlayError::PairingRequired } else { pairing_failure_kind(code, e) },
            None => false,
        },
        ModernHandshakeStep::AwaitPairVerifyStart { secret, public, credentials } => match modern_finish_body(
            response,
            secret@,
            public@,
            credentials,
        ) {
            Some(body) => {
                &&& after.step == ModernHandshakeStep::AwaitPairVerifyFinish
                &&& sent_request(r) is Some
                &&& is_post(sent_request(r)->0, d, after.session.cseq, "/pair-verify"@, "application/octet-stream"@, body)
            },
            None => r is Err,
        },
        ModernHandshakeStep::AwaitPairVerifyFinish => if success && (parse_tlv(response.body@) matches Some(items)
            && tlv_find(items, PAIRING_TLV_ERROR) is None && tlv_byte(items, PAIRING_TLV_STATE) == Some(
            PAIR_VERIFY_FINISH_RESPONSE_STATE,
        )) {
            &&& after.step == (ModernHandshakeStep::AwaitAuthSetup { optional: false })
            &&& sent_request(r) is Some
            &&& is_auth_setup_request(sent_request(r)->0, d, after.session.cseq)
        } else {
            r is Err
        },
        ModernHandshakeStep::AwaitLegacyPairVerifyStart { secret, public, credentials } => match legacy_finish_body(
            response,
            secret@,
            public@,
            credentials,
        ) {
            Some(body) => {
                &&& after.step == ModernHandshakeStep::AwaitLegacyPairVerifyFinish
                &&& sent_request(r) is Some
                &&& is_post(sent_request(r)->0, d, after.session.cseq, "/pair-verify"@, "application/octet-stream"@, body)
            },
            None => r is Err,
        },
        ModernHandshakeStep::AwaitLegacyPairVerifyFinish => if success {
            &&& after.step == (ModernHandshakeStep::AwaitAuthSetup { optional: true })
            &&& sent_request(r) is Some
            &&& is_auth_setup_request(sent_request(r)->0, d, after.session.cseq)
        } else {
            failure(r) matches Some(e) && pairing_failure_kind(code, e)
        },
        ModernHandshakeStep::AwaitAuthSetup { optional } => if success || (optional && code == 404) {
            &&& after.step == ModernHandshakeStep::Done
            &&& r == Ok::<ModernHandshakeAction, AirPlayError>(
                ModernHandshakeAction::Authenticated { cseq: before.session.cseq },
            )
        } else {
            failure(r) matches Some(e) && pairing_failure_kind(code, e)
        },
        ModernHandshakeStep::Done => r == Err::<ModernHandshakeAction, AirPlayError>(AirPlayError::NotReady),
    }
}

impl ModernHandshake {
    /// Starts the authentication of `session` with `GET /info`.
    pub fn start(session: ModernAirPlaySession) -> (r: (Self, ModernHandshakeAction))
        ensures
            r.0.step == ModernHandshakeStep::AwaitInfo,
            r.0.session.descriptor == session.descriptor,
            r.0.session.cseq == next_cseq(session.cseq),
            sent_request(Ok::<ModernHandshakeAction, AirPlayError>(r.1)) is Some,
            is_empty_body_request(
                sent_request(Ok::<ModernHandshakeAction, AirPlayError>(r.1))->0,
                session.descriptor,
                r.0.session.cseq,
                RtspMethod::Get,
                "/info"@,
            ),
            modern_handshake_wf(r.0),
    {
        let mut session = session;
        let request = session.info_request();
        (ModernHandshake { session, step: ModernHandshakeStep::AwaitInfo }, ModernHandshakeAction::Send(request))
    }

    /// Sends `/auth-setup` with a fresh X25519 key.
    fn send_auth_setup(&mut self, optional: bool) -> (r: ModernHandshakeAction)
        ensures
            final(self).session.descriptor == old(self).session.descriptor,
            final(self).session.cseq == next_cseq(old(self).session.cseq),
            final(self).step == (ModernHandshakeStep::AwaitAuthSetup { optional }),
            sent_request(Ok::<ModernHandshakeAction, AirPlayError>(r)) is Some,
            is_auth_setup_request(
                sent_request(Ok::<ModernHandshakeAction, AirPlayError>(r))->0,
                old(self).session.descriptor,
                final(self).session.cseq,
            ),
    {
        let client_secret = random_bytes_32();
        let client_public = x25519(&client_secret, &X25519_BASE_POINT);
        let body = build_auth_setup_body(&client_public);
        let request = self.session.auth_setup_request(body.as_slice());
        assert(is_post(
            request,
            old(self).session.descriptor,
            self.session.cseq,
            "/auth-setup"@,
            "application/octet-stream"@,
            seq![AUTH_SETUP_ENCRYPTION_TYPE_UNENCRYPTED] + x25519_result(client_secret@, X25519_BASE_POINT@),
        ));
        self.step = ModernHandshakeStep::AwaitAuthSetup { optional };
        ModernHandshakeAction::Send(request)
    }

    /// Takes in the reply to the last request and says what comes next. Any
    /// failure ends the authentication with its error and changes nothing.
    pub fn on_response(&mut self, response: &RtspResponse) -> (r: Result<ModernHandshakeAction, AirPlayError>)
        requires
            modern_handshake_wf(*old(self)),
        ensures
            modern_handshake_wf(*final(self)),
            final(self).session.descriptor == old(self).session.descriptor,
            r is Err ==> *final(self) == *old(self),
            sent_request(r) is Some ==> final(self).session.cseq == next_cseq(old(self).session.cseq),
            old(self).step == ModernHandshakeStep::AwaitInfo ==> info_outcome(*old(self), *final(self), *response, r),
            later_outcome(*old(self), *final(self), *response, r),
    {
        match &self.step {
            ModernHandshakeStep::AwaitInfo => self.on_info_response(response),
            ModernHandshakeStep::AwaitPinStartProbe => {
                map_pair_pin_start_response(response)?;
                Err(AirPlayError::PairingRequired)
            },
            ModernHandshakeStep::AwaitPairVerifyStart { secret, public, credentials } => {
                let secret = *secret;
                let public = *public;
                let credentials = credentials.duplicate();
                let reply = map_pair_verify_start_response(response)?;
                let shared = x25519(&secret, &reply.public_key);
                let verify_key = hkdf_sha512_32(
                    shared.as_slice(),
                    PAIR_VERIFY_ENCRYPT_SALT.as_bytes(),
                    PAIR_VERIFY_ENCRYPT_INFO.as_bytes(),
                );
                verify_receiver_identity(&credentials, &public, &reply, &verify_key)?;
                let finish = build_pair_verify_finish_body(&credentials, &public, &reply.public_key, &verify_key)?;
                let request = self.session.pair_verify_request(finish.as_slice());
                self.step = ModernHandshakeStep::AwaitPairVerifyFinish;
                Ok(ModernHandshakeAction::Send(request))
            },
            ModernHandshakeStep::AwaitPairVerifyFinish => {
                map_pair_verify_finish_response(response)?;
                Ok(self.send_auth_setup(false))
            },
            ModernHandshakeStep::AwaitLegacyPairVerifyStart { secret, public, credentials } => {
                let secret = *secret;
                let public = *public;
                let credentials = credentials.duplicate();
                let reply = map_legacy_pair_verify_start_response(response)?;
                let shared = x25519(&secret, &reply.public_key);
                let (verify_key, verify_iv) = derive_legacy_pair_verify_key_iv(shared.as_slice());
                verify_legacy_pair_verify_signature(
                    &reply.public_key,
                    &public,
                    &reply.challenge,
                    &credentials.receiver_public_key,
                    &verify_key,
                    &verify_iv,
                )?;
                let finish = build_legacy_pair_verify_finish_body(
                    &public,
                    &reply.public_key,
                    &reply.challenge,
                    &credentials.controller_secret_key,
                    &verify_key,
                    &verify_iv,
                );
                let request = self.session.pair_verify_request(finish.as_slice());
                self.step = ModernHandshakeStep::AwaitLegacyPairVerifyFinish;
                Ok(ModernHandshakeAction::Send(request))
            },
            ModernHandshakeStep::AwaitLegacyPairVerifyFinish => {
                if !response.is_success() {
                    return Err(map_pairing_http_failure(response, "/pair-verify"));
                }
                Ok(self.send_auth_setup(true))
            },
            ModernHandshakeStep::AwaitAuthSetup { optional } => {
                let optional = *optional;
                if response.is_success() || (optional && response.status.code == 404) {
                    let cseq = self.session.cseq;
                    self.step = ModernHandshakeStep::Done;
                    return Ok(ModernHandshakeAction::Authenticated { cseq });
                }
                Err(map_pairing_http_failure(response, "/auth-setup"))
            },
            ModernHandshakeStep::Done => Err(AirPlayError::NotReady),
        }
    }

    /// The `/info` reply: probe for PIN pairing without credentials,
    /// otherwise read the credentials and start pair-verify.
    fn on_info_response(&mut self, response: &RtspResponse) -> (r: Result<ModernHandshakeAction, AirPlayError>)
        requires
            old(self).step == ModernHandshakeStep::AwaitInfo,
        ensures
            modern_handshake_wf(*final(self)),
            final(self).session.descriptor == old(self).session.descriptor,
            r is Err ==> *final(self) == *old(self),
            sent_request(r) is Some ==> final(self).session.cseq == next_cseq(old(self).session.cseq),
            info_outcome(*old(self), *final(self), *response, r),
    {
        let stored = match &self.session.descriptor.receiver_credentials {
            None => {
                let request = self.session.pair_pin_start_request();
                self.step = ModernHandshakeStep::AwaitPinStartProbe;
                return Ok(ModernHandshakeAction::Send(request));
            },
            Some(c) => c.duplicate(),
        };
        match map_modern_auth_probe_response(response)? {
            ModernAuthProbeOutcome::RequiresPairing => Err(AirPlayError::PairingRequired),
            ModernAuthProbeOutcome::ContinueWithCredentials => {
                let credentials = decode_receiver_credentials(&stored, &self.session.descriptor.device)?;
                match credentials.auth_flow {
                    ReceiverAuthFlow::Modern => {
                        let secret = random_bytes_32();
                        let public = x25519(&secret, &X25519_BASE_POINT);
                        let body = build_pair_verify_start_body(&public);
                        let request = self.session.pair_verify_request(body.as_slice());
                        self.step = ModernHandshakeStep::AwaitPairVerifyStart { secret, public, credentials };
                        Ok(ModernHandshakeAction::Send(request))
                    },
                    ReceiverAuthFlow::LegacyPin => {
                        let _receiver_pairing_id = receiver_pairing_id_from_device(&self.session.descriptor.device)?;
                        let secret = random_bytes_32();
                        let public = x25519(&secret, &X25519_BASE_POINT);
                        let signing_public = ed25519_public_from_seed(&credentials.controller_secret_key);
                        let body = build_legacy_pair_verify_start_body(&public, &signing_public);
                        let request = self.session.pair_verify_request(body.as_slice());
                        self.step = ModernHandshakeStep::AwaitLegacyPairVerifyStart { secret, public, credentials };
                        Ok(ModernHandshakeAction::Send(request))
                    },
                }
            },
        }
    }
}

} // verus!
