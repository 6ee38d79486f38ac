//! The version 5 handshake: the responder's negotiation and the initiator's
//! two-phase flow.
use vstd::prelude::*;
use std::time::Instant;
use crate::accesscontrol::{AcceptParameters, StreamAcceptor};
use crate::crypto::{CryptoManager, CryptoOptions, KeyWrap};
use crate::packet::{
    latency_max, max_latency, CoreRejectReason, HSV5Info, HandshakeControlInfo, HandshakeVSInfo,
    RejectReason, SeqNumber, ServerRejectReason, SocketAddr, SocketId, SrtControlPacket,
    SrtHandshake, SrtKeyMessage, SrtVersion, SHAKE_SUPPORTED,
};
use crate::settings::{
    now, ConnInitSettings, ConnectError, ConnectionReject, ConnectionSettings, MAX_FLOW_SIZE,
    MAX_PACKET_SIZE,
};

verus! {

/// Outcome of the responder's negotiation.
#[derive(Debug)]
pub enum GenHsv5Result {
    /// The payload to send back, and the finalized connection.
    Accept(HandshakeVSInfo, ConnectionSettings),
    /// The peer's message is malformed; a local error, not a wire rejection.
    NotHandled(ConnectError),
    /// A rejection with a wire reason.
    Reject(ConnectionReject),
}

/// The handshake extension this side sends: current version, supported
/// capabilities, local latencies.
pub open spec fn local_extension(s: ConnInitSettings) -> SrtHandshake {
    SrtHandshake {
        version: SrtVersion { major: 1, minor: 3, patch: 1 },
        flags: SHAKE_SUPPORTED,
        send_latency: s.send_latency,
        recv_latency: s.recv_latency,
    }
}

/// The crypto key size this side advertises: the configured one, or 0.
pub open spec fn advertised_crypto_size(crypto: Option<CryptoOptions>) -> u8 {
    match crypto {
        Some(co) => co.size,
        None => 0,
    }
}

/// The key-exchange request a payload carries, if it carries one.
pub open spec fn km_request(inc: HSV5Info) -> Option<SrtKeyMessage> {
    match inc.ext_km {
        Some(SrtControlPacket::KeyManagerRequest(km)) => Some(km),
        _ => None,
    }
}

/// Everything of finalized settings but the crypto manager, the stream
/// identifier and the start time: identifiers and sequence numbers from both
/// sides, fixed sizes, and each latency the larger of the local one and the
/// peer's opposite-direction one.
pub open spec fn finalized_from(
    cs: ConnectionSettings,
    s: ConnInitSettings,
    remote_sockid: SocketId,
    init_recv: SeqNumber,
    peer: SrtHandshake,
    from: SocketAddr,
) -> bool {
    &&& cs.remote == from
    &&& cs.remote_sockid == remote_sockid
    &&& cs.local_sockid == s.local_sockid
    &&& cs.init_send_seq_num == s.starting_send_seqnum
    &&& cs.init_recv_seq_num == init_recv
    &&& cs.max_packet_size == MAX_PACKET_SIZE
    &&& cs.max_flow_size == MAX_FLOW_SIZE
    &&& cs.send_tsbpd_latency == latency_max(s.send_latency, peer.recv_latency)
    &&& cs.recv_tsbpd_latency == latency_max(s.recv_latency, peer.send_latency)
}

/// Local crypto and the peer's key exchange do not fit together. Crypto on
/// one side only is `Unsecure`; differing key sizes are `BadSecret`; a
/// key-exchange block that is not a request is malformed.
pub open spec fn crypto_failure(crypto: Option<CryptoOptions>, inc: HSV5Info) -> Option<
    GenHsv5Result,
> {
    match crypto {
        Some(co) => match inc.ext_km {
            Some(SrtControlPacket::KeyManagerRequest(_)) => if co.size != inc.crypto_size {
                Some(
                    GenHsv5Result::Reject(
                        ConnectionReject::Rejecting(RejectReason::Core(CoreRejectReason::BadSecret)),
                    ),
                )
            } else {
                None
            },
            Some(_) => Some(GenHsv5Result::NotHandled(ConnectError::ExpectedKmReq)),
            None => Some(
                GenHsv5Result::Reject(
                    ConnectionReject::Rejecting(RejectReason::Core(CoreRejectReason::Unsecure)),
                ),
            ),
        },
        None => match inc.ext_km {
            Some(_) => Some(
                GenHsv5Result::Reject(
                    ConnectionReject::Rejecting(RejectReason::Core(CoreRejectReason::Unsecure)),
                ),
            ),
            None => None,
        },
    }
}

/// The responder must unwrap the peer's key-exchange request.
pub open spec fn needs_unwrap(s: ConnInitSettings, h: HandshakeControlInfo) -> bool {
    match h.info {
        HandshakeVSInfo::V5(inc) => match inc.ext_hs {
            Some(SrtControlPacket::HandshakeRequest(_)) => s.crypto is Some && crypto_failure(
                s.crypto,
                inc,
            ) is None,
            _ => false,
        },
        _ => false,
    }
}

/// An acceptance of request `inc` of message `h` under settings `s`: the
/// response echoes the stream identifier and carries the local extension;
/// crypto is present on the connection exactly when it is configured, and
/// then answers the peer's request with the same key material.
pub open spec fn accepted(
    s: ConnInitSettings,
    h: HandshakeControlInfo,
    inc: HSV5Info,
    peer: SrtHandshake,
    from: SocketAddr,
    info: HandshakeVSInfo,
    cs: ConnectionSettings,
) -> bool {
    &&& finalized_from(cs, s, h.socket_id, h.init_seq_num, peer, from)
    &&& cs.stream_id == inc.sid
    &&& cs.crypto_manager.is_some() == s.crypto.is_some()
    &&& info is V5
    &&& info->V5_0.sid == inc.sid
    &&& info->V5_0.ext_hs == Some(SrtControlPacket::HandshakeResponse(local_extension(s)))
    &&& info->V5_0.crypto_size == advertised_crypto_size(s.crypto)
    &&& match s.crypto {
        None => info->V5_0.ext_km is None && inc.ext_km is None,
        Some(co) => {
            &&& cs.crypto_manager->Some_0.spec_options() == co
            &&& km_request(inc) is Some
            &&& cs.crypto_manager->Some_0.spec_km().same_as(km_request(inc)->Some_0)
            &&& info->V5_0.ext_km is Some
            &&& info->V5_0.ext_km->Some_0 is KeyManagerResponse
            &&& info->V5_0.ext_km->Some_0->KeyManagerResponse_0.same_as(km_request(inc)->Some_0)
        },
    }
}

/// The responder's result `r` on message `h` under settings `s` (those in
/// force after the access decision), where `unwrapped` is what unwrapping the
/// peer's key-exchange request gave, if that was needed.
pub open spec fn responds(
    s: ConnInitSettings,
    h: HandshakeControlInfo,
    from: SocketAddr,
    unwrapped: Option<Result<Vec<u8>, RejectReason>>,
    r: GenHsv5Result,
) -> bool {
    match h.info {
        HandshakeVSInfo::V5(inc) => match inc.ext_hs {
            Some(SrtControlPacket::HandshakeRequest(peer)) => match crypto_failure(s.crypto, inc) {
                Some(f) => r == f,
                None => match s.crypto {
                    None => r is Accept && accepted(s, h, inc, peer, from, r->Accept_0, r->Accept_1),
                    Some(co) => match unwrapped {
                        Some(Err(rr)) => r == GenHsv5Result::Reject(ConnectionReject::Rejecting(rr)),
                        Some(Ok(key)) => if key@.len() != co.size as int {
                            r == GenHsv5Result::Reject(
                                ConnectionReject::Rejecting(
                                    RejectReason::Core(CoreRejectReason::BadSecret),
                                ),
                            )
                        } else {
                            &&& r is Accept
                            &&& accepted(s, h, inc, peer, from, r->Accept_0, r->Accept_1)
                            &&& r->Accept_1.crypto_manager->Some_0.spec_key() == key@
                        },
                        None => false,
                    },
                },
            },
            Some(_) => r == GenHsv5Result::NotHandled(ConnectError::ExpectedHSReq),
            None => r == GenHsv5Result::NotHandled(ConnectError::ExpectedExtFlags),
        },
        _ => r == GenHsv5Result::Reject(
            ConnectionReject::Rejecting(RejectReason::Server(ServerRejectReason::Version)),
        ),
    }
}

/// The local extension for settings `s`.
fn local_extension_of(s: &ConnInitSettings) -> (r: SrtHandshake)
    ensures
        r == local_extension(*s),
{
    SrtHandshake {
        version: SrtVersion::current(),
        flags: SHAKE_SUPPORTED,
        send_latency: s.send_latency,
        recv_latency: s.recv_latency,
    }
}

/// A copy of a stream identifier.
fn copy_sid(sid: &Option<String>) -> (r: Option<String>)
    ensures
        r == *sid,
{
    match sid {
        Some(s) => Some(s.clone()),
        None => None,
    }
}

/// The finalized settings of a connection; shared by both roles.
fn finalize(
    s: &ConnInitSettings,
    remote_sockid: SocketId,
    init_recv: SeqNumber,
    peer: &SrtHandshake,
    from: SocketAddr,
    cm: Option<CryptoManager>,
    stream_id: Option<String>,
    start: Instant,
) -> (cs: ConnectionSettings)
    ensures
        finalized_from(cs, *s, remote_sockid, init_recv, *peer, from),
        cs.socket_start_time == start,
        cs.crypto_manager == cm,
        cs.stream_id == stream_id,
{
    ConnectionSettings {
        remote: from,
        remote_sockid,
        local_sockid: s.local_sockid,
        socket_start_time: start,
        init_send_seq_num: s.starting_send_seqnum,
        init_recv_seq_num: init_recv,
        max_packet_size: MAX_PACKET_SIZE,
        max_flow_size: MAX_FLOW_SIZE,
        send_tsbpd_latency: max_latency(s.send_latency, peer.recv_latency),
        recv_tsbpd_latency: max_latency(s.recv_latency, peer.send_latency),
        crypto_manager: cm,
        stream_id,
    }
}

/// The rejection of a payload that is not version 5.
fn reject_version() -> (r: GenHsv5Result)
    ensures
        r == GenHsv5Result::Reject(
            ConnectionReject::Rejecting(RejectReason::Server(ServerRejectReason::Version)),
        ),
{
    GenHsv5Result::Reject(ConnectionReject::Rejecting(RejectReason::Server(ServerRejectReason::Version)))
}

/// The responder's answer to `with_hsv5` under settings already in force,
/// given what unwrapping the peer's key-exchange request gave (`None` when no
/// unwrap is needed).
pub fn respond_hsv5(
    settings: &ConnInitSettings,
    with_hsv5: &HandshakeControlInfo,
    from: SocketAddr,
    unwrapped: Option<Result<Vec<u8>, RejectReason>>,
    start: Instant,
) -> (r: GenHsv5Result)
    requires
        unwrapped is Some == needs_unwrap(*settings, *with_hsv5),
    ensures
        responds(*settings, *with_hsv5, from, unwrapped, r),
        r is Accept ==> r->Accept_1.socket_start_time == start,
        r is Accept ==> accepts(*settings, *with_hsv5, from, r->Accept_0, r->Accept_1),
        r is NotHandled ==> not_handled_fits(*with_hsv5, r->NotHandled_0),
{
    let incoming = match &with_hsv5.info {
        HandshakeVSInfo::V5(hs) => hs,
        _ => {
            return reject_version();
        },
    };
    let peer = match &incoming.ext_hs {
        Some(SrtControlPacket::HandshakeRequest(hs)) => *hs,
        Some(_) => {
            return GenHsv5Result::NotHandled(ConnectError::ExpectedHSReq);
        },
        None => {
            return GenHsv5Result::NotHandled(ConnectError::ExpectedExtFlags);
        },
    };
    let cm: Option<CryptoManager> = match (&settings.crypto, &incoming.ext_km) {
        (Some(co), Some(SrtControlPacket::KeyManagerRequest(km))) => {
            if co.size != incoming.crypto_size {
                return GenHsv5Result::Reject(
                    ConnectionReject::Rejecting(RejectReason::Core(CoreRejectReason::BadSecret)),
                );
            }
            match unwrapped {
                Some(u) => match CryptoManager::from_unwrapped(co.clone(), km, u) {
                    Ok(cm) => Some(cm),
                    Err(rr) => {
                        return GenHsv5Result::Reject(rr);
                    },
                },
                None => {
                    return GenHsv5Result::NotHandled(ConnectError::ExpectedKmReq);
                },
            }
        },
        (None, None) => None,
        (Some(_), Some(_)) => {
            return GenHsv5Result::NotHandled(ConnectError::ExpectedKmReq);
        },
        (Some(_), None) | (None, Some(_)) => {
            return GenHsv5Result::Reject(
                ConnectionReject::Rejecting(RejectReason::Core(CoreRejectReason::Unsecure)),
            );
        },
    };
    let (crypto_size, ext_km) = match &cm {
        Some(c) => (c.key_length(), Some(SrtControlPacket::KeyManagerResponse(c.generate_km()))),
        None => (0u8, None),
    };
    let info = HSV5Info {
        crypto_size,
        ext_hs: Some(SrtControlPacket::HandshakeResponse(local_extension_of(settings))),
        ext_km,
        sid: copy_sid(&incoming.sid),
    };
    let cs = finalize(
        settings,
        with_hsv5.socket_id,
        with_hsv5.init_seq_num,
        &peer,
        from,
        cm,
        copy_sid(&incoming.sid),
        start,
    );
    GenHsv5Result::Accept(HandshakeVSInfo::V5(info), cs)
}

/// Settings `s` with the crypto override of an access decision applied.
pub open spec fn with_crypto_override(s: ConnInitSettings, o: Option<CryptoOptions>) -> ConnInitSettings {
    match o {
        Some(co) => ConnInitSettings { crypto: Some(co), ..s },
        None => s,
    }
}

/// `r` is an acceptance of message `h` under settings `s`.
pub open spec fn accepts(
    s: ConnInitSettings,
    h: HandshakeControlInfo,
    from: SocketAddr,
    info: HandshakeVSInfo,
    cs: ConnectionSettings,
) -> bool {
    match h.info {
        HandshakeVSInfo::V5(inc) => match inc.ext_hs {
            Some(SrtControlPacket::HandshakeRequest(peer)) => accepted(s, h, inc, peer, from, info, cs),
            _ => false,
        },
        _ => false,
    }
}

/// A local error names what is wrong with message `h`.
pub open spec fn not_handled_fits(h: HandshakeControlInfo, e: ConnectError) -> bool {
    &&& h.info is V5
    &&& e == ConnectError::ExpectedExtFlags ==> h.info->V5_0.ext_hs is None
    &&& e == ConnectError::ExpectedHSReq ==> h.info->V5_0.ext_hs is Some
        && !(h.info->V5_0.ext_hs->Some_0 is HandshakeRequest)
    &&& e == ConnectError::ExpectedKmReq ==> h.info->V5_0.ext_km is Some
        && !(h.info->V5_0.ext_km->Some_0 is KeyManagerRequest)
}

/// The rejection of a payload that is not version 5.
pub open spec fn version_rejection() -> GenHsv5Result {
    GenHsv5Result::Reject(
        ConnectionReject::Rejecting(RejectReason::Server(ServerRejectReason::Version)),
    )
}

/// The stream identifier the access-control collaborator is asked about:
/// the peer's, as it came.
pub fn acceptor_stream_id(incoming: &HSV5Info) -> (r: Option<&str>)
    ensures
        r is Some == incoming.sid is Some,
        r is Some ==> r->Some_0@ == incoming.sid->Some_0@,
{
    match &incoming.sid {
        Some(s) => Some(s.as_str()),
        None => None,
    }
}

/// Applies the access-control decision on the peer. A refusal comes back as
/// the responder's result, unchanged, with the settings untouched; an
/// acceptance applies its crypto override and gives `None`.
pub fn apply_access_decision(
    settings: &mut ConnInitSettings,
    decision: Result<AcceptParameters, RejectReason>,
) -> (r: Option<GenHsv5Result>)
    ensures
        match decision {
            Err(rr) => {
                &&& r == Some(GenHsv5Result::Reject(ConnectionReject::Rejecting(rr)))
                &&& *final(settings) == *old(settings)
            },
            Ok(ap) => {
                &&& r is None
                &&& *final(settings) == with_crypto_override(*old(settings), ap.spec_crypto())
            },
        },
{
    let mut ap = match decision {
        Ok(ap) => ap,
        Err(rr) => {
            return Some(GenHsv5Result::Reject(ConnectionReject::Rejecting(rr)));
        },
    };
    if let Some(co) = ap.take_crypto_options() {
        settings.crypto = Some(co);
    }
    None
}

/// What the peer's key-exchange request is unwrapped with, when it must be:
/// the configured crypto options and the request itself.
pub fn unwrap_request<'a>(settings: &'a ConnInitSettings, with_hsv5: &'a HandshakeControlInfo) -> (r:
    Option<(&'a CryptoOptions, &'a SrtKeyMessage)>)
    ensures
        r is Some == needs_unwrap(*settings, *with_hsv5),
        r is Some ==> *r->Some_0.0 == settings.crypto->Some_0 && *r->Some_0.1 == km_request(
            with_hsv5.info->V5_0,
        )->Some_0,
{
    match &with_hsv5.info {
        HandshakeVSInfo::V5(incoming) => match (&incoming.ext_hs, &settings.crypto, &incoming.ext_km) {
            (
                Some(SrtControlPacket::HandshakeRequest(_)),
                Some(co),
                Some(SrtControlPacket::KeyManagerRequest(km)),
            ) => {
                if co.size == incoming.crypto_size {
                    Some((co, km))
                } else {
                    None
                }
            },
            _ => None,
        },
        _ => None,
    }
}

/// The responder's negotiation on one inbound handshake. A payload that is
/// not version 5 is rejected with `Version`, and neither collaborator is
/// consulted. Otherwise `acceptor` is asked about the peer's stream
/// identifier and address; a refusal is returned as it is, with the settings
/// and `keys` untouched. An acceptance applies its crypto override, the
/// peer's key-exchange request is unwrapped through `keys` where
/// `unwrap_request` says so, and the answer is the one `respond_hsv5` gives
/// for what the unwrap returned.
pub fn gen_hsv5_response<A: StreamAcceptor, W: KeyWrap>(
    settings: &mut ConnInitSettings,
    with_hsv5: &HandshakeControlInfo,
    from: SocketAddr,
    acceptor: &mut A,
    keys: &mut W,
) -> (r: GenHsv5Result)
    ensures
        !(with_hsv5.info is V5) ==> {
            &&& r == version_rejection()
            &&& *final(settings) == *old(settings)
            &&& *final(acceptor) == *old(acceptor)
            &&& *final(keys) == *old(keys)
        },
        *final(settings) == with_crypto_override(*old(settings), final(settings).crypto),
        with_hsv5.info is V5 ==> {
            ||| {
                &&& r is Reject
                &&& r->Reject_0 is Rejecting
                &&& *final(settings) == *old(settings)
                &&& *final(keys) == *old(keys)
            }
            ||| exists|u: Option<Result<Vec<u8>, RejectReason>>|
                u is Some == needs_unwrap(*final(settings), *with_hsv5) && #[trigger] responds(
                    *final(settings),
                    *with_hsv5,
                    from,
                    u,
                    r,
                )
        },
        r is Accept ==> accepts(*final(settings), *with_hsv5, from, r->Accept_0, r->Accept_1),
        r is NotHandled ==> not_handled_fits(*with_hsv5, r->NotHandled_0),
{
    let incoming = match &with_hsv5.info {
        HandshakeVSInfo::V5(i) => i,
        _ => {
            return reject_version();
        },
    };
    let decision = acceptor.accept(acceptor_stream_id(incoming), from);
    if let Some(refusal) = apply_access_decision(settings, decision) {
        return refusal;
    }
    let unwrapped = match unwrap_request(settings, with_hsv5) {
        Some((co, km)) => Some(keys.unwrap_key(co, km)),
        None => None,
    };
    let r = respond_hsv5(settings, with_hsv5, from, unwrapped, now());
    assert(responds(*settings, *with_hsv5, from, unwrapped, r));
    r
}

/// What the initiator holds between sending its request and receiving the
/// response: its key (if any), its settings and the stream identifier. It is
/// moved into `finish_hsv5_initiation`, so it can be finished only once.
#[derive(Debug)]
pub struct StartedInitiator {
    cm: Option<CryptoManager>,
    settings: ConnInitSettings,
    streamid: Option<String>,
}

impl StartedInitiator {
    pub closed spec fn spec_cm(&self) -> Option<CryptoManager> {
        self.cm
    }

    pub closed spec fn spec_settings(&self) -> ConnInitSettings {
        self.settings
    }

    pub closed spec fn spec_streamid(&self) -> Option<String> {
        self.streamid
    }
}

/// `info` and `st` are the request and pending state of an initiation with
/// `settings`, stream identifier `streamid` and crypto manager `cm`.
pub open spec fn started(
    settings: ConnInitSettings,
    streamid: Option<String>,
    cm: Option<CryptoManager>,
    info: HandshakeVSInfo,
    st: StartedInitiator,
) -> bool {
    &&& info is V5
    &&& info->V5_0.crypto_size == advertised_crypto_size(settings.crypto)
    &&& info->V5_0.ext_hs == Some(SrtControlPacket::HandshakeRequest(local_extension(settings)))
    &&& info->V5_0.sid == streamid
    &&& match cm {
        None => info->V5_0.ext_km is None,
        Some(c) => {
            &&& info->V5_0.ext_km is Some
            &&& info->V5_0.ext_km->Some_0 is KeyManagerRequest
            &&& info->V5_0.ext_km->Some_0->KeyManagerRequest_0.same_as(c.spec_km())
        },
    }
    &&& st.spec_cm() == cm
    &&& st.spec_settings() == settings
    &&& st.spec_streamid() == streamid
}

/// The crypto manager fits the settings: present exactly when crypto is
/// configured, and made with that configuration.
pub open spec fn cm_fits(settings: ConnInitSettings, cm: Option<CryptoManager>) -> bool {
    &&& cm is Some == settings.crypto is Some
    &&& cm is Some ==> cm->Some_0.spec_options() == settings.crypto->Some_0
}

/// The initiator's request and pending state, with the crypto manager
/// already made for the configured crypto.
pub fn start_with_crypto(
    settings: ConnInitSettings,
    streamid: Option<String>,
    cm: Option<CryptoManager>,
) -> (r: (HandshakeVSInfo, StartedInitiator))
    requires
        cm_fits(settings, cm),
    ensures
        started(settings, streamid, cm, r.0, r.1),
{
    let crypto_size = match &cm {
        Some(c) => c.key_length(),
        None => 0u8,
    };
    let ext_km = match &cm {
        Some(c) => Some(SrtControlPacket::KeyManagerRequest(c.generate_km())),
        None => None,
    };
    let info = HSV5Info {
        crypto_size,
        ext_hs: Some(SrtControlPacket::HandshakeRequest(local_extension_of(&settings))),
        ext_km,
        sid: copy_sid(&streamid),
    };
    (HandshakeVSInfo::V5(info), StartedInitiator { cm, settings, streamid })
}

/// Begins an initiation: where crypto is configured, a fresh key is drawn and
/// wrapped through `keys`; the request carries the local extension, the key
/// exchange and the stream identifier.
pub fn start_hsv5_initiation<W: KeyWrap>(
    settings: ConnInitSettings,
    streamid: Option<String>,
    keys: &mut W,
) -> (r: (HandshakeVSInfo, StartedInitiator))
    ensures
        cm_fits(settings, r.1.spec_cm()),
        r.1.spec_cm() is Some ==> r.1.spec_cm()->Some_0.spec_key().len()
            == settings.crypto->Some_0.size as int,
        started(settings, streamid, r.1.spec_cm(), r.0, r.1),
{
    let cm = match &settings.crypto {
        Some(co) => Some(CryptoManager::new_random(co.clone(), keys)),
        None => None,
    };
    start_with_crypto(settings, streamid, cm)
}

/// The initiator's result `r` on response `response`, without the start
/// time: a payload that is not version 5 is an unsupported version; the
/// extension must be a handshake response; the connection keeps the pending
/// key, settings and stream identifier. The peer's key-exchange response is
/// not checked: the key travels one way, from initiator to responder.
pub open spec fn finishes(
    st: StartedInitiator,
    response: HandshakeControlInfo,
    from: SocketAddr,
    r: Result<ConnectionSettings, ConnectError>,
) -> bool {
    match response.info {
        HandshakeVSInfo::V5(inc) => match inc.ext_hs {
            Some(SrtControlPacket::HandshakeResponse(peer)) => {
                &&& r is Ok
                &&& finalized_from(
                    r->Ok_0,
                    st.spec_settings(),
                    response.socket_id,
                    response.init_seq_num,
                    peer,
                    from,
                )
                &&& r->Ok_0.crypto_manager == st.spec_cm()
                &&& r->Ok_0.stream_id == st.spec_streamid()
            },
            Some(_) => r == Err::<ConnectionSettings, _>(ConnectError::ExpectedHSResp),
            None => r == Err::<ConnectionSettings, _>(ConnectError::ExpectedExtFlags),
        },
        _ => r == Err::<ConnectionSettings, _>(
            ConnectError::UnsupportedProtocolVersion(response.info.spec_version()),
        ),
    }
}

impl StartedInitiator {
    /// Completes the initiation on the peer's response, with the connection
    /// starting at `start`.
    pub fn finish_at(self, response: &HandshakeControlInfo, from: SocketAddr, start: Instant) -> (r:
        Result<ConnectionSettings, ConnectError>)
        ensures
            finishes(self, *response, from, r),
            r is Ok ==> r->Ok_0.socket_start_time == start,
    {
        let incoming = match &response.info {
            HandshakeVSInfo::V5(hs) => hs,
            i => {
                return Err(ConnectError::UnsupportedProtocolVersion(i.version()));
            },
        };
        let peer = match &incoming.ext_hs {
            Some(SrtControlPacket::HandshakeResponse(hs)) => *hs,
            Some(_) => {
                return Err(ConnectError::ExpectedHSResp);
            },
            None => {
                return Err(ConnectError::ExpectedExtFlags);
            },
        };
        Ok(
            finalize(
                &self.settings,
                response.socket_id,
                response.init_seq_num,
                &peer,
                from,
                self.cm,
                self.streamid,
                start,
            ),
        )
    }

    /// Completes the initiation on the peer's response, with the connection
    /// starting now.
    pub fn finish_hsv5_initiation(self, response: &HandshakeControlInfo, from: SocketAddr) -> (r:
        Result<ConnectionSettings, ConnectError>)
        ensures
            finishes(self, *response, from, r),
    {
        self.finish_at(response, from, now())
    }
}

/// Crypto is on both ends of a completed handshake or on neither: when a
/// responder accepts an initiator's request, and the initiator completes on
/// that acceptance, either both connections hold a crypto manager or neither
/// does.
pub proof fn lemma_crypto_presence_agrees(
    init_settings: ConnInitSettings,
    streamid: Option<String>,
    cm: Option<CryptoManager>,
    request: HandshakeVSInfo,
    st: StartedInitiator,
    resp_settings: ConnInitSettings,
    h: HandshakeControlInfo,
    from_initiator: SocketAddr,
    info: HandshakeVSInfo,
    cs: ConnectionSettings,
    response: HandshakeControlInfo,
    from_responder: SocketAddr,
    fin: Result<ConnectionSettings, ConnectError>,
)
    requires
        cm_fits(init_settings, cm),
        started(init_settings, streamid, cm, request, st),
        h.info == request,
        accepts(resp_settings, h, from_initiator, info, cs),
        response.info == info,
        finishes(st, response, from_responder, fin),
    ensures
        fin is Ok,
        fin->Ok_0.crypto_manager is Some == cs.crypto_manager is Some,
{
    let inc = h.info->V5_0;
    match resp_settings.crypto {
        Some(co) => assert(km_request(inc) is Some),
        None => assert(inc.ext_km is None),
    }
}

/// On the responder, each negotiated latency is at least the local one and
/// at least the peer's opposite-direction one.
pub proof fn lemma_responder_latency_covers_both(
    s: ConnInitSettings,
    h: HandshakeControlInfo,
    from: SocketAddr,
    info: HandshakeVSInfo,
    cs: ConnectionSettings,
)
    requires
        accepts(s, h, from, info, cs),
    ensures
        ({
            let peer = h.info->V5_0.ext_hs->Some_0->HandshakeRequest_0;
            &&& cs.send_tsbpd_latency >= s.send_latency
            &&& cs.send_tsbpd_latency >= peer.recv_latency
            &&& cs.recv_tsbpd_latency >= s.recv_latency
            &&& cs.recv_tsbpd_latency >= peer.send_latency
        }),
{
}

/// On the initiator, each negotiated latency is at least the local one and
/// at least the peer's opposite-direction one.
pub proof fn lemma_initiator_latency_covers_both(
    st: StartedInitiator,
    response: HandshakeControlInfo,
    from: SocketAddr,
    fin: Result<ConnectionSettings, ConnectError>,
)
    requires
        finishes(st, response, from, fin),
        fin is Ok,
    ensures
        ({
            let peer = response.info->V5_0.ext_hs->Some_0->HandshakeResponse_0;
            let cs = fin->Ok_0;
            &&& cs.send_tsbpd_latency >= st.spec_settings().send_latency
            &&& cs.send_tsbpd_latency >= peer.recv_latency
            &&& cs.recv_tsbpd_latency >= st.spec_settings().recv_latency
            &&& cs.recv_tsbpd_latency >= peer.send_latency
        }),
{
}

/// An initiation begun with crypto configured that completes holds a crypto
/// manager whose key length is the configured size.
pub proof fn lemma_initiator_keeps_key(
    settings: ConnInitSettings,
    streamid: Option<String>,
    cm: Option<CryptoManager>,
    request: HandshakeVSInfo,
    st: StartedInitiator,
    response: HandshakeControlInfo,
    from: SocketAddr,
    fin: Result<ConnectionSettings, ConnectError>,
)
    requires
        cm_fits(settings, cm),
        started(settings, streamid, cm, request, st),
        settings.crypto is Some,
        finishes(st, response, from, fin),
        fin is Ok,
    ensures
        fin->Ok_0.crypto_manager is Some,
        fin->Ok_0.crypto_manager->Some_0.spec_options().size == settings.crypto->Some_0.size,
{
}

} // verus!
