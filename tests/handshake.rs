use srt_hsv5::accesscontrol::{AcceptParameters, AllowAllStreamAcceptor, StreamAcceptor};
use srt_hsv5::crypto::{CryptoManager, CryptoOptions, KeyWrap};
use srt_hsv5::hsv5::{
    acceptor_stream_id, apply_access_decision, gen_hsv5_response, respond_hsv5,
    start_hsv5_initiation, unwrap_request, GenHsv5Result,
};
use srt_hsv5::packet::{
    CoreRejectReason, HSV5Info, HandshakeControlInfo, HandshakeVSInfo, RejectReason, SeqNumber,
    ServerRejectReason, SocketAddr, SocketId, SocketType, SrtControlPacket, SrtHandshake,
    SrtKeyMessage, SrtVersion, SHAKE_SUPPORTED,
};
use srt_hsv5::settings::{
    ConnInitSettings, ConnectError, ConnectionReject, MAX_FLOW_SIZE, MAX_PACKET_SIZE,
};

/// Wraps a key by xor with the passphrase, and records the passphrase as salt.
struct XorWrap {
    calls: usize,
}

fn xor(key: &[u8], pass: &str) -> Vec<u8> {
    let p = pass.as_bytes();
    key.iter().enumerate().map(|(i, b)| b ^ p[i % p.len()]).collect()
}

impl KeyWrap for XorWrap {
    fn random_byte(&mut self) -> u8 {
        self.calls += 1;
        (self.calls as u8).wrapping_mul(37).wrapping_add(11)
    }

    fn wrap_key(&mut self, options: &CryptoOptions, key: &Vec<u8>) -> SrtKeyMessage {
        self.calls += 1;
        SrtKeyMessage {
            salt: options.passphrase.as_bytes().to_vec(),
            wrapped_keys: xor(key, &options.passphrase),
        }
    }

    fn unwrap_key(
        &mut self,
        options: &CryptoOptions,
        km: &SrtKeyMessage,
    ) -> Result<Vec<u8>, RejectReason> {
        self.calls += 1;
        if km.salt != options.passphrase.as_bytes() {
            return Err(RejectReason::Core(CoreRejectReason::BadSecret));
        }
        Ok(xor(&km.wrapped_keys, &options.passphrase))
    }
}

struct Refuse(RejectReason);

impl StreamAcceptor for Refuse {
    fn accept(&mut self, _s: Option<&str>, _ip: SocketAddr) -> Result<AcceptParameters, RejectReason> {
        Err(self.0)
    }
}

/// Records what it was asked, and lets the peer in.
struct Recorder {
    asked: Vec<(Option<String>, SocketAddr)>,
}

impl StreamAcceptor for Recorder {
    fn accept(&mut self, s: Option<&str>, ip: SocketAddr) -> Result<AcceptParameters, RejectReason> {
        self.asked.push((s.map(|x| x.to_string()), ip));
        Ok(AcceptParameters::new())
    }
}

struct GrantCrypto(u8, &'static str);

impl StreamAcceptor for GrantCrypto {
    fn accept(&mut self, _s: Option<&str>, _ip: SocketAddr) -> Result<AcceptParameters, RejectReason> {
        let mut ap = AcceptParameters::new();
        ap.set_crypto_options(CryptoOptions { size: self.0, passphrase: self.1.to_string() });
        Ok(ap)
    }
}

fn crypto(size: u8, pass: &str) -> Option<CryptoOptions> {
    Some(CryptoOptions { size, passphrase: pass.to_string() })
}

fn local(crypto: Option<CryptoOptions>, send: u64, recv: u64) -> ConnInitSettings {
    ConnInitSettings {
        local_sockid: SocketId(1234),
        crypto,
        send_latency: send,
        recv_latency: recv,
        starting_send_seqnum: SeqNumber(555),
    }
}

fn addr() -> SocketAddr {
    SocketAddr::V4(0x7f00_0001, 9000)
}

fn ext(send: u64, recv: u64) -> SrtHandshake {
    SrtHandshake { version: SrtVersion::current(), flags: SHAKE_SUPPORTED, send_latency: send, recv_latency: recv }
}

fn message(info: HSV5Info) -> HandshakeControlInfo {
    HandshakeControlInfo { socket_id: SocketId(77), init_seq_num: SeqNumber(4242), info: HandshakeVSInfo::V5(info) }
}

fn request(crypto_size: u8, ext_km: Option<SrtControlPacket>, sid: Option<&str>) -> HandshakeControlInfo {
    message(HSV5Info {
        crypto_size,
        ext_hs: Some(SrtControlPacket::HandshakeRequest(ext(200, 100))),
        ext_km,
        sid: sid.map(|s| s.to_string()),
    })
}

fn km(pass: &str, key: &[u8]) -> SrtKeyMessage {
    SrtKeyMessage { salt: pass.as_bytes().to_vec(), wrapped_keys: xor(key, pass) }
}

fn rejecting(r: RejectReason) -> ConnectionReject {
    ConnectionReject::Rejecting(r)
}

#[test]
fn plain_peer_and_plain_settings_accept_without_crypto() {
    let mut s = local(None, 120, 300);
    let mut keys = XorWrap { calls: 0 };
    let r = gen_hsv5_response(&mut s, &request(0, None, Some("live/a")), addr(), &mut AllowAllStreamAcceptor, &mut keys);
    match r {
        GenHsv5Result::Accept(HandshakeVSInfo::V5(info), cs) => {
            assert_eq!(info.crypto_size, 0);
            assert!(info.ext_km.is_none());
            assert_eq!(info.sid.as_deref(), Some("live/a"));
            match info.ext_hs {
                Some(SrtControlPacket::HandshakeResponse(hs)) => assert_eq!(hs, ext(120, 300)),
                other => panic!("unexpected extension {:?}", other),
            }
            assert!(cs.crypto_manager.is_none());
            assert_eq!(cs.remote, addr());
            assert_eq!(cs.remote_sockid, SocketId(77));
            assert_eq!(cs.local_sockid, SocketId(1234));
            assert_eq!(cs.init_send_seq_num, SeqNumber(555));
            assert_eq!(cs.init_recv_seq_num, SeqNumber(4242));
            assert_eq!(cs.max_packet_size, 1500);
            assert_eq!(cs.max_flow_size, 8192);
            assert_eq!(cs.stream_id.as_deref(), Some("live/a"));
        }
        other => panic!("expected acceptance, got {:?}", other),
    }
    assert_eq!(keys.calls, 0);
}

#[test]
fn negotiated_latency_is_larger_of_local_and_peer_opposite() {
    // local send 120 vs peer recv 100; local recv 300 vs peer send 200
    let mut s = local(None, 120, 300);
    let r = gen_hsv5_response(&mut s, &request(0, None, None), addr(), &mut AllowAllStreamAcceptor, &mut XorWrap { calls: 0 });
    match r {
        GenHsv5Result::Accept(_, cs) => {
            assert_eq!(cs.send_tsbpd_latency, 120);
            assert_eq!(cs.recv_tsbpd_latency, 300);
        }
        other => panic!("expected acceptance, got {:?}", other),
    }
    let mut s = local(None, 50, 60);
    let r = gen_hsv5_response(&mut s, &request(0, None, None), addr(), &mut AllowAllStreamAcceptor, &mut XorWrap { calls: 0 });
    match r {
        GenHsv5Result::Accept(_, cs) => {
            assert_eq!(cs.send_tsbpd_latency, 100);
            assert_eq!(cs.recv_tsbpd_latency, 200);
        }
        other => panic!("expected acceptance, got {:?}", other),
    }
}

#[test]
fn required_crypto_without_peer_key_exchange_is_rejected() {
    let mut s = local(crypto(16, "passphrase"), 120, 120);
    let r = gen_hsv5_response(&mut s, &request(16, None, None), addr(), &mut AllowAllStreamAcceptor, &mut XorWrap { calls: 0 });
    assert!(matches!(r, GenHsv5Result::Reject(c) if c == rejecting(RejectReason::Core(CoreRejectReason::Unsecure))));
}

#[test]
fn peer_key_exchange_without_local_crypto_is_rejected() {
    let mut s = local(None, 120, 120);
    let req = request(16, Some(SrtControlPacket::KeyManagerRequest(km("passphrase", &[1; 16]))), None);
    let r = gen_hsv5_response(&mut s, &req, addr(), &mut AllowAllStreamAcceptor, &mut XorWrap { calls: 0 });
    assert!(matches!(r, GenHsv5Result::Reject(c) if c == rejecting(RejectReason::Core(CoreRejectReason::Unsecure))));
}

#[test]
fn key_size_mismatch_is_rejected() {
    let mut s = local(crypto(16, "passphrase"), 120, 120);
    let req = request(32, Some(SrtControlPacket::KeyManagerRequest(km("passphrase", &[1; 32]))), None);
    let mut keys = XorWrap { calls: 0 };
    let r = gen_hsv5_response(&mut s, &req, addr(), &mut AllowAllStreamAcceptor, &mut keys);
    assert!(matches!(r, GenHsv5Result::Reject(c) if c == rejecting(RejectReason::Core(CoreRejectReason::BadSecret))));
    assert_eq!(keys.calls, 0);
}

#[test]
fn key_exchange_response_in_place_of_request_is_not_handled() {
    let mut s = local(crypto(16, "passphrase"), 120, 120);
    let req = request(16, Some(SrtControlPacket::KeyManagerResponse(km("passphrase", &[1; 16]))), None);
    let r = gen_hsv5_response(&mut s, &req, addr(), &mut AllowAllStreamAcceptor, &mut XorWrap { calls: 0 });
    assert!(matches!(r, GenHsv5Result::NotHandled(ConnectError::ExpectedKmReq)));
}

#[test]
fn wrong_passphrase_rejection_comes_from_unwrap() {
    let mut s = local(crypto(16, "passphrase"), 120, 120);
    let req = request(16, Some(SrtControlPacket::KeyManagerRequest(km("other", &[1; 16]))), None);
    let r = gen_hsv5_response(&mut s, &req, addr(), &mut AllowAllStreamAcceptor, &mut XorWrap { calls: 0 });
    assert!(matches!(r, GenHsv5Result::Reject(c) if c == rejecting(RejectReason::Core(CoreRejectReason::BadSecret))));
}

#[test]
fn unwrapped_key_of_wrong_length_is_rejected() {
    let s = local(crypto(16, "passphrase"), 120, 120);
    let req = request(16, Some(SrtControlPacket::KeyManagerRequest(km("passphrase", &[1; 16]))), None);
    let r = respond_hsv5(&s, &req, addr(), Some(Ok(vec![1; 8])), std::time::Instant::now());
    assert!(matches!(r, GenHsv5Result::Reject(c) if c == rejecting(RejectReason::Core(CoreRejectReason::BadSecret))));
    let r = respond_hsv5(&s, &req, addr(), Some(Err(RejectReason::User(2042))), std::time::Instant::now());
    assert!(matches!(r, GenHsv5Result::Reject(c) if c == rejecting(RejectReason::User(2042))));
}

#[test]
fn missing_handshake_extension_is_not_handled() {
    let mut s = local(None, 120, 120);
    let req = message(HSV5Info { crypto_size: 0, ext_hs: None, ext_km: None, sid: None });
    let r = gen_hsv5_response(&mut s, &req, addr(), &mut AllowAllStreamAcceptor, &mut XorWrap { calls: 0 });
    assert!(matches!(r, GenHsv5Result::NotHandled(ConnectError::ExpectedExtFlags)));
}

#[test]
fn handshake_response_in_place_of_request_is_not_handled() {
    let mut s = local(None, 120, 120);
    let req = message(HSV5Info {
        crypto_size: 0,
        ext_hs: Some(SrtControlPacket::HandshakeResponse(ext(1, 1))),
        ext_km: None,
        sid: None,
    });
    let r = gen_hsv5_response(&mut s, &req, addr(), &mut AllowAllStreamAcceptor, &mut XorWrap { calls: 0 });
    assert!(matches!(r, GenHsv5Result::NotHandled(ConnectError::ExpectedHSReq)));
}

#[test]
fn legacy_version_is_rejected_with_version() {
    let mut s = local(crypto(16, "passphrase"), 120, 120);
    let before = local(crypto(16, "passphrase"), 120, 120);
    let req = HandshakeControlInfo {
        socket_id: SocketId(1),
        init_seq_num: SeqNumber(2),
        info: HandshakeVSInfo::V4(SocketType::Datagram),
    };
    let mut refuse = Refuse(RejectReason::Server(ServerRejectReason::Forbidden));
    let r = gen_hsv5_response(&mut s, &req, addr(), &mut refuse, &mut XorWrap { calls: 0 });
    assert!(matches!(r, GenHsv5Result::Reject(c) if c == rejecting(RejectReason::Server(ServerRejectReason::Version))));
    assert_eq!(s, before);
    let mut recorder = Recorder { asked: vec![] };
    let mut keys = XorWrap { calls: 0 };
    let r = gen_hsv5_response(&mut s, &req, addr(), &mut recorder, &mut keys);
    assert!(matches!(r, GenHsv5Result::Reject(c) if c == rejecting(RejectReason::Server(ServerRejectReason::Version))));
    assert!(recorder.asked.is_empty());
    assert_eq!(keys.calls, 0);
}

#[test]
fn access_control_refusal_is_returned_unchanged() {
    let mut s = local(crypto(16, "passphrase"), 120, 120);
    let req = request(16, Some(SrtControlPacket::KeyManagerRequest(km("passphrase", &[1; 16]))), Some("x"));
    let mut keys = XorWrap { calls: 0 };
    let mut refuse = Refuse(RejectReason::User(2077));
    let r = gen_hsv5_response(&mut s, &req, addr(), &mut refuse, &mut keys);
    assert!(matches!(r, GenHsv5Result::Reject(c) if c == rejecting(RejectReason::User(2077))));
    assert_eq!(keys.calls, 0);
    assert_eq!(s.crypto, crypto(16, "passphrase"));
}

#[test]
fn access_control_crypto_override_is_applied() {
    let mut s = local(None, 120, 120);
    let req = request(24, Some(SrtControlPacket::KeyManagerRequest(km("granted", &[9; 24]))), None);
    let mut keys = XorWrap { calls: 0 };
    let r = gen_hsv5_response(&mut s, &req, addr(), &mut GrantCrypto(24, "granted"), &mut keys);
    assert_eq!(s.crypto, crypto(24, "granted"));
    match r {
        GenHsv5Result::Accept(HandshakeVSInfo::V5(info), cs) => {
            assert_eq!(info.crypto_size, 24);
            match info.ext_km {
                Some(SrtControlPacket::KeyManagerResponse(k)) => {
                    assert_eq!(k.wrapped_keys, xor(&[9; 24], "granted"));
                }
                other => panic!("expected key-exchange response, got {:?}", other),
            }
            assert_eq!(cs.crypto_manager.map(|c| c.key_length()), Some(24));
        }
        other => panic!("expected acceptance, got {:?}", other),
    }
    assert_eq!(keys.calls, 1);
}

#[test]
fn initiator_round_trip_with_crypto_keeps_key_length() {
    let mut keys = XorWrap { calls: 0 };
    let (req_info, started) =
        start_hsv5_initiation(local(crypto(16, "secret"), 80, 90), Some("s1".to_string()), &mut keys);
    match &req_info {
        HandshakeVSInfo::V5(info) => {
            assert_eq!(info.crypto_size, 16);
            assert!(matches!(info.ext_km, Some(SrtControlPacket::KeyManagerRequest(_))));
            assert!(matches!(info.ext_hs, Some(SrtControlPacket::HandshakeRequest(hs)) if hs == ext(80, 90)));
            assert_eq!(info.sid.as_deref(), Some("s1"));
        }
        other => panic!("expected version 5, got {:?}", other),
    }
    let inbound = HandshakeControlInfo { socket_id: SocketId(9), init_seq_num: SeqNumber(10), info: req_info };
    let mut responder = local(crypto(16, "secret"), 120, 40);
    let r = gen_hsv5_response(&mut responder, &inbound, addr(), &mut AllowAllStreamAcceptor, &mut keys);
    let (resp_info, resp_cs) = match r {
        GenHsv5Result::Accept(info, cs) => (info, cs),
        other => panic!("expected acceptance, got {:?}", other),
    };
    assert_eq!(resp_cs.crypto_manager.as_ref().map(|c| c.key_length()), Some(16));
    let response = HandshakeControlInfo { socket_id: SocketId(1234), init_seq_num: SeqNumber(555), info: resp_info };
    let cs = started.finish_hsv5_initiation(&response, addr()).unwrap();
    assert_eq!(cs.crypto_manager.as_ref().map(|c| c.key_length()), Some(16));
    assert_eq!(cs.stream_id.as_deref(), Some("s1"));
    assert_eq!(cs.remote_sockid, SocketId(1234));
    assert_eq!(cs.init_recv_seq_num, SeqNumber(555));
    assert_eq!(cs.send_tsbpd_latency, 80);
    assert_eq!(cs.recv_tsbpd_latency, 120);
    assert_eq!(cs.max_packet_size, MAX_PACKET_SIZE);
    assert_eq!(cs.max_flow_size, MAX_FLOW_SIZE);
}

#[test]
fn initiator_round_trip_without_crypto_has_none_on_both_sides() {
    let mut keys = XorWrap { calls: 0 };
    let (req_info, started) = start_hsv5_initiation(local(None, 80, 90), None, &mut keys);
    let inbound = HandshakeControlInfo { socket_id: SocketId(9), init_seq_num: SeqNumber(10), info: req_info };
    let mut responder = local(None, 120, 40);
    let r = gen_hsv5_response(&mut responder, &inbound, addr(), &mut AllowAllStreamAcceptor, &mut keys);
    let (resp_info, resp_cs) = match r {
        GenHsv5Result::Accept(info, cs) => (info, cs),
        other => panic!("expected acceptance, got {:?}", other),
    };
    assert!(resp_cs.crypto_manager.is_none());
    let response = HandshakeControlInfo { socket_id: SocketId(1), init_seq_num: SeqNumber(2), info: resp_info };
    let cs = started.finish_hsv5_initiation(&response, addr()).unwrap();
    assert!(cs.crypto_manager.is_none());
    assert_eq!(keys.calls, 0);
}

#[test]
fn initiator_rejects_malformed_responses() {
    let mut keys = XorWrap { calls: 0 };
    let (_, started) = start_hsv5_initiation(local(None, 80, 90), None, &mut keys);
    let legacy = HandshakeControlInfo { socket_id: SocketId(1), init_seq_num: SeqNumber(2), info: HandshakeVSInfo::V4(SocketType::Stream) };
    assert!(matches!(started.finish_hsv5_initiation(&legacy, addr()), Err(ConnectError::UnsupportedProtocolVersion(4))));

    let (_, started) = start_hsv5_initiation(local(None, 80, 90), None, &mut keys);
    let wrong = message(HSV5Info { crypto_size: 0, ext_hs: Some(SrtControlPacket::HandshakeRequest(ext(1, 1))), ext_km: None, sid: None });
    assert!(matches!(started.finish_hsv5_initiation(&wrong, addr()), Err(ConnectError::ExpectedHSResp)));

    let (_, started) = start_hsv5_initiation(local(None, 80, 90), None, &mut keys);
    let missing = message(HSV5Info { crypto_size: 0, ext_hs: None, ext_km: None, sid: None });
    assert!(matches!(started.finish_hsv5_initiation(&missing, addr()), Err(ConnectError::ExpectedExtFlags)));
}

#[test]
fn crypto_manager_from_unwrapped_checks_key_size() {
    let opts = CryptoOptions { size: 16, passphrase: "p".to_string() };
    let k = km("p", &[3; 16]);
    let cm = CryptoManager::from_unwrapped(opts.clone(), &k, Ok(vec![3; 16])).unwrap();
    assert_eq!(cm.key_length(), 16);
    assert_eq!(cm.generate_km().wrapped_keys, k.wrapped_keys);
    assert!(matches!(
        CryptoManager::from_unwrapped(opts, &k, Ok(vec![3; 15])),
        Err(ConnectionReject::Rejecting(RejectReason::Core(CoreRejectReason::BadSecret)))
    ));
}

#[test]
fn reject_reasons_have_wire_codes() {
    assert_eq!(RejectReason::Core(CoreRejectReason::BadSecret).code(), 10);
    assert_eq!(RejectReason::Core(CoreRejectReason::Unsecure).code(), 11);
    assert_eq!(RejectReason::Server(ServerRejectReason::Version).code(), 1505);
    assert_eq!(RejectReason::Server(ServerRejectReason::Forbidden).code(), 1403);
    assert_eq!(RejectReason::User(2500).code(), 2500);
    assert_eq!(RejectReason::from_code(8), RejectReason::Core(CoreRejectReason::Version));
    assert_eq!(RejectReason::from_code(0), RejectReason::CoreUnrecognized(0));
    assert_eq!(RejectReason::from_code(1999), RejectReason::ServerUnrecognized(1999));
    assert_eq!(RejectReason::from_code(1507), RejectReason::Server(ServerRejectReason::NoRoom));
    assert_eq!(RejectReason::from_code(2001), RejectReason::User(2001));
    for c in [-5, 0, 1, 16, 17, 999, 1000, 1403, 1410, 1999, 2000, 12345] {
        assert_eq!(RejectReason::from_code(c).code(), c);
    }
}

#[test]
fn payload_version_numbers() {
    assert_eq!(HandshakeVSInfo::V4(SocketType::Stream).version(), 4);
    let v5 = HandshakeVSInfo::V5(HSV5Info { crypto_size: 0, ext_hs: None, ext_km: None, sid: None });
    assert_eq!(v5.version(), 5);
}

#[test]
fn acceptor_is_asked_about_peer_stream_id_and_address() {
    let mut s = local(None, 120, 120);
    let mut recorder = Recorder { asked: vec![] };
    let r = gen_hsv5_response(&mut s, &request(0, None, Some("room/7")), addr(), &mut recorder, &mut XorWrap { calls: 0 });
    assert!(matches!(r, GenHsv5Result::Accept(_, _)));
    assert_eq!(recorder.asked, vec![(Some("room/7".to_string()), addr())]);
    let info = HSV5Info { crypto_size: 0, ext_hs: None, ext_km: None, sid: Some("abc".to_string()) };
    assert_eq!(acceptor_stream_id(&info), Some("abc"));
    let info = HSV5Info { crypto_size: 0, ext_hs: None, ext_km: None, sid: None };
    assert_eq!(acceptor_stream_id(&info), None);
}

#[test]
fn access_decision_refusal_and_override() {
    let mut s = local(None, 1, 2);
    let r = apply_access_decision(&mut s, Err(RejectReason::Server(ServerRejectReason::Unauthorized)));
    assert!(matches!(r, Some(GenHsv5Result::Reject(c)) if c == rejecting(RejectReason::Server(ServerRejectReason::Unauthorized))));
    assert_eq!(s, local(None, 1, 2));
    let mut ap = AcceptParameters::new();
    ap.set_crypto_options(CryptoOptions { size: 32, passphrase: "q".to_string() });
    assert!(apply_access_decision(&mut s, Ok(ap)).is_none());
    assert_eq!(s, local(crypto(32, "q"), 1, 2));
    assert!(apply_access_decision(&mut s, Ok(AcceptParameters::new())).is_none());
    assert_eq!(s, local(crypto(32, "q"), 1, 2));
}

#[test]
fn unwrap_inputs_are_local_options_and_peer_request() {
    let s = local(crypto(16, "pw"), 1, 2);
    let req = request(16, Some(SrtControlPacket::KeyManagerRequest(km("pw", &[4; 16]))), None);
    let (co, k) = unwrap_request(&s, &req).unwrap();
    assert_eq!(co.passphrase, "pw");
    assert_eq!(k.wrapped_keys, xor(&[4; 16], "pw"));
    let mismatched = request(24, Some(SrtControlPacket::KeyManagerRequest(km("pw", &[4; 16]))), None);
    assert!(unwrap_request(&s, &mismatched).is_none());
    assert!(unwrap_request(&local(None, 1, 2), &req).is_none());
}

#[test]
fn initiator_draws_key_of_configured_size() {
    let mut keys = XorWrap { calls: 0 };
    let (info, _) = start_hsv5_initiation(local(crypto(24, "pw"), 1, 2), None, &mut keys);
    match info {
        HandshakeVSInfo::V5(i) => match i.ext_km {
            Some(SrtControlPacket::KeyManagerRequest(k)) => assert_eq!(k.wrapped_keys.len(), 24),
            other => panic!("expected key-exchange request, got {:?}", other),
        },
        other => panic!("expected version 5, got {:?}", other),
    }
    // 24 draws and one wrap
    assert_eq!(keys.calls, 25);
}
