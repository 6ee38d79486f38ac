//! Local settings going into a handshake, the finalized settings coming out,
//! and the ways a handshake fails.
use vstd::prelude::*;
use std::time::Instant;
use crate::crypto::{CryptoManager, CryptoOptions};
use crate::packet::{RejectReason, SeqNumber, SocketAddr, SocketId};

verus! {

#[verifier::external_type_specification]
#[verifier::external_body]
pub struct ExInstant(std::time::Instant);

/// Relies on std::time::Instant::now: reads the monotonic clock. Nothing is
/// known of the value.
#[verifier::external_body]
pub(crate) fn now() -> (r: Instant) {
    Instant::now()
}

/// Largest packet size of a connection; not negotiated.
pub const MAX_PACKET_SIZE: u32 = 1500;

/// Largest flow window of a connection; not negotiated.
pub const MAX_FLOW_SIZE: u32 = 8192;

/// Local configuration of a connection attempt. Latencies are in milliseconds.
#[derive(Debug, PartialEq, Eq)]
pub struct ConnInitSettings {
    pub local_sockid: SocketId,
    pub crypto: Option<CryptoOptions>,
    pub send_latency: u64,
    pub recv_latency: u64,
    pub starting_send_seqnum: SeqNumber,
}

/// The finalized result of a successful handshake. Latencies are in
/// milliseconds.
#[derive(Debug)]
pub struct ConnectionSettings {
    pub remote: SocketAddr,
    pub remote_sockid: SocketId,
    pub local_sockid: SocketId,
    pub socket_start_time: Instant,
    pub init_send_seq_num: SeqNumber,
    pub init_recv_seq_num: SeqNumber,
    pub max_packet_size: u32,
    pub max_flow_size: u32,
    pub send_tsbpd_latency: u64,
    pub recv_tsbpd_latency: u64,
    pub crypto_manager: Option<CryptoManager>,
    pub stream_id: Option<String>,
}

/// A local failure: the peer's message does not have the shape the handshake
/// needs, and no wire rejection applies.
#[derive(Clone, Copy, Debug, PartialEq, Eq, Structural)]
pub enum ConnectError {
    ExpectedHSReq,
    ExpectedHSResp,
    ExpectedKmReq,
    ExpectedExtFlags,
    UnsupportedProtocolVersion(u32),
}

/// A rejection with a wire reason: one this side sends (`Rejecting`) or one the
/// peer sent (`Rejected`).
#[derive(Clone, Copy, Debug, PartialEq, Eq, Structural)]
pub enum ConnectionReject {
    Rejecting(RejectReason),
    Rejected(RejectReason),
}

} // verus!
