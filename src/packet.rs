//! Wire-level records of the handshake: version-tagged payloads, extension
//! sub-packets and rejection reasons.
use vstd::prelude::*;

verus! {

/// A socket identifier as carried in the handshake.
#[derive(Clone, Copy, Debug, PartialEq, Eq, Structural)]
pub struct SocketId(pub u32);

/// A packet sequence number.
#[derive(Clone, Copy, Debug, PartialEq, Eq, Structural)]
pub struct SeqNumber(pub u32);

/// A peer's network address: IP address and port.
#[derive(Clone, Copy, Debug, PartialEq, Eq, Structural)]
pub enum SocketAddr {
    V4(u32, u16),
    V6(u128, u16),
}

/// Protocol version advertised in the handshake extension.
#[derive(Clone, Copy, Debug, PartialEq, Eq, Structural)]
pub struct SrtVersion {
    pub major: u8,
    pub minor: u8,
    pub patch: u8,
}

impl SrtVersion {
    /// The version this library speaks: 1.3.1.
    pub fn current() -> (r: SrtVersion)
        ensures
            r == (SrtVersion { major: 1, minor: 3, patch: 1 }),
    {
        SrtVersion { major: 1, minor: 3, patch: 1 }
    }
}

/// Capability flag bits of the handshake extension.
pub const SHAKE_TSBPDSND: u32 = 0x1;
pub const SHAKE_TSBPDRCV: u32 = 0x2;
pub const SHAKE_HAICRYPT: u32 = 0x4;
pub const SHAKE_TLPKTDROP: u32 = 0x8;
pub const SHAKE_NAKREPORT: u32 = 0x10;
pub const SHAKE_REXMITFLG: u32 = 0x20;
pub const SHAKE_STREAM: u32 = 0x40;
pub const SHAKE_PACKET_FILTER: u32 = 0x80;
/// The capabilities this library supports: timestamp-based delivery in both
/// directions, encryption and the retransmission flag.
pub const SHAKE_SUPPORTED: u32 = 0x27;

/// The handshake extension: sub-version, capabilities and delivery latencies
/// (in milliseconds).
#[derive(Clone, Copy, Debug, PartialEq, Eq, Structural)]
pub struct SrtHandshake {
    pub version: SrtVersion,
    /// Bitmask of `SHAKE_*` capability bits.
    pub flags: u32,
    pub send_latency: u64,
    pub recv_latency: u64,
}

/// A key-exchange message: key material wrapped under the passphrase-derived
/// key. Opaque to the handshake beyond its presence.
#[derive(Debug)]
pub struct SrtKeyMessage {
    pub salt: Vec<u8>,
    pub wrapped_keys: Vec<u8>,
}

impl SrtKeyMessage {
    /// Both messages carry the same bytes.
    pub open spec fn same_as(self, other: SrtKeyMessage) -> bool {
        self.salt@ == other.salt@ && self.wrapped_keys@ == other.wrapped_keys@
    }

    /// A copy carrying the same bytes.
    pub fn duplicate(&self) -> (r: SrtKeyMessage)
        ensures
            r.same_as(*self),
    {
        SrtKeyMessage { salt: self.salt.clone(), wrapped_keys: self.wrapped_keys.clone() }
    }
}

/// An extension block of a version-5 payload.
#[derive(Debug)]
pub enum SrtControlPacket {
    HandshakeRequest(SrtHandshake),
    HandshakeResponse(SrtHandshake),
    KeyManagerRequest(SrtKeyMessage),
    KeyManagerResponse(SrtKeyMessage),
}

/// The version-5 payload of a handshake.
#[derive(Debug)]
pub struct HSV5Info {
    /// Crypto key size in bytes: 0 (none), 16, 24 or 32.
    pub crypto_size: u8,
    pub ext_hs: Option<SrtControlPacket>,
    pub ext_km: Option<SrtControlPacket>,
    pub sid: Option<String>,
}

/// Socket type carried by a legacy (version-4) handshake.
#[derive(Clone, Copy, Debug, PartialEq, Eq, Structural)]
pub enum SocketType {
    Stream,
    Datagram,
}

/// A version-tagged handshake payload. Only version 5 is processed.
#[derive(Debug)]
pub enum HandshakeVSInfo {
    V4(SocketType),
    V5(HSV5Info),
}

impl HandshakeVSInfo {
    pub open spec fn spec_version(self) -> u32 {
        match self {
            HandshakeVSInfo::V4(_) => 4,
            HandshakeVSInfo::V5(_) => 5,
        }
    }

    /// The handshake version number of this payload.
    pub fn version(&self) -> (r: u32)
        ensures
            r == self.spec_version(),
    {
        match self {
            HandshakeVSInfo::V4(_) => 4,
            HandshakeVSInfo::V5(_) => 5,
        }
    }
}

/// One parsed inbound handshake message.
#[derive(Debug)]
pub struct HandshakeControlInfo {
    pub socket_id: SocketId,
    pub init_seq_num: SeqNumber,
    pub info: HandshakeVSInfo,
}

/// Rejection reasons defined by the protocol core.
#[derive(Clone, Copy, Debug, PartialEq, Eq, Structural)]
pub enum CoreRejectReason {
    System,
    Peer,
    Resource,
    Rogue,
    Backlog,
    Ipe,
    Close,
    Version,
    RdvCookie,
    BadSecret,
    Unsecure,
    MessageApi,
    Congestion,
    Filter,
    Group,
    Timeout,
}

/// Rejection reasons for access-control handlers.
#[derive(Clone, Copy, Debug, PartialEq, Eq, Structural)]
pub enum ServerRejectReason {
    Fallback,
    KeyNotSup,
    Filepath,
    HostNotFound,
    BadRequest,
    Unauthorized,
    Overload,
    Forbidden,
    Notfound,
    BadMode,
    Unacceptable,
    Conflict,
    NotSupMedia,
    Locked,
    FailedDepend,
    InternalServerError,
    Unimplemented,
    Gateway,
    Down,
    Version,
    NoRoom,
}

/// A rejection reason as it travels on the wire.
#[derive(Clone, Copy, Debug, PartialEq, Eq, Structural)]
pub enum RejectReason {
    Core(CoreRejectReason),
    CoreUnrecognized(i32),
    Server(ServerRejectReason),
    ServerUnrecognized(i32),
    User(i32),
}

/// The larger of two latencies.
pub open spec fn latency_max(a: u64, b: u64) -> u64 {
    if a >= b {
        a
    } else {
        b
    }
}

/// The larger of two latencies, in milliseconds.
pub fn max_latency(a: u64, b: u64) -> (r: u64)
    ensures
        r == latency_max(a, b),
{
    if a >= b {
        a
    } else {
        b
    }
}

/// First code of the reasons for access-control handlers.
pub const REJECT_SERVER_BASE: i32 = 1000;

/// First code of the reasons an application defines.
pub const REJECT_USER_BASE: i32 = 2000;

impl CoreRejectReason {
    /// The wire code of this reason.
    pub open spec fn spec_code(self) -> i32 {
        match self {
            CoreRejectReason::System => 1,
            CoreRejectReason::Peer => 2,
            CoreRejectReason::Resource => 3,
            CoreRejectReason::Rogue => 4,
            CoreRejectReason::Backlog => 5,
            CoreRejectReason::Ipe => 6,
            CoreRejectReason::Close => 7,
            CoreRejectReason::Version => 8,
            CoreRejectReason::RdvCookie => 9,
            CoreRejectReason::BadSecret => 10,
            CoreRejectReason::Unsecure => 11,
            CoreRejectReason::MessageApi => 12,
            CoreRejectReason::Congestion => 13,
            CoreRejectReason::Filter => 14,
            CoreRejectReason::Group => 15,
            CoreRejectReason::Timeout => 16,
        }
    }

    /// The reason with wire code `code`, if the protocol core defines one.
    pub open spec fn spec_from_code(code: i32) -> Option<CoreRejectReason> {
        match code {
            1 => Some(CoreRejectReason::System),
            2 => Some(CoreRejectReason::Peer),
            3 => Some(CoreRejectReason::Resource),
            4 => Some(CoreRejectReason::Rogue),
            5 => Some(CoreRejectReason::Backlog),
            6 => Some(CoreRejectReason::Ipe),
            7 => Some(CoreRejectReason::Close),
            8 => Some(CoreRejectReason::Version),
            9 => Some(CoreRejectReason::RdvCookie),
            10 => Some(CoreRejectReason::BadSecret),
            11 => Some(CoreRejectReason::Unsecure),
            12 => Some(CoreRejectReason::MessageApi),
            13 => Some(CoreRejectReason::Congestion),
            14 => Some(CoreRejectReason::Filter),
            15 => Some(CoreRejectReason::Group),
            16 => Some(CoreRejectReason::Timeout),
            _ => None,
        }
    }
}

impl ServerRejectReason {
    /// The wire code of this reason.
    pub open spec fn spec_code(self) -> i32 {
        match self {
            ServerRejectReason::Fallback => 1000,
            ServerRejectReason::KeyNotSup => 1001,
            ServerRejectReason::Filepath => 1002,
            ServerRejectReason::HostNotFound => 1003,
            ServerRejectReason::BadRequest => 1400,
            ServerRejectReason::Unauthorized => 1401,
            ServerRejectReason::Overload => 1402,
            ServerRejectReason::Forbidden => 1403,
            ServerRejectReason::Notfound => 1404,
            ServerRejectReason::BadMode => 1405,
            ServerRejectReason::Unacceptable => 1406,
            ServerRejectReason::Conflict => 1409,
            ServerRejectReason::NotSupMedia => 1415,
            ServerRejectReason::Locked => 1423,
            ServerRejectReason::FailedDepend => 1424,
            ServerRejectReason::InternalServerError => 1500,
            ServerRejectReason::Unimplemented => 1501,
            ServerRejectReason::Gateway => 1502,
            ServerRejectReason::Down => 1503,
            ServerRejectReason::Version => 1505,
            ServerRejectReason::NoRoom => 1507,
        }
    }

    /// The reason with wire code `code`, if one is defined for handlers.
    pub open spec fn spec_from_code(code: i32) -> Option<ServerRejectReason> {
        match code {
            1000 => Some(ServerRejectReason::Fallback),
            1001 => Some(ServerRejectReason::KeyNotSup),
            1002 => Some(ServerRejectReason::Filepath),
            1003 => Some(ServerRejectReason::HostNotFound),
            1400 => Some(ServerRejectReason::BadRequest),
            1401 => Some(ServerRejectReason::Unauthorized),
            1402 => Some(ServerRejectReason::Overload),
            1403 => Some(ServerRejectReason::Forbidden),
            1404 => Some(ServerRejectReason::Notfound),
            1405 => Some(ServerRejectReason::BadMode),
            1406 => Some(ServerRejectReason::Unacceptable),
            1409 => Some(ServerRejectReason::Conflict),
            1415 => Some(ServerRejectReason::NotSupMedia),
            1423 => Some(ServerRejectReason::Locked),
            1424 => Some(ServerRejectReason::FailedDepend),
            1500 => Some(ServerRejectReason::InternalServerError),
            1501 => Some(ServerRejectReason::Unimplemented),
            1502 => Some(ServerRejectReason::Gateway),
            1503 => Some(ServerRejectReason::Down),
            1505 => Some(ServerRejectReason::Version),
            1507 => Some(ServerRejectReason::NoRoom),
            _ => None,
        }
    }
}

impl RejectReason {
    /// The wire code of this reason. Unrecognized and user reasons carry
    /// their code as it is.
    pub open spec fn spec_code(self) -> i32 {
        match self {
            RejectReason::Core(c) => c.spec_code(),
            RejectReason::CoreUnrecognized(c) => c,
            RejectReason::Server(s) => s.spec_code(),
            RejectReason::ServerUnrecognized(c) => c,
            RejectReason::User(c) => c,
        }
    }

    /// The reason a wire code stands for: below the handler range a core
    /// reason, below the user range a handler reason, else a user reason;
    /// a code with no defined reason in its range is kept as unrecognized.
    pub open spec fn spec_from_code(code: i32) -> RejectReason {
        if code < REJECT_SERVER_BASE {
            match CoreRejectReason::spec_from_code(code) {
                Some(c) => RejectReason::Core(c),
                None => RejectReason::CoreUnrecognized(code),
            }
        } else if code < REJECT_USER_BASE {
            match ServerRejectReason::spec_from_code(code) {
                Some(s) => RejectReason::Server(s),
                None => RejectReason::ServerUnrecognized(code),
            }
        } else {
            RejectReason::User(code)
        }
    }

    /// The reason is one a wire code can stand for: an unrecognized code is
    /// in its range and has no defined reason, a user code is in the user
    /// range.
    pub open spec fn wf(self) -> bool {
        match self {
            RejectReason::Core(_) => true,
            RejectReason::CoreUnrecognized(c) => c < REJECT_SERVER_BASE
                && CoreRejectReason::spec_from_code(c) is None,
            RejectReason::Server(_) => true,
            RejectReason::ServerUnrecognized(c) => REJECT_SERVER_BASE <= c < REJECT_USER_BASE
                && ServerRejectReason::spec_from_code(c) is None,
            RejectReason::User(c) => c >= REJECT_USER_BASE,
        }
    }

    /// The wire code of this reason.
    pub fn code(&self) -> (r: i32)
        ensures
            r == self.spec_code(),
    {
        match self {
            RejectReason::Core(c) => match c {
                CoreRejectReason::System => 1,
                CoreRejectReason::Peer => 2,
                CoreRejectReason::Resource => 3,
                CoreRejectReason::Rogue => 4,
                CoreRejectReason::Backlog => 5,
                CoreRejectReason::Ipe => 6,
                CoreRejectReason::Close => 7,
                CoreRejectReason::Version => 8,
                CoreRejectReason::RdvCookie => 9,
                CoreRejectReason::BadSecret => 10,
                CoreRejectReason::Unsecure => 11,
                CoreRejectReason::MessageApi => 12,
                CoreRejectReason::Congestion => 13,
                CoreRejectReason::Filter => 14,
                CoreRejectReason::Group => 15,
                CoreRejectReason::Timeout => 16,
            },
            RejectReason::CoreUnrecognized(c) => *c,
            RejectReason::Server(s) => match s {
                ServerRejectReason::Fallback => 1000,
                ServerRejectReason::KeyNotSup => 1001,
                ServerRejectReason::Filepath => 1002,
                ServerRejectReason::HostNotFound => 1003,
                ServerRejectReason::BadRequest => 1400,
                ServerRejectReason::Unauthorized => 1401,
                ServerRejectReason::Overload => 1402,
                ServerRejectReason::Forbidden => 1403,
                ServerRejectReason::Notfound => 1404,
                ServerRejectReason::BadMode => 1405,
                ServerRejectReason::Unacceptable => 1406,
                ServerRejectReason::Conflict => 1409,
                ServerRejectReason::NotSupMedia => 1415,
                ServerRejectReason::Locked => 1423,
                ServerRejectReason::FailedDepend => 1424,
                ServerRejectReason::InternalServerError => 1500,
                ServerRejectReason::Unimplemented => 1501,
                ServerRejectReason::Gateway => 1502,
                ServerRejectReason::Down => 1503,
                ServerRejectReason::Version => 1505,
                ServerRejectReason::NoRoom => 1507,
            },
            RejectReason::ServerUnrecognized(c) => *c,
            RejectReason::User(c) => *c,
        }
    }

    /// The reason a wire code stands for.
    pub fn from_code(code: i32) -> (r: RejectReason)
        ensures
            r == RejectReason::spec_from_code(code),
            r.wf(),
    {
        if code < REJECT_SERVER_BASE {
            match code {
                1 => RejectReason::Core(CoreRejectReason::System),
                2 => RejectReason::Core(CoreRejectReason::Peer),
                3 => RejectReason::Core(CoreRejectReason::Resource),
                4 => RejectReason::Core(CoreRejectReason::Rogue),
                5 => RejectReason::Core(CoreRejectReason::Backlog),
                6 => RejectReason::Core(CoreRejectReason::Ipe),
                7 => RejectReason::Core(CoreRejectReason::Close),
                8 => RejectReason::Core(CoreRejectReason::Version),
                9 => RejectReason::Core(CoreRejectReason::RdvCookie),
                10 => RejectReason::Core(CoreRejectReason::BadSecret),
                11 => RejectReason::Core(CoreRejectReason::Unsecure),
                12 => RejectReason::Core(CoreRejectReason::MessageApi),
                13 => RejectReason::Core(CoreRejectReason::Congestion),
                14 => RejectReason::Core(CoreRejectReason::Filter),
                15 => RejectReason::Core(CoreRejectReason::Group),
                16 => RejectReason::Core(CoreRejectReason::Timeout),
                _ => RejectReason::CoreUnrecognized(code),
            }
        } else if code < REJECT_USER_BASE {
            match code {
                1000 => RejectReason::Server(ServerRejectReason::Fallback),
                1001 => RejectReason::Server(ServerRejectReason::KeyNotSup),
                1002 => RejectReason::Server(ServerRejectReason::Filepath),
                1003 => RejectReason::Server(ServerRejectReason::HostNotFound),
                1400 => RejectReason::Server(ServerRejectReason::BadRequest),
                1401 => RejectReason::Server(ServerRejectReason::Unauthorized),
                1402 => RejectReason::Server(ServerRejectReason::Overload),
                1403 => RejectReason::Server(ServerRejectReason::Forbidden),
                1404 => RejectReason::Server(ServerRejectReason::Notfound),
                1405 => RejectReason::Server(ServerRejectReason::BadMode),
                1406 => RejectReason::Server(ServerRejectReason::Unacceptable),
                1409 => RejectReason::Server(ServerRejectReason::Conflict),
                1415 => RejectReason::Server(ServerRejectReason::NotSupMedia),
                1423 => RejectReason::Server(ServerRejectReason::Locked),
                1424 => RejectReason::Server(ServerRejectReason::FailedDepend),
                1500 => RejectReason::Server(ServerRejectReason::InternalServerError),
                1501 => RejectReason::Server(ServerRejectReason::Unimplemented),
                1502 => RejectReason::Server(ServerRejectReason::Gateway),
                1503 => RejectReason::Server(ServerRejectReason::Down),
                1505 => RejectReason::Server(ServerRejectReason::Version),
                1507 => RejectReason::Server(ServerRejectReason::NoRoom),
                _ => RejectReason::ServerUnrecognized(code),
            }
        } else {
            RejectReason::User(code)
        }
    }
}

/// Reading back the wire code of a reason gives the same reason.
pub proof fn lemma_reject_code_round_trip(r: RejectReason)
    requires
        r.wf(),
    ensures
        RejectReason::spec_from_code(r.spec_code()) == r,
{
}

/// The wire code of the reason read from a code is that code.
pub proof fn lemma_reject_code_read_back(code: i32)
    ensures
        RejectReason::spec_from_code(code).spec_code() == code,
{
}

} // verus!
