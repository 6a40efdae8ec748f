//! The socket abstraction and session establishment decisions.
//!
//! A session is planned from an immutable configuration: the plan says what
//! the transport layer must do (connect, listen once, bind a wildcard), and
//! the outcome of that single attempt is classified into the session's
//! verdict. The unsupported Unix-domain datagram mode is refused here,
//! before any socket exists.

use vstd::prelude::*;

use crate::addr::Endpoint;
use crate::addr::FamilyPreference;
use crate::addr::spec_udp_client_bind;
use crate::addr::udp_client_bind_endpoint;
use crate::error::SessionError;

verus! {

/// The transports a session can be asked to run over.
#[derive(Clone, Copy, Debug, PartialEq, Eq, Structural)]
pub enum Transport {
    Tcp,
    Udp,
    UnixStreamSocket,
    UnixDatagramSocket,
}

/// Whether this invocation connects out or listens for exactly one peer.
#[derive(Clone, Copy, Debug, PartialEq, Eq, Structural)]
pub enum Role {
    Connect,
    Listen,
}

/// The immutable per-invocation configuration, established once at startup
/// and passed explicitly to every stage.
#[derive(Clone, Copy, Debug, PartialEq, Eq)]
pub struct Config {
    pub transport: Transport,
    pub role: Role,
    pub preference: FamilyPreference,
    /// Bound in seconds on a TCP connect; `None` leaves the platform's
    /// default behaviour.
    pub connect_timeout_secs: Option<u64>,
}

/// What the transport layer is told to do to establish the session. Each
/// plan stands for a single attempt; nothing is retried.
#[derive(Clone, Copy, Debug, PartialEq, Eq)]
pub enum ConnectPlan {
    /// Resolve the target, then connect; bounded by the timeout when one is
    /// set, with the platform default otherwise.
    TcpConnect { timeout_secs: Option<u64> },
    /// Bind, listen, and accept exactly one peer.
    TcpListen,
    /// Bind the given local wildcard endpoint, resolve the target, and pin
    /// it as the peer; no handshake occurs.
    UdpConnect { local: Endpoint },
    /// Bind, then learn the peer from the first inbound datagram.
    UdpListen,
    /// Connect to the given filesystem path.
    UnixConnect,
    /// Bind the path, listen, and accept exactly one peer.
    UnixListen,
}

/// The plan a configuration maps to, or the error refusing it.
pub open spec fn spec_plan(config: Config) -> Result<ConnectPlan, SessionError> {
    match config.transport {
        Transport::UnixDatagramSocket => Err(SessionError::Unsupported),
        Transport::Tcp => match config.role {
            Role::Connect => Ok(
                ConnectPlan::TcpConnect { timeout_secs: config.connect_timeout_secs },
            ),
            Role::Listen => Ok(ConnectPlan::TcpListen),
        },
        Transport::Udp => match config.role {
            Role::Connect => Ok(
                ConnectPlan::UdpConnect { local: spec_udp_client_bind(config.preference) },
            ),
            Role::Listen => Ok(ConnectPlan::UdpListen),
        },
        Transport::UnixStreamSocket => match config.role {
            Role::Connect => Ok(ConnectPlan::UnixConnect),
            Role::Listen => Ok(ConnectPlan::UnixListen),
        },
    }
}

/// Decide how the session is established. Pure: requesting the unsupported
/// Unix-domain datagram mode fails here, before any socket is created, and
/// it is the only configuration refused.
pub fn plan_session(config: &Config) -> (r: Result<ConnectPlan, SessionError>)
    ensures
        r == spec_plan(*config),
        config.transport is UnixDatagramSocket <==> r == Err::<ConnectPlan, SessionError>(
            SessionError::Unsupported,
        ),
        config.transport is UnixDatagramSocket <==> r is Err,
{
    match config.transport {
        Transport::UnixDatagramSocket => Err(SessionError::Unsupported),
        Transport::Tcp => match config.role {
            Role::Connect => Ok(
                ConnectPlan::TcpConnect { timeout_secs: config.connect_timeout_secs },
            ),
            Role::Listen => Ok(ConnectPlan::TcpListen),
        },
        Transport::Udp => match config.role {
            Role::Connect => Ok(
                ConnectPlan::UdpConnect { local: udp_client_bind_endpoint(config.preference) },
            ),
            Role::Listen => Ok(ConnectPlan::UdpListen),
        },
        Transport::UnixStreamSocket => match config.role {
            Role::Connect => Ok(ConnectPlan::UnixConnect),
            Role::Listen => Ok(ConnectPlan::UnixListen),
        },
    }
}

/// What a single transport-level establishment attempt was observed to do.
#[derive(Clone, Copy, Debug, PartialEq, Eq, Structural)]
pub enum ConnectOutcome {
    /// The connect or accept handed back a usable stream.
    Connected,
    /// A bounded TCP connect exceeded its configured bound.
    TimedOut,
    /// The transport refused: connection refused, unreachable, missing
    /// path, or a failed accept.
    Refused,
}

/// Classify the single establishment attempt: success exactly when a stream
/// came back, a timeout is reported as such, and every other failure is a
/// connect error. Nothing is retried.
pub fn classify_connect(outcome: ConnectOutcome) -> (r: Result<(), SessionError>)
    ensures
        outcome is Connected <==> r is Ok,
        outcome is TimedOut ==> r == Err::<(), SessionError>(SessionError::Timeout),
        outcome is Refused ==> r == Err::<(), SessionError>(SessionError::Connect),
{
    match outcome {
        ConnectOutcome::Connected => Ok(()),
        ConnectOutcome::TimedOut => Err(SessionError::Timeout),
        ConnectOutcome::Refused => Err(SessionError::Connect),
    }
}

/// A UDP pseudo-connection: UDP has no protocol-level connection, so a
/// bound local socket together with one recorded peer stands for the
/// session. Every send targets `peer`; the peer is pinned at establishment
/// and never changes.
#[derive(Clone, Copy, Debug, PartialEq, Eq, Structural)]
pub struct UdpConnection {
    pub peer: Endpoint,
}

impl UdpConnection {
    /// Record the peer the session is pinned to.
    pub fn new(peer: Endpoint) -> (c: UdpConnection)
        ensures
            c.peer == peer,
    {
        UdpConnection { peer }
    }
}

/// The session's socket, one closed set of variants driven uniformly by the
/// duplex pipe. Each live value stands for exactly one session with at most
/// one peer.
#[derive(Clone, Copy, Debug, PartialEq, Eq, Structural)]
pub enum Socket {
    /// An established TCP stream and its connected peer.
    TCP { peer: Endpoint },
    /// A UDP pseudo-connection.
    UDP { conn: UdpConnection },
    /// An established Unix-domain stream; peer identity is best-effort and
    /// may be absent, so none is recorded.
    UnixSocketStream,
    /// Reserved for a future transport; establishment never produces it.
    UnixSocketDatagram,
}

impl Socket {
    /// Whether establishment can produce this socket: the Unix-domain
    /// datagram variant only reserves the shape of the abstraction.
    pub open spec fn usable(self) -> bool {
        !(self is UnixSocketDatagram)
    }

    /// Whether a 0-byte read means the peer closed its write side. True for
    /// the stream transports; UDP has no end-of-stream signal, a 0-byte
    /// receive there is a legal empty datagram.
    pub open spec fn spec_eof_on_empty_read(self) -> bool {
        self is TCP || self is UnixSocketStream
    }

    /// Whether a 0-byte read on this socket signals end-of-stream.
    pub fn eof_on_empty_read(&self) -> (b: bool)
        ensures
            b == self.spec_eof_on_empty_read(),
    {
        match self {
            Socket::TCP { .. } => true,
            Socket::UnixSocketStream => true,
            Socket::UDP { .. } => false,
            Socket::UnixSocketDatagram => false,
        }
    }

    /// The peer's identity for diagnostics, where one is meaningful.
    pub fn peer_endpoint(&self) -> (r: Option<Endpoint>)
        ensures
            self matches Socket::TCP { peer } ==> r == Some(*peer),
            self matches Socket::UDP { conn } ==> r == Some(conn.peer),
            self is UnixSocketStream ==> r is None,
            self is UnixSocketDatagram ==> r is None,
    {
        match self {
            Socket::TCP { peer } => Some(*peer),
            Socket::UDP { conn } => Some(conn.peer),
            Socket::UnixSocketStream => None,
            Socket::UnixSocketDatagram => None,
        }
    }
}

/// Establish a UDP server session from the first inbound datagram: its
/// sender is pinned as the session's peer — first sender wins, for the
/// whole session — and its payload must be handed on to standard output
/// before the duplex loops start, so no byte of it is dropped.
pub fn establish_udp_server(first_sender: Endpoint, first_payload: Vec<u8>) -> (r: (
    Socket,
    Vec<u8>,
))
    ensures
        r.0 == (Socket::UDP { conn: UdpConnection { peer: first_sender } }),
        r.1@ == first_payload@,
{
    (Socket::UDP { conn: UdpConnection::new(first_sender) }, first_payload)
}

} // verus!
