//! The session's error kinds and their diagnostic messages.

use vstd::prelude::*;

verus! {

/// Why address resolution produced no endpoint.
#[derive(Clone, Copy, Debug, PartialEq, Eq, Structural)]
pub enum ResolutionFailure {
    /// The resolver returned no candidate at all.
    NoCandidates,
    /// Candidates existed, but none was an IPv4 address.
    NoMatchingV4,
    /// Candidates existed, but none was an IPv6 address.
    NoMatchingV6,
}

/// The one error a session run reports. A session makes a single attempt at
/// every stage: any failure aborts the invocation with the specific kind.
#[derive(Clone, Copy, Debug, PartialEq, Eq, Structural)]
pub enum SessionError {
    /// The address could not be resolved, or no candidate matched the
    /// requested address family.
    Resolution { failure: ResolutionFailure },
    /// Connect, listen, or accept failed at the transport level.
    Connect,
    /// A TCP connect exceeded its configured bound.
    Timeout,
    /// A read or write failed after the session was established.
    Io,
    /// Unix-domain datagram mode was requested; it is never served.
    Unsupported,
}

impl SessionError {
    /// The message a front end prints for this error.
    pub fn message(&self) -> (r: &'static str)
        ensures
            *self == (SessionError::Resolution {
                failure: ResolutionFailure::NoCandidates,
            }) ==> r@ == "could not resolve the address"@,
            *self == (SessionError::Resolution {
                failure: ResolutionFailure::NoMatchingV4,
            }) ==> r@ == "unable to resolve a valid IPv4 address"@,
            *self == (SessionError::Resolution {
                failure: ResolutionFailure::NoMatchingV6,
            }) ==> r@ == "unable to resolve a valid IPv6 address"@,
            *self is Connect ==> r@ == "connection failed"@,
            *self is Timeout ==> r@ == "connection timed out"@,
            *self is Io ==> r@ == "i/o error during the session"@,
            *self is Unsupported ==> r@ == "unix domain datagram sockets are not supported"@,
    {
        match self {
            SessionError::Resolution { failure: ResolutionFailure::NoCandidates } => {
                "could not resolve the address"
            },
            SessionError::Resolution { failure: ResolutionFailure::NoMatchingV4 } => {
                "unable to resolve a valid IPv4 address"
            },
            SessionError::Resolution { failure: ResolutionFailure::NoMatchingV6 } => {
                "unable to resolve a valid IPv6 address"
            },
            SessionError::Connect => "connection failed",
            SessionError::Timeout => "connection timed out",
            SessionError::Io => "i/o error during the session",
            SessionError::Unsupported => "unix domain datagram sockets are not supported",
        }
    }
}

} // verus!
