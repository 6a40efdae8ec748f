//! Verified core of a netcat-style byte pipe.
//!
//! The crate models the decisions a bidirectional network pipe makes:
//! which resolved address to use under an address-family restriction,
//! how a session over TCP, UDP, or a Unix-domain stream is established,
//! and how the two copy loops (stdin to socket, socket to stdout) run and
//! terminate. The blocking I/O itself lives outside the library; callers
//! feed observed events in and perform the directives handed back.

pub mod addr;
pub mod error;
pub mod pipe;
pub mod session;
