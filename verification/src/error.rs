//! The errors of the client handle and of a session.

use vstd::prelude::*;

use crate::packet::ConnectReturnCode;

verus! {

/// Why a request on the client handle was turned down.
#[derive(Clone, Copy, Debug, PartialEq, Eq, Structural)]
pub enum ClientError {
    /// A subscription request named no topic.
    ZeroSubscriptions,
    /// The payload is longer than the configured maximum.
    PacketSizeLimitExceeded,
    /// The session side of the command channel is gone.
    ChannelClosed,
}

/// Why a session came to its end.
#[derive(Clone, Copy, Debug, PartialEq, Eq, Structural)]
pub enum ConnectError {
    /// The broker answered the connection request with a refusal.
    ConnectionRefused(ConnectReturnCode),
    /// No answer to the connection request arrived in time.
    HandshakeTimeout,
    /// Reading or writing the transport failed, or the peer closed it.
    Transport,
    /// A ping request stayed unanswered for a whole keep-alive interval.
    PingTimeout,
    /// The client handle asked the session to stop. Not a failure.
    Halt,
}

} // verus!
