//! Core of an MQTT client: the handle that validates requests and queues them
//! for a background session, the rules by which a lost connection is retried,
//! and the bookkeeping of one session (packet identifiers, requests that
//! await their acknowledgement, keep-alive).
//!
//! Nothing here touches a socket. The session is a state machine: it is told
//! what happened and answers with what has to be written, forwarded or
//! ended. Whoever owns the transport performs those actions.

pub mod client;
pub mod error;
pub mod options;
pub mod packet;

pub use crate::client::{Command, ConnectCount, MqttClient, Notification, UserData};
pub use crate::error::{ClientError, ConnectError};
pub use crate::options::{MqttOptions, ReconnectOptions};
pub use crate::packet::{Packet, PacketIdentifier, QoS};
