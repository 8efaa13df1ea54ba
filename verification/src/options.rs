//! What a client is configured with. Built once and only read afterwards.

use vstd::prelude::*;

verus! {

/// What to do when a session has ended in a failure.
#[derive(Clone, Copy, Debug, PartialEq, Eq, Structural)]
pub enum ReconnectOptions {
    /// Give up.
    Never,
    /// Try again after this many seconds, but only if a connection has been
    /// established at least once before. Otherwise give up.
    AfterFirstSuccess(u16),
    /// Try again after this many seconds, whatever happened before.
    Always(u16),
}

/// Configuration of a client.
#[derive(Debug, PartialEq, Eq)]
pub struct MqttOptions {
    /// Where the broker is reached, as the transport understands it.
    pub broker_addr: String,
    /// Name under which the client presents itself to the broker.
    pub client_id: String,
    /// Keep-alive interval in seconds.
    pub keep_alive: u16,
    /// Longest payload, in bytes, that a publish may carry.
    pub max_packet_size: usize,
    /// Reconnection policy.
    pub reconnect: ReconnectOptions,
    /// Certificate authority to check the broker against, where the
    /// transport is to be encrypted. The transport reads it, nothing else.
    pub ca: Option<String>,
}

/// Model of an [`MqttOptions`].
#[verifier::ext_equal]
pub struct MqttOptionsView {
    pub broker_addr: Seq<char>,
    pub client_id: Seq<char>,
    pub keep_alive: u16,
    pub max_packet_size: usize,
    pub reconnect: ReconnectOptions,
    pub ca: Option<Seq<char>>,
}

impl View for MqttOptions {
    type V = MqttOptionsView;

    open spec fn view(&self) -> MqttOptionsView {
        MqttOptionsView {
            broker_addr: self.broker_addr@,
            client_id: self.client_id@,
            keep_alive: self.keep_alive,
            max_packet_size: self.max_packet_size,
            reconnect: self.reconnect,
            ca: match self.ca {
                Some(path) => Some(path@),
                None => None,
            },
        }
    }
}

} // verus!
