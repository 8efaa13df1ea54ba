//! The control packets that the client and its session exchange, as plain
//! values, each with the mathematical model that the contracts speak of.
//!
//! Only the packets needed to connect, publish, subscribe and keep a session
//! alive are modelled. Turning them into bytes and back is the codec's work.

use vstd::prelude::*;

verus! {

/// Delivery guarantee of a publish or of a subscription.
#[derive(Clone, Copy, Debug, PartialEq, Eq, Structural)]
pub enum QoS {
    AtMostOnce,
    AtLeastOnce,
    ExactlyOnce,
}

/// Correlates a packet with its acknowledgement.
#[derive(Clone, Copy, Debug, PartialEq, Eq, Structural)]
pub struct PacketIdentifier(pub u16);

impl PacketIdentifier {
    /// The identifier that stands for "none assigned yet".
    pub fn zero() -> (pid: PacketIdentifier)
        ensures
            pid == PacketIdentifier(0),
    {
        PacketIdentifier(0)
    }
}

/// The broker's verdict on a connection request.
#[derive(Clone, Copy, Debug, PartialEq, Eq, Structural)]
pub enum ConnectReturnCode {
    Accepted,
    RefusedProtocolVersion,
    RefusedIdentifierRejected,
    ServerUnavailable,
    BadUsernamePassword,
    NotAuthorized,
}

/// The broker's verdict on one requested subscription.
#[derive(Clone, Copy, Debug, PartialEq, Eq, Structural)]
pub enum SubscribeReturnCodes {
    Success(QoS),
    Failure,
}

/// Connection request.
#[derive(Debug, PartialEq, Eq)]
pub struct Connect {
    /// Keep-alive interval in seconds.
    pub keep_alive: u16,
    pub client_id: String,
}

/// Model of a [`Connect`].
#[verifier::ext_equal]
pub struct ConnectView {
    pub keep_alive: u16,
    pub client_id: Seq<char>,
}

impl View for Connect {
    type V = ConnectView;

    open spec fn view(&self) -> ConnectView {
        ConnectView { keep_alive: self.keep_alive, client_id: self.client_id@ }
    }
}

impl Clone for Connect {
    fn clone(&self) -> (res: Self)
        ensures
            res@ == self@,
    {
        Connect { keep_alive: self.keep_alive, client_id: self.client_id.clone() }
    }
}

/// Answer to a connection request.
#[derive(Clone, Copy, Debug, PartialEq, Eq, Structural)]
pub struct Connack {
    pub session_present: bool,
    pub code: ConnectReturnCode,
}

/// An application message on its way to or from the broker.
#[derive(Debug, PartialEq, Eq)]
pub struct Publish {
    pub dup: bool,
    pub qos: QoS,
    pub retain: bool,
    pub topic_name: String,
    pub pid: Option<PacketIdentifier>,
    pub payload: Vec<u8>,
}

/// Model of a [`Publish`].
#[verifier::ext_equal]
pub struct PublishView {
    pub dup: bool,
    pub qos: QoS,
    pub retain: bool,
    pub topic_name: Seq<char>,
    pub pid: Option<PacketIdentifier>,
    pub payload: Seq<u8>,
}

impl View for Publish {
    type V = PublishView;

    open spec fn view(&self) -> PublishView {
        PublishView {
            dup: self.dup,
            qos: self.qos,
            retain: self.retain,
            topic_name: self.topic_name@,
            pid: self.pid,
            payload: self.payload@,
        }
    }
}

impl Clone for Publish {
    fn clone(&self) -> (res: Self)
        ensures
            res@ == self@,
    {
        Publish {
            dup: self.dup,
            qos: self.qos,
            retain: self.retain,
            topic_name: self.topic_name.clone(),
            pid: self.pid,
            payload: self.payload.clone(),
        }
    }
}

/// One requested subscription: a topic filter and the guarantee asked for.
#[derive(Debug, PartialEq, Eq)]
pub struct SubscribeTopic {
    pub topic_path: String,
    pub qos: QoS,
}

/// Model of a [`SubscribeTopic`].
#[verifier::ext_equal]
pub struct SubscribeTopicView {
    pub topic_path: Seq<char>,
    pub qos: QoS,
}

impl View for SubscribeTopic {
    type V = SubscribeTopicView;

    open spec fn view(&self) -> SubscribeTopicView {
        SubscribeTopicView { topic_path: self.topic_path@, qos: self.qos }
    }
}

impl Clone for SubscribeTopic {
    fn clone(&self) -> (res: Self)
        ensures
            res@ == self@,
    {
        SubscribeTopic { topic_path: self.topic_path.clone(), qos: self.qos }
    }
}

/// The models of a list of requested subscriptions, in the same order.
pub open spec fn topics_view(topics: Seq<SubscribeTopic>) -> Seq<SubscribeTopicView> {
    Seq::new(topics.len(), |i: int| topics[i]@)
}

/// Copies a list of requested subscriptions.
pub fn clone_topics(topics: &Vec<SubscribeTopic>) -> (res: Vec<SubscribeTopic>)
    ensures
        topics_view(res@) == topics_view(topics@),
{
    let mut res: Vec<SubscribeTopic> = Vec::new();
    let mut i: usize = 0;
    while i < topics.len()
        invariant
            i <= topics.len(),
            res@.len() == i,
            forall|j: int| 0 <= j < i ==> res@[j]@ == topics@[j]@,
        decreases topics.len() - i,
    {
        res.push(topics[i].clone());
        i += 1;
    }
    res
}

/// Subscription request. One packet carries every filter of one request.
#[derive(Debug, PartialEq, Eq)]
pub struct Subscribe {
    pub pid: PacketIdentifier,
    pub topics: Vec<SubscribeTopic>,
}

/// Model of a [`Subscribe`].
#[verifier::ext_equal]
pub struct SubscribeView {
    pub pid: PacketIdentifier,
    pub topics: Seq<SubscribeTopicView>,
}

impl View for Subscribe {
    type V = SubscribeView;

    open spec fn view(&self) -> SubscribeView {
        SubscribeView { pid: self.pid, topics: topics_view(self.topics@) }
    }
}

impl Clone for Subscribe {
    fn clone(&self) -> (res: Self)
        ensures
            res@ == self@,
    {
        Subscribe { pid: self.pid, topics: clone_topics(&self.topics) }
    }
}

/// Acknowledgement of a subscription request.
#[derive(Debug, PartialEq, Eq)]
pub struct Suback {
    pub pid: PacketIdentifier,
    pub return_codes: Vec<SubscribeReturnCodes>,
}

/// Model of a [`Suback`].
#[verifier::ext_equal]
pub struct SubackView {
    pub pid: PacketIdentifier,
    pub return_codes: Seq<SubscribeReturnCodes>,
}

impl View for Suback {
    type V = SubackView;

    open spec fn view(&self) -> SubackView {
        SubackView { pid: self.pid, return_codes: self.return_codes@ }
    }
}

impl Clone for Suback {
    fn clone(&self) -> (res: Self)
        ensures
            res@ == self@,
    {
        Suback { pid: self.pid, return_codes: self.return_codes.clone() }
    }
}

/// A control packet.
#[derive(Debug, PartialEq, Eq)]
pub enum Packet {
    Connect(Connect),
    Connack(Connack),
    Publish(Publish),
    Puback(PacketIdentifier),
    Subscribe(Subscribe),
    Suback(Suback),
    Pingreq,
    Pingresp,
    Disconnect,
}

/// Model of a [`Packet`].
#[verifier::ext_equal]
pub enum PacketView {
    Connect(ConnectView),
    Connack(Connack),
    Publish(PublishView),
    Puback(PacketIdentifier),
    Subscribe(SubscribeView),
    Suback(SubackView),
    Pingreq,
    Pingresp,
    Disconnect,
}

impl View for Packet {
    type V = PacketView;

    open spec fn view(&self) -> PacketView {
        match self {
            Packet::Connect(c) => PacketView::Connect(c@),
            Packet::Connack(c) => PacketView::Connack(*c),
            Packet::Publish(p) => PacketView::Publish(p@),
            Packet::Puback(pid) => PacketView::Puback(*pid),
            Packet::Subscribe(s) => PacketView::Subscribe(s@),
            Packet::Suback(s) => PacketView::Suback(s@),
            Packet::Pingreq => PacketView::Pingreq,
            Packet::Pingresp => PacketView::Pingresp,
            Packet::Disconnect => PacketView::Disconnect,
        }
    }
}

impl Clone for Packet {
    fn clone(&self) -> (res: Self)
        ensures
            res@ == self@,
    {
        match self {
            Packet::Connect(c) => Packet::Connect(c.clone()),
            Packet::Connack(c) => Packet::Connack(*c),
            Packet::Publish(p) => Packet::Publish(p.clone()),
            Packet::Puback(pid) => Packet::Puback(*pid),
            Packet::Subscribe(s) => Packet::Subscribe(s.clone()),
            Packet::Suback(s) => Packet::Suback(s.clone()),
            Packet::Pingreq => Packet::Pingreq,
            Packet::Pingresp => Packet::Pingresp,
            Packet::Disconnect => Packet::Disconnect,
        }
    }
}

impl PacketView {
    /// Whether the broker owes an acknowledgement for this packet once it is
    /// sent: a publish above the lowest guarantee, and every subscription
    /// request.
    pub open spec fn needs_ack(self) -> bool {
        match self {
            PacketView::Publish(p) => p.qos != QoS::AtMostOnce,
            PacketView::Subscribe(_) => true,
            _ => false,
        }
    }

    /// This packet carrying `pid`. A packet without a place for an identifier
    /// is left as it is.
    pub open spec fn with_pid(self, pid: PacketIdentifier) -> PacketView {
        match self {
            PacketView::Publish(p) => PacketView::Publish(PublishView { pid: Some(pid), ..p }),
            PacketView::Subscribe(s) => PacketView::Subscribe(SubscribeView { pid: pid, ..s }),
            PacketView::Puback(_) => PacketView::Puback(pid),
            PacketView::Suback(s) => PacketView::Suback(SubackView { pid: pid, ..s }),
            _ => self,
        }
    }

    /// This packet with its identifier blanked: absent on a publish, zero
    /// elsewhere. Two packets that differ only in their identifier have the
    /// same blank form.
    pub open spec fn without_pid(self) -> PacketView {
        match self {
            PacketView::Publish(p) => PacketView::Publish(PublishView { pid: None, ..p }),
            _ => self.with_pid(PacketIdentifier(0)),
        }
    }

    /// The identifier that an acknowledgement refers to; `None` for a packet
    /// that acknowledges nothing.
    pub open spec fn acked_pid(self) -> Option<PacketIdentifier> {
        match self {
            PacketView::Puback(pid) => Some(pid),
            PacketView::Suback(s) => Some(s.pid),
            _ => None,
        }
    }
}

impl Packet {
    /// Whether the broker owes an acknowledgement for this packet.
    pub fn needs_ack(&self) -> (b: bool)
        ensures
            b == self@.needs_ack(),
    {
        match self {
            Packet::Publish(p) => match p.qos {
                QoS::AtMostOnce => false,
                _ => true,
            },
            Packet::Subscribe(_) => true,
            _ => false,
        }
    }

    /// Puts `pid` into the packet.
    pub fn with_pid(self, pid: PacketIdentifier) -> (res: Packet)
        ensures
            res@ == self@.with_pid(pid),
    {
        match self {
            Packet::Publish(p) => Packet::Publish(
                Publish {
                    dup: p.dup,
                    qos: p.qos,
                    retain: p.retain,
                    topic_name: p.topic_name,
                    pid: Some(pid),
                    payload: p.payload,
                },
            ),
            Packet::Subscribe(s) => Packet::Subscribe(Subscribe { pid: pid, topics: s.topics }),
            Packet::Puback(_) => Packet::Puback(pid),
            Packet::Suback(s) => Packet::Suback(Suback { pid: pid, return_codes: s.return_codes }),
            other => other,
        }
    }

    /// The identifier that this packet acknowledges, if it is an
    /// acknowledgement.
    pub fn acked_pid(&self) -> (res: Option<PacketIdentifier>)
        ensures
            res == self@.acked_pid(),
    {
        match self {
            Packet::Puback(pid) => Some(*pid),
            Packet::Suback(s) => Some(s.pid),
            _ => None,
        }
    }
}

/// Model of the publish that [`gen_publish_packet`] builds.
pub open spec fn publish_packet(
    topic: Seq<char>,
    qos: QoS,
    pid: Option<PacketIdentifier>,
    retain: bool,
    dup: bool,
    payload: Seq<u8>,
) -> PublishView {
    PublishView { dup, qos, retain, topic_name: topic, pid, payload }
}

/// Builds a publish from its parts.
pub fn gen_publish_packet(
    topic: String,
    qos: QoS,
    pid: Option<PacketIdentifier>,
    retain: bool,
    dup: bool,
    payload: Vec<u8>,
) -> (publish: Publish)
    ensures
        publish@ == publish_packet(topic@, qos, pid, retain, dup, payload@),
{
    Publish { dup, qos, retain, topic_name: topic, pid, payload }
}

} // verus!
