//! The client handle and what it shares with the background session: the
//! commands that travel from the one to the other.

pub mod order;
pub mod reconnect;
pub mod state;

use vstd::prelude::*;

use futures::Future;
use futures::Sink;

use crate::client::reconnect::{Supervisor, DEFAULT_SLEEP_SECS};
use crate::error::ClientError;
use crate::options::MqttOptions;
use crate::packet::{
    gen_publish_packet, publish_packet, Packet, PacketIdentifier, PacketView, QoS, Subscribe,
    SubscribeTopic, SubscribeTopicView, SubscribeView,
};

verus! {

/// A tag that the caller may attach to a publish, to recognise its
/// acknowledgement by.
pub type UserData = Option<String>;

/// What the session hands to the application: a packet that came in, and the
/// tag of the request that it answers, if that request had one.
pub type Notification = (Packet, UserData);

/// Model of a [`UserData`].
pub open spec fn userdata_view(userdata: UserData) -> Option<Seq<char>> {
    match userdata {
        Some(tag) => Some(tag@),
        None => None,
    }
}

/// Number of slots that the command channel is created with.
pub const COMMAND_QUEUE_SIZE: usize = 10;

/// Number of notifications that the notification channel holds.
pub const NOTIFICATION_QUEUE_SIZE: usize = 50;

/// How many connections have succeeded so far in the lifetime of a client.
#[derive(Debug, Copy, Clone, Eq, PartialEq, Structural)]
pub enum ConnectCount {
    /// None yet.
    InitialConnect,
    /// This many.
    ConnectedBefore(u32),
}

/// What the client handle asks of the session.
#[derive(Debug, PartialEq, Eq)]
pub enum Command {
    /// Send this packet. The tag comes back with its acknowledgement.
    Mqtt((Packet, UserData)),
    /// Disconnect and stop for good.
    Halt,
}

/// Model of a [`Command`].
#[verifier::ext_equal]
pub enum CommandView {
    Mqtt(PacketView, Option<Seq<char>>),
    Halt,
}

impl View for Command {
    type V = CommandView;

    open spec fn view(&self) -> CommandView {
        match self {
            Command::Mqtt((packet, userdata)) => CommandView::Mqtt(packet@, userdata_view(*userdata)),
            Command::Halt => CommandView::Halt,
        }
    }
}

impl Clone for Command {
    fn clone(&self) -> (res: Self)
        ensures
            res@ == self@,
    {
        match self {
            Command::Mqtt((packet, userdata)) => {
                let tag = match userdata {
                    Some(t) => Some(t.clone()),
                    None => None,
                };
                Command::Mqtt((packet.clone(), tag))
            },
            Command::Halt => Command::Halt,
        }
    }
}

/// Makes `futures::sync::mpsc::Sender`, the sending end of the command
/// channel, known as a type of which nothing is seen inside.
#[verifier::external_type_specification]
#[verifier::external_body]
#[verifier::reject_recursive_types(T)]
pub struct ExSender<T>(futures::sync::mpsc::Sender<T>);

/// Makes `futures::sync::mpsc::Receiver`, the receiving end of the command
/// channel, known as a type of which nothing is seen inside.
#[verifier::external_type_specification]
#[verifier::external_body]
#[verifier::reject_recursive_types(T)]
pub struct ExReceiver<T>(futures::sync::mpsc::Receiver<T>);

/// Makes `futures::sync::mpsc::SendError`, the error of a send whose
/// receiving end is gone, known as a type of which nothing is seen inside.
#[verifier::external_type_specification]
#[verifier::external_body]
#[verifier::reject_recursive_types(T)]
pub struct ExSendError<T>(futures::sync::mpsc::SendError<T>);

/// Makes `crossbeam_channel::Sender`, the sending end of the notification
/// channel, known as a type of which nothing is seen inside.
#[verifier::external_type_specification]
#[verifier::external_body]
#[verifier::reject_recursive_types(T)]
pub struct ExNotificationSender<T>(crossbeam_channel::Sender<T>);

/// Makes `crossbeam_channel::Receiver`, the receiving end of the
/// notification channel, known as a type of which nothing is seen inside.
#[verifier::external_type_specification]
#[verifier::external_body]
#[verifier::reject_recursive_types(T)]
pub struct ExNotificationReceiver<T>(crossbeam_channel::Receiver<T>);

/// The commands that the channel has taken from this sending end since the
/// channel was made, oldest first. The channel is a first-in first-out queue:
/// its receiving end yields them in this order.
pub uninterp spec fn accepted(tx: futures::sync::mpsc::Sender<Command>) -> Seq<CommandView>;

/// The buffer size that the channel behind this sending end was made with.
pub uninterp spec fn buffer_of(tx: futures::sync::mpsc::Sender<Command>) -> usize;

/// The capacity that the channel behind this receiving end reports.
pub uninterp spec fn capacity_of(rx: crossbeam_channel::Receiver<Notification>) -> Option<usize>;

/// Calls `futures::sync::mpsc::channel`. Trusted: the new channel has taken
/// nothing yet and keeps the buffer size that it was asked for. The outside
/// function panics on a buffer size of a quarter of the address space or
/// more, which `requires` leaves out.
#[verifier::external_body]
fn command_channel(buffer: usize) -> (ends: (
    futures::sync::mpsc::Sender<Command>,
    futures::sync::mpsc::Receiver<Command>,
))
    requires
        buffer < usize::MAX / 4,
    ensures
        accepted(ends.0) == Seq::<CommandView>::empty(),
        buffer_of(ends.0) == buffer,
{
    futures::sync::mpsc::channel(buffer)
}

/// Calls `crossbeam_channel::bounded`. Trusted: the new channel reports the
/// capacity that it was asked for. The outside function lays out a slot for
/// each message at once and panics where that many do not fit into memory;
/// `requires` stays far below that.
#[verifier::external_body]
fn notification_channel(cap: usize) -> (ends: (
    crossbeam_channel::Sender<Notification>,
    crossbeam_channel::Receiver<Notification>,
))
    requires
        cap <= u16::MAX,
    ensures
        capacity_of(ends.1) == Some(cap),
{
    crossbeam_channel::bounded(cap)
}

/// Calls `Sink::send` on the sending end and blocks on the returned future
/// with `Future::wait`. While the channel is full the call waits for the
/// receiving end to make room. Trusted: on `Ok` the channel has taken the
/// command, behind all that it took before; on `Err` the receiving end is
/// gone and the channel has taken nothing. Which of the two happens is up
/// to the receiving end. Trusted too: the call does not unwind, which a
/// destructor that makes it has to promise.
#[verifier::external_body]
fn send_command(tx: &mut futures::sync::mpsc::Sender<Command>, cmd: Command) -> (sent: Result<
    (),
    futures::sync::mpsc::SendError<Command>,
>)
    ensures
        buffer_of(*final(tx)) == buffer_of(*old(tx)),
        sent is Ok ==> accepted(*final(tx)) == accepted(*old(tx)).push(cmd@),
        sent is Err ==> accepted(*final(tx)) == accepted(*old(tx)),
    opens_invariants none
    no_unwind
{
    match tx.send(cmd).wait() {
        Ok(_) => Ok(()),
        Err(e) => Err(e),
    }
}

/// What the client reports for the outcome of handing a command to the
/// channel: success as it is, a failure as [`ClientError::ChannelClosed`].
pub fn send_outcome(sent: Result<(), futures::sync::mpsc::SendError<Command>>) -> (r: Result<
    (),
    ClientError,
>)
    ensures
        r == (match sent {
            Ok(_) => Ok::<(), ClientError>(()),
            Err(_) => Err::<(), ClientError>(ClientError::ChannelClosed),
        }),
{
    match sent {
        Ok(_) => Ok(()),
        Err(_) => Err(ClientError::ChannelClosed),
    }
}

/// Model of the command that a publish request queues: a publish that is no
/// duplicate, is not retained and has no identifier yet, with the caller's
/// tag beside it.
pub open spec fn publish_command(
    topic: Seq<char>,
    qos: QoS,
    payload: Seq<u8>,
    userdata: Option<Seq<char>>,
) -> CommandView {
    CommandView::Mqtt(
        PacketView::Publish(publish_packet(topic, qos, None, false, false, payload)),
        userdata,
    )
}

/// Models of the requested subscriptions, in the order of the request.
pub open spec fn subscribe_topics(topics: Seq<(String, QoS)>) -> Seq<SubscribeTopicView> {
    Seq::new(
        topics.len(),
        |i: int| SubscribeTopicView { topic_path: topics[i].0@, qos: topics[i].1 },
    )
}

/// Model of the command that a subscription request queues: one subscribe
/// packet with every requested filter in the order given, the identifier
/// zero, and no tag.
pub open spec fn subscribe_command(topics: Seq<(String, QoS)>) -> CommandView {
    CommandView::Mqtt(
        PacketView::Subscribe(
            SubscribeView { pid: PacketIdentifier(0), topics: subscribe_topics(topics) },
        ),
        None,
    )
}

/// What the background side of a client owns: the configuration, the
/// receiving end of the command channel, the sending end of the notification
/// channel, and the supervisor's state.
pub struct Connection {
    pub opts: MqttOptions,
    pub commands_rx: futures::sync::mpsc::Receiver<Command>,
    pub notifier_tx: crossbeam_channel::Sender<Notification>,
    pub supervisor: Supervisor,
}

/// The handle through which an application publishes and subscribes. It
/// checks each request, builds the packet and queues it for the session.
/// Dropping the handle asks the session to halt.
pub struct MqttClient {
    nw_request_tx: futures::sync::mpsc::Sender<Command>,
    max_packet_size: usize,
}

impl MqttClient {
    /// The commands that this handle has queued so far, oldest first.
    pub closed spec fn enqueued(&self) -> Seq<CommandView> {
        accepted(self.nw_request_tx)
    }

    /// The longest payload that this handle lets through.
    pub closed spec fn size_limit(&self) -> usize {
        self.max_packet_size
    }

    /// The buffer size of the command channel.
    pub closed spec fn queue_size(&self) -> usize {
        buffer_of(self.nw_request_tx)
    }

    /// Makes the command channel and the notification channel, and from them
    /// a handle for the application, the end on which the application
    /// receives notifications, and what the background side is to run
    /// with. Nothing has been queued yet, and the supervisor starts with the
    /// configured policy and the default delay.
    pub fn start(opts: MqttOptions) -> (parts: (
        MqttClient,
        crossbeam_channel::Receiver<Notification>,
        Connection,
    ))
        ensures
            parts.0.size_limit() == opts.max_packet_size,
            parts.0.queue_size() == COMMAND_QUEUE_SIZE,
            parts.0.enqueued() == Seq::<CommandView>::empty(),
            capacity_of(parts.1) == Some(NOTIFICATION_QUEUE_SIZE),
            parts.2.opts == opts,
            parts.2.supervisor == (Supervisor {
                reconnect: opts.reconnect,
                sleep_duration: DEFAULT_SLEEP_SECS,
                connect_count: ConnectCount::InitialConnect,
            }),
    {
        let (commands_tx, commands_rx) = command_channel(COMMAND_QUEUE_SIZE);
        let (notifier_tx, notifier_rx) = notification_channel(NOTIFICATION_QUEUE_SIZE);
        let max_packet_size = opts.max_packet_size;
        let supervisor = Supervisor::new(opts.reconnect);
        let connection = Connection { opts, commands_rx, notifier_tx, supervisor };
        let client = MqttClient { nw_request_tx: commands_tx, max_packet_size };
        (client, notifier_rx, connection)
    }

    fn _publish(&mut self, topic: String, qos: QoS, payload: Vec<u8>, userdata: UserData) -> (r:
        Result<(), ClientError>)
        ensures
            final(self).size_limit() == old(self).size_limit(),
            final(self).queue_size() == old(self).queue_size(),
            payload@.len() > old(self).size_limit() ==> {
                &&& r == Err::<(), ClientError>(ClientError::PacketSizeLimitExceeded)
                &&& final(self).enqueued() == old(self).enqueued()
            },
            payload@.len() <= old(self).size_limit() ==> match r {
                Ok(_) => final(self).enqueued() == old(self).enqueued().push(
                    publish_command(topic@, qos, payload@, userdata_view(userdata)),
                ),
                Err(e) => e == ClientError::ChannelClosed && final(self).enqueued() == old(
                    self,
                ).enqueued(),
            },
    {
        let payload_len = payload.len();
        if payload_len > self.max_packet_size {
            return Err(ClientError::PacketSizeLimitExceeded);
        }
        let publish = gen_publish_packet(topic, qos, None, false, false, payload);
        let packet = Packet::Publish(publish);
        let sent = send_command(&mut self.nw_request_tx, Command::Mqtt((packet, userdata)));
        send_outcome(sent)
    }

    /// Queues a publish of `payload` on `topic` with the guarantee `qos`.
    ///
    /// A payload longer than the configured maximum is refused with
    /// `PacketSizeLimitExceeded` and nothing is queued. Otherwise exactly one
    /// command is queued, unless the session side of the channel is gone:
    /// then the result is `ChannelClosed` and nothing is queued.
    pub fn publish(&mut self, topic: String, qos: QoS, payload: Vec<u8>) -> (r: Result<
        (),
        ClientError,
    >)
        ensures
            final(self).size_limit() == old(self).size_limit(),
            final(self).queue_size() == old(self).queue_size(),
            payload@.len() > old(self).size_limit() ==> {
                &&& r == Err::<(), ClientError>(ClientError::PacketSizeLimitExceeded)
                &&& final(self).enqueued() == old(self).enqueued()
            },
            payload@.len() <= old(self).size_limit() ==> match r {
                Ok(_) => final(self).enqueued() == old(self).enqueued().push(
                    publish_command(topic@, qos, payload@, None),
                ),
                Err(e) => e == ClientError::ChannelClosed && final(self).enqueued() == old(
                    self,
                ).enqueued(),
            },
    {
        self._publish(topic, qos, payload, None)
    }

    /// As [`MqttClient::publish`], with a tag that comes back with the
    /// acknowledgement of this publish.
    pub fn publish_with_userdata(
        &mut self,
        topic: String,
        qos: QoS,
        payload: Vec<u8>,
        userdata: String,
    ) -> (r: Result<(), ClientError>)
        ensures
            final(self).size_limit() == old(self).size_limit(),
            final(self).queue_size() == old(self).queue_size(),
            payload@.len() > old(self).size_limit() ==> {
                &&& r == Err::<(), ClientError>(ClientError::PacketSizeLimitExceeded)
                &&& final(self).enqueued() == old(self).enqueued()
            },
            payload@.len() <= old(self).size_limit() ==> match r {
                Ok(_) => final(self).enqueued() == old(self).enqueued().push(
                    publish_command(topic@, qos, payload@, Some(userdata@)),
                ),
                Err(e) => e == ClientError::ChannelClosed && final(self).enqueued() == old(
                    self,
                ).enqueued(),
            },
    {
        self._publish(topic, qos, payload, Some(userdata))
    }

    /// Queues one subscription request for all of `topics`.
    ///
    /// An empty list is refused with `ZeroSubscriptions` and nothing is
    /// queued. Otherwise exactly one command is queued, which carries every
    /// filter in the order given, unless the session side of the channel is
    /// gone: then the result is `ChannelClosed` and nothing is queued.
    pub fn subscribe(&mut self, topics: Vec<(String, QoS)>) -> (r: Result<(), ClientError>)
        ensures
            final(self).size_limit() == old(self).size_limit(),
            final(self).queue_size() == old(self).queue_size(),
            topics@.len() == 0 ==> {
                &&& r == Err::<(), ClientError>(ClientError::ZeroSubscriptions)
                &&& final(self).enqueued() == old(self).enqueued()
            },
            topics@.len() > 0 ==> match r {
                Ok(_) => final(self).enqueued() == old(self).enqueued().push(
                    subscribe_command(topics@),
                ),
                Err(e) => e == ClientError::ChannelClosed && final(self).enqueued() == old(
                    self,
                ).enqueued(),
            },
    {
        if topics.len() == 0 {
            return Err(ClientError::ZeroSubscriptions);
        }
        let mut sub_topics: Vec<SubscribeTopic> = Vec::new();
        let mut i: usize = 0;
        while i < topics.len()
            invariant
                i <= topics.len(),
                sub_topics@.len() == i,
                forall|j: int|
                    0 <= j < i ==> (#[trigger] sub_topics@[j])@ == subscribe_topics(topics@)[j],
            decreases topics.len() - i,
        {
            let topic_path = topics[i].0.clone();
            sub_topics.push(SubscribeTopic { topic_path, qos: topics[i].1 });
            i += 1;
        }
        let subscribe = Subscribe { pid: PacketIdentifier::zero(), topics: sub_topics };
        assert(subscribe@.topics =~= subscribe_topics(topics@));
        let packet = Packet::Subscribe(subscribe);
        let sent = send_command(&mut self.nw_request_tx, Command::Mqtt((packet, None)));
        send_outcome(sent)
    }
}

impl Drop for MqttClient {
    /// Queues `Command::Halt`, so that the session stops without waiting
    /// for the transport to time out. A failure to queue it, as when the
    /// session is gone already, is ignored.
    fn drop(&mut self)
        ensures
            final(self).enqueued() == old(self).enqueued().push(CommandView::Halt)
                || final(self).enqueued() == old(self).enqueued(),
        opens_invariants none
        no_unwind
    {
        let this = self;
        let _ = send_command(&mut this.nw_request_tx, Command::Halt);
    }
}

} // verus!
