//! The bookkeeping of one session: the handshake, the packet identifiers and
//! the requests that await their acknowledgement, and the keep-alive.
//!
//! A session owns no transport. It is told what happened (a command was taken
//! from the queue, a packet came in, a timer ran out, the transport failed)
//! and answers with the actions to perform, in order. The model of a session,
//! [`SessionView`], says for each event what the next state and the actions
//! are; [`Session`] computes exactly that.
//!
//! When a session ends, for whatever reason, every request that still awaits
//! its acknowledgement is discarded with it. Nothing is carried over to the
//! next session, which starts with no request outstanding and a fresh run of
//! identifiers.

use vstd::prelude::*;

use crate::client::{userdata_view, Command, CommandView, ConnectCount, Notification, UserData};
use crate::error::ConnectError;
use crate::options::MqttOptions;
use crate::packet::{
    Connect, ConnectReturnCode, ConnectView, Packet, PacketIdentifier, PacketView, QoS,
};

verus! {

/// Where a session stands.
#[derive(Clone, Copy, Debug, PartialEq, Eq, Structural)]
pub enum Status {
    /// The connection request is out and its answer is awaited.
    Handshake,
    /// The broker has accepted the connection.
    Active,
    /// The session has ended. Nothing moves it again.
    Over,
}

/// What the owner of the transport is to do.
#[derive(Debug, PartialEq, Eq)]
pub enum Action {
    /// Write this packet to the transport.
    Send(Packet),
    /// Hand this notification to the application.
    Notify(Notification),
    /// Close the transport and report the end of the session to the
    /// supervisor, with this error and this count of connections that have
    /// succeeded.
    Stop(ConnectError, ConnectCount),
}

/// Model of an [`Action`].
#[verifier::ext_equal]
pub enum ActionView {
    Send(PacketView),
    Notify(PacketView, Option<Seq<char>>),
    Stop(ConnectError, ConnectCount),
}

impl View for Action {
    type V = ActionView;

    open spec fn view(&self) -> ActionView {
        match self {
            Action::Send(packet) => ActionView::Send(packet@),
            Action::Notify((packet, userdata)) => ActionView::Notify(
                packet@,
                userdata_view(*userdata),
            ),
            Action::Stop(error, count) => ActionView::Stop(*error, *count),
        }
    }
}

/// The models of a list of actions, in the same order.
pub open spec fn actions_view(actions: Seq<Action>) -> Seq<ActionView> {
    Seq::new(actions.len(), |i: int| actions[i]@)
}

/// A request that awaits its acknowledgement.
#[derive(Debug, PartialEq, Eq)]
pub struct Outstanding {
    /// The identifier that the request was sent under.
    pub pid: PacketIdentifier,
    /// The packet as it was sent.
    pub packet: Packet,
    /// The tag that the caller attached.
    pub userdata: UserData,
}

/// Model of an [`Outstanding`].
#[verifier::ext_equal]
pub struct OutstandingView {
    pub pid: PacketIdentifier,
    pub packet: PacketView,
    pub userdata: Option<Seq<char>>,
}

impl View for Outstanding {
    type V = OutstandingView;

    open spec fn view(&self) -> OutstandingView {
        OutstandingView {
            pid: self.pid,
            packet: self.packet@,
            userdata: userdata_view(self.userdata),
        }
    }
}

/// The models of a list of outstanding requests, in the same order.
pub open spec fn outstanding_view(entries: Seq<Outstanding>) -> Seq<OutstandingView> {
    Seq::new(entries.len(), |i: int| entries[i]@)
}

/// Seconds that the broker is given to answer the connection request.
pub const HANDSHAKE_TIMEOUT_SECS: u64 = 10;

/// The count after one more connection has succeeded. It stays at the
/// largest number it can hold.
pub open spec fn one_more(count: ConnectCount) -> ConnectCount {
    match count {
        ConnectCount::InitialConnect => ConnectCount::ConnectedBefore(1),
        ConnectCount::ConnectedBefore(n) => ConnectCount::ConnectedBefore(
            if n == u32::MAX {
                n
            } else {
                (n + 1) as u32
            },
        ),
    }
}

/// The `k`-th identifier that is tried after `last` was issued: `last + 1`
/// for `k == 1`, and so on through 65535 and from there on to 1. For `k` from
/// 1 to 65535 these are all the identifiers there are, each once. Zero is
/// never among them.
pub open spec fn candidate(last: u16, k: int) -> u16 {
    (((last as int + k - 1) % 65535) + 1) as u16
}

/// Mathematical model of a session.
#[verifier::ext_equal]
pub struct SessionView {
    pub status: Status,
    /// Connections that have succeeded in the lifetime of the client, this
    /// session's own included once its handshake is done.
    pub connect_count: ConnectCount,
    /// The identifier issued last; zero before the first.
    pub last_pid: u16,
    /// The requests that await their acknowledgement, oldest first.
    pub outstanding: Seq<OutstandingView>,
    /// Whether a ping request is out and unanswered.
    pub await_pingresp: bool,
    /// Whether nothing but pings has been written since the keep-alive timer
    /// last ran out.
    pub quiet: bool,
    /// The keep-alive interval in seconds; zero for none.
    pub keep_alive: u16,
}

impl SessionView {
    /// Validity of a session: no identifier is held by two outstanding
    /// requests, none of them is zero, each outstanding packet carries the
    /// identifier it is listed under, only an active session has requests
    /// outstanding, and an active session has counted its own connection.
    pub open spec fn wf(self) -> bool {
        &&& forall|i: int, j: int|
            0 <= i < j < self.outstanding.len() ==> (#[trigger] self.outstanding[i]).pid != (
            #[trigger] self.outstanding[j]).pid
        &&& forall|i: int|
            0 <= i < self.outstanding.len() ==> {
                &&& (#[trigger] self.outstanding[i]).pid.0 != 0
                &&& self.outstanding[i].packet == self.outstanding[i].packet.with_pid(
                    self.outstanding[i].pid,
                )
            }
        &&& self.status != Status::Active ==> self.outstanding.len() == 0
        &&& self.status == Status::Active ==> self.connect_count != ConnectCount::InitialConnect
    }

    /// Whether an outstanding request holds `pid`.
    pub open spec fn in_use(self, pid: PacketIdentifier) -> bool {
        exists|i: int| 0 <= i < self.outstanding.len() && (#[trigger] self.outstanding[i]).pid == pid
    }

    /// Where the outstanding request that holds `pid` stands in the list.
    /// Meaningful only if `pid` is in use; in a valid session there is one
    /// such place.
    pub open spec fn index_of(self, pid: PacketIdentifier) -> int {
        choose|i: int| 0 <= i < self.outstanding.len() && (#[trigger] self.outstanding[i]).pid == pid
    }

    /// The tag of the outstanding request that holds `pid`; `None` if there
    /// is no such request or it has no tag.
    pub open spec fn tag_of(self, pid: PacketIdentifier) -> Option<Seq<char>> {
        if self.in_use(pid) {
            self.outstanding[self.index_of(pid)].userdata
        } else {
            None
        }
    }

    /// The session without the outstanding request that holds `pid`.
    pub open spec fn released(self, pid: PacketIdentifier) -> SessionView {
        if self.in_use(pid) {
            SessionView { outstanding: self.outstanding.remove(self.index_of(pid)), ..self }
        } else {
            self
        }
    }

    /// The first free identifier among the candidates from the `k`-th on.
    pub open spec fn scan(self, k: int) -> Option<u16>
        decreases 65536 - k,
    {
        if k < 1 || k > 65535 {
            None
        } else if !self.in_use(PacketIdentifier(candidate(self.last_pid, k))) {
            Some(candidate(self.last_pid, k))
        } else {
            self.scan(k + 1)
        }
    }

    /// The identifier that the next request is sent under: the first one
    /// after the identifier issued last, going round from 65535 to 1, that no
    /// outstanding request holds. `None` if every identifier is held.
    pub open spec fn next_pid(self) -> Option<u16> {
        self.scan(1)
    }

    /// A session that has just sent its connection request.
    pub open spec fn opened(connect_count: ConnectCount, keep_alive: u16) -> SessionView {
        SessionView {
            status: Status::Handshake,
            connect_count,
            last_pid: 0,
            outstanding: Seq::empty(),
            await_pingresp: false,
            quiet: true,
            keep_alive,
        }
    }

    /// The seconds after which the timer of the session runs out, counted
    /// from when it was last set: the time allowed for the handshake while
    /// that is going on, the keep-alive interval in an active session.
    /// `None` where no timer runs: in a session that is over, and in an
    /// active one whose keep-alive interval is zero.
    pub open spec fn timer(self) -> Option<u64> {
        match self.status {
            Status::Handshake => Some(HANDSHAKE_TIMEOUT_SECS),
            Status::Active => if self.keep_alive == 0 {
                None
            } else {
                Some(self.keep_alive as u64)
            },
            Status::Over => None,
        }
    }

    /// What it leads to that the timer has run out: during the handshake
    /// what [`SessionView::on_handshake_timeout`] says, afterwards what
    /// [`SessionView::on_keep_alive`] says.
    pub open spec fn on_timer(self) -> (SessionView, Seq<ActionView>) {
        if self.status == Status::Handshake {
            self.on_handshake_timeout()
        } else {
            self.on_keep_alive()
        }
    }

    /// The end of the session with the error `error`: it is over, what was
    /// outstanding is discarded, and the supervisor is told the error and
    /// the count of connections that have succeeded.
    pub open spec fn stopped(self, error: ConnectError) -> (SessionView, Seq<ActionView>) {
        (
            SessionView { status: Status::Over, outstanding: Seq::empty(), ..self },
            seq![ActionView::Stop(error, self.connect_count)],
        )
    }

    /// What a command taken from the queue leads to: the next state and the
    /// actions, or `None` if the session does not execute the command now.
    ///
    /// Only an active session executes commands. A halt is answered with a
    /// disconnect and the end of the session. A packet for which the broker
    /// owes an acknowledgement gets the next free identifier and is recorded
    /// as outstanding with its tag; while no identifier is free it is not
    /// executed. Any other packet is written as it is.
    pub open spec fn on_command(self, cmd: CommandView) -> Option<(SessionView, Seq<ActionView>)> {
        if self.status != Status::Active {
            None
        } else {
            match cmd {
                CommandView::Halt => Some(
                    (
                        self.stopped(ConnectError::Halt).0,
                        seq![ActionView::Send(PacketView::Disconnect)] + self.stopped(
                            ConnectError::Halt,
                        ).1,
                    ),
                ),
                CommandView::Mqtt(packet, userdata) => if packet.needs_ack() {
                    match self.next_pid() {
                        None => None,
                        Some(pid) => {
                            let sent = packet.with_pid(PacketIdentifier(pid));
                            let entry = OutstandingView {
                                pid: PacketIdentifier(pid),
                                packet: sent,
                                userdata,
                            };
                            Some(
                                (
                                    SessionView {
                                        last_pid: pid,
                                        outstanding: self.outstanding.push(entry),
                                        quiet: false,
                                        ..self
                                    },
                                    seq![ActionView::Send(sent)],
                                ),
                            )
                        },
                    }
                } else {
                    Some((SessionView { quiet: false, ..self }, seq![ActionView::Send(packet)]))
                },
            }
        }
    }

    /// What a packet from the broker leads to.
    ///
    /// During the handshake only the answer to the connection request
    /// counts: an acceptance makes the session active and adds one to the
    /// count of connections, a refusal ends the session. In an active
    /// session a publish is forwarded without a tag and, above the lowest
    /// guarantee, acknowledged under its identifier; an acknowledgement
    /// releases the outstanding request that holds its identifier and is
    /// forwarded with that request's tag; a ping response is noted and
    /// forwarded. Everything else is ignored, and so is every packet once the
    /// session is over.
    pub open spec fn on_packet(self, packet: PacketView) -> (SessionView, Seq<ActionView>) {
        match self.status {
            Status::Over => (self, Seq::empty()),
            Status::Handshake => match packet {
                PacketView::Connack(connack) => if connack.code == ConnectReturnCode::Accepted {
                    (
                        SessionView {
                            status: Status::Active,
                            connect_count: one_more(self.connect_count),
                            ..self
                        },
                        Seq::empty(),
                    )
                } else {
                    self.stopped(ConnectError::ConnectionRefused(connack.code))
                },
                _ => (self, Seq::empty()),
            },
            Status::Active => match packet {
                PacketView::Publish(publish) => match publish.pid {
                    Some(pid) if publish.qos != QoS::AtMostOnce => (
                        SessionView { quiet: false, ..self },
                        seq![
                            ActionView::Notify(packet, None),
                            ActionView::Send(PacketView::Puback(pid)),
                        ],
                    ),
                    _ => (self, seq![ActionView::Notify(packet, None)]),
                },
                PacketView::Puback(pid) => (
                    self.released(pid),
                    seq![ActionView::Notify(packet, self.tag_of(pid))],
                ),
                PacketView::Suback(suback) => (
                    self.released(suback.pid),
                    seq![ActionView::Notify(packet, self.tag_of(suback.pid))],
                ),
                PacketView::Pingresp => (
                    SessionView { await_pingresp: false, ..self },
                    seq![ActionView::Notify(packet, None)],
                ),
                _ => (self, Seq::empty()),
            },
        }
    }

    /// What the end of a keep-alive interval leads to in an active session:
    /// the end of the session if a ping request is still unanswered; a ping
    /// request if nothing else was written during the interval; else
    /// nothing but a fresh interval. Outside an active session, nothing.
    pub open spec fn on_keep_alive(self) -> (SessionView, Seq<ActionView>) {
        if self.status != Status::Active {
            (self, Seq::empty())
        } else if self.await_pingresp {
            self.stopped(ConnectError::PingTimeout)
        } else if self.quiet {
            (
                SessionView { await_pingresp: true, ..self },
                seq![ActionView::Send(PacketView::Pingreq)],
            )
        } else {
            (SessionView { quiet: true, ..self }, Seq::empty())
        }
    }

    /// What it leads to that the time allowed for the handshake has run out:
    /// the end of the session if the handshake is still going on, else
    /// nothing.
    pub open spec fn on_handshake_timeout(self) -> (SessionView, Seq<ActionView>) {
        if self.status == Status::Handshake {
            self.stopped(ConnectError::HandshakeTimeout)
        } else {
            (self, Seq::empty())
        }
    }

    /// What a failure of the transport leads to: the end of the session,
    /// unless it is over already.
    pub open spec fn on_transport_error(self) -> (SessionView, Seq<ActionView>) {
        if self.status == Status::Over {
            (self, Seq::empty())
        } else {
            self.stopped(ConnectError::Transport)
        }
    }
}

/// One session, from its connection request to its end.
pub struct Session {
    status: Status,
    connect_count: ConnectCount,
    last_pid: u16,
    outstanding: Vec<Outstanding>,
    await_pingresp: bool,
    quiet: bool,
    keep_alive: u16,
}

impl View for Session {
    type V = SessionView;

    closed spec fn view(&self) -> SessionView {
        SessionView {
            status: self.status,
            connect_count: self.connect_count,
            last_pid: self.last_pid,
            outstanding: outstanding_view(self.outstanding@),
            await_pingresp: self.await_pingresp,
            quiet: self.quiet,
            keep_alive: self.keep_alive,
        }
    }
}

impl Session {
    #[verifier::type_invariant]
    spec fn valid(self) -> bool {
        self@.wf()
    }

    /// Begins a session: gives the session in its handshake and the
    /// connection request to write, which names the configured client
    /// identifier and keep-alive interval. `connect_count` is the count of
    /// connections that have succeeded before this one.
    pub fn open(opts: &MqttOptions, connect_count: ConnectCount) -> (begun: (Session, Packet))
        ensures
            begun.0@ == SessionView::opened(connect_count, opts.keep_alive),
            begun.0@.wf(),
            begun.1@ == PacketView::Connect(
                ConnectView { keep_alive: opts.keep_alive, client_id: opts.client_id@ },
            ),
    {
        let session = Session {
            status: Status::Handshake,
            connect_count,
            last_pid: 0,
            outstanding: Vec::new(),
            await_pingresp: false,
            quiet: true,
            keep_alive: opts.keep_alive,
        };
        let connect = Connect { keep_alive: opts.keep_alive, client_id: opts.client_id.clone() };
        (session, Packet::Connect(connect))
    }

    /// Where the session stands.
    pub fn status(&self) -> (status: Status)
        ensures
            status == self@.status,
    {
        self.status
    }

    /// The count of connections that have succeeded, this one included once
    /// its handshake is done.
    pub fn connect_count(&self) -> (count: ConnectCount)
        ensures
            count == self@.connect_count,
    {
        self.connect_count
    }

    /// The seconds after which the timer of the session runs out, if one
    /// runs.
    pub fn timer(&self) -> (secs: Option<u64>)
        ensures
            secs == self@.timer(),
    {
        match self.status {
            Status::Handshake => Some(HANDSHAKE_TIMEOUT_SECS),
            Status::Active => if self.keep_alive == 0 {
                None
            } else {
                Some(self.keep_alive as u64)
            },
            Status::Over => None,
        }
    }

    /// How many requests await their acknowledgement.
    pub fn outstanding_len(&self) -> (n: usize)
        ensures
            n == self@.outstanding.len(),
    {
        self.outstanding.len()
    }

    /// Ends the session with `error` and gives the action that reports it.
    fn stop(&mut self, error: ConnectError) -> (action: Action)
        ensures
            final(self)@ == old(self)@.stopped(error).0,
            seq![action@] == old(self)@.stopped(error).1,
    {
        proof {
            use_type_invariant(&*self);
        }
        self.outstanding = Vec::new();
        self.status = Status::Over;
        Action::Stop(error, self.connect_count)
    }

    /// Reacts to the end of a keep-alive interval.
    pub fn on_keep_alive(&mut self) -> (actions: Vec<Action>)
        ensures
            final(self)@ == old(self)@.on_keep_alive().0,
            actions_view(actions@) == old(self)@.on_keep_alive().1,
            final(self)@.wf(),
    {
        proof {
            use_type_invariant(&*self);
        }
        let mut actions: Vec<Action> = Vec::new();
        match self.status {
            Status::Active => {
                if self.await_pingresp {
                    let action = self.stop(ConnectError::PingTimeout);
                    actions.push(action);
                } else if self.quiet {
                    self.await_pingresp = true;
                    actions.push(Action::Send(Packet::Pingreq));
                } else {
                    self.quiet = true;
                }
            },
            _ => {},
        }
        proof {
            use_type_invariant(&*self);
        }
        actions
    }

    /// Reacts to the time allowed for the handshake having run out.
    pub fn on_handshake_timeout(&mut self) -> (actions: Vec<Action>)
        ensures
            final(self)@ == old(self)@.on_handshake_timeout().0,
            actions_view(actions@) == old(self)@.on_handshake_timeout().1,
            final(self)@.wf(),
    {
        let mut actions: Vec<Action> = Vec::new();
        match self.status {
            Status::Handshake => {
                let action = self.stop(ConnectError::HandshakeTimeout);
                actions.push(action);
            },
            _ => {},
        }
        proof {
            use_type_invariant(&*self);
        }
        actions
    }

    /// Reacts to the timer having run out.
    pub fn on_timer(&mut self) -> (actions: Vec<Action>)
        ensures
            final(self)@ == old(self)@.on_timer().0,
            actions_view(actions@) == old(self)@.on_timer().1,
            final(self)@.wf(),
    {
        match self.status {
            Status::Handshake => self.on_handshake_timeout(),
            _ => self.on_keep_alive(),
        }
    }

    /// Reacts to a failure of the transport.
    pub fn on_transport_error(&mut self) -> (actions: Vec<Action>)
        ensures
            final(self)@ == old(self)@.on_transport_error().0,
            actions_view(actions@) == old(self)@.on_transport_error().1,
            final(self)@.wf(),
    {
        let mut actions: Vec<Action> = Vec::new();
        match self.status {
            Status::Over => {},
            _ => {
                let action = self.stop(ConnectError::Transport);
                actions.push(action);
            },
        }
        proof {
            use_type_invariant(&*self);
        }
        actions
    }

    /// Whether a request awaits its acknowledgement under `pid`.
    pub fn is_outstanding(&self, pid: PacketIdentifier) -> (held: bool)
        ensures
            held == self@.in_use(pid),
    {
        self.find(pid).is_some()
    }

    /// Where the outstanding request that holds `pid` stands, if there is
    /// one.
    fn find(&self, pid: PacketIdentifier) -> (found: Option<usize>)
        ensures
            match found {
                Some(i) => self@.in_use(pid) && i == self@.index_of(pid),
                None => !self@.in_use(pid),
            },
    {
        proof {
            use_type_invariant(self);
        }
        let mut i: usize = 0;
        while i < self.outstanding.len()
            invariant
                self@.wf(),
                i <= self.outstanding@.len(),
                forall|j: int| 0 <= j < i ==> (#[trigger] self@.outstanding[j]).pid != pid,
            decreases self.outstanding@.len() - i,
        {
            if self.outstanding[i].pid == pid {
                proof {
                    let j = self@.index_of(pid);
                    if i < j {
                        assert(self@.outstanding[i as int].pid != self@.outstanding[j].pid);
                    }
                }
                return Some(i);
            }
            i += 1;
        }
        None
    }

    /// Takes the outstanding request that holds `pid` off the list and gives
    /// its tag.
    fn release(&mut self, pid: PacketIdentifier) -> (tag: UserData)
        ensures
            final(self)@ == old(self)@.released(pid),
            userdata_view(tag) == old(self)@.tag_of(pid),
    {
        proof {
            use_type_invariant(&*self);
        }
        match self.find(pid) {
            Some(i) => {
                let mut entries: Vec<Outstanding> = Vec::new();
                std::mem::swap(&mut entries, &mut self.outstanding);
                let entry = entries.remove(i);
                assert(outstanding_view(entries@) =~= old(self)@.outstanding.remove(i as int));
                self.outstanding = entries;
                entry.userdata
            },
            None => None,
        }
    }

    /// The identifier for the next request that needs one.
    fn next_pid(&self) -> (next: Option<u16>)
        ensures
            next == self@.next_pid(),
    {
        let mut pid: u16 = if self.last_pid == 0 {
            65535
        } else {
            self.last_pid
        };
        let mut k: u32 = 1;
        while k <= 65535
            invariant
                1 <= k <= 65536,
                pid == candidate(self.last_pid, k - 1),
                self@.scan(k as int) == self@.next_pid(),
            decreases 65536 - k,
        {
            pid = if pid == 65535 {
                1
            } else {
                pid + 1
            };
            if self.find(PacketIdentifier(pid)).is_none() {
                return Some(pid);
            }
            k += 1;
        }
        None
    }

    /// Reacts to a command taken from the queue.
    ///
    /// `Ok` holds the actions of the command. `Err` hands the command back:
    /// the session has not executed it and is as it was. That happens while
    /// the handshake is going on, once the session is over, and while every
    /// identifier is held by an outstanding request.
    pub fn on_command(&mut self, cmd: Command) -> (r: Result<Vec<Action>, Command>)
        ensures
            match old(self)@.on_command(cmd@) {
                Some((next, actions)) => r matches Ok(done) && final(self)@ == next
                    && actions_view(done@) == actions,
                None => r matches Err(back) && back@ == cmd@ && final(self)@ == old(self)@,
            },
            final(self)@.wf(),
    {
        proof {
            use_type_invariant(&*self);
        }
        match self.status {
            Status::Active => {},
            _ => {
                return Err(cmd);
            },
        }
        let mut actions: Vec<Action> = Vec::new();
        match cmd {
            Command::Halt => {
                actions.push(Action::Send(Packet::Disconnect));
                let action = self.stop(ConnectError::Halt);
                actions.push(action);
            },
            Command::Mqtt((packet, userdata)) => {
                if packet.needs_ack() {
                    match self.next_pid() {
                        None => {
                            return Err(Command::Mqtt((packet, userdata)));
                        },
                        Some(pid) => {
                            proof {
                                lemma_scan_is_free(self@, 1);
                            }
                            let sent = packet.with_pid(PacketIdentifier(pid));
                            let entry = Outstanding {
                                pid: PacketIdentifier(pid),
                                packet: sent.clone(),
                                userdata,
                            };
                            let mut entries: Vec<Outstanding> = Vec::new();
                            std::mem::swap(&mut entries, &mut self.outstanding);
                            entries.push(entry);
                            assert(outstanding_view(entries@) =~= old(self)@.outstanding.push(
                                entry@,
                            ));
                            self.outstanding = entries;
                            self.last_pid = pid;
                            self.quiet = false;
                            actions.push(Action::Send(sent));
                        },
                    }
                } else {
                    self.quiet = false;
                    actions.push(Action::Send(packet));
                }
            },
        }
        proof {
            use_type_invariant(&*self);
        }
        Ok(actions)
    }

    /// Reacts to a packet from the broker.
    pub fn on_packet(&mut self, packet: Packet) -> (actions: Vec<Action>)
        ensures
            final(self)@ == old(self)@.on_packet(packet@).0,
            actions_view(actions@) == old(self)@.on_packet(packet@).1,
            final(self)@.wf(),
    {
        proof {
            use_type_invariant(&*self);
        }
        let mut actions: Vec<Action> = Vec::new();
        match self.status {
            Status::Over => {},
            Status::Handshake => match packet {
                Packet::Connack(connack) => match connack.code {
                    ConnectReturnCode::Accepted => {
                        self.connect_count = count_one_more(self.connect_count);
                        self.status = Status::Active;
                    },
                    code => {
                        let action = self.stop(ConnectError::ConnectionRefused(code));
                        actions.push(action);
                    },
                },
                _ => {},
            },
            Status::Active => match packet {
                Packet::Publish(publish) => {
                    let reply = match publish.pid {
                        Some(pid) => match publish.qos {
                            QoS::AtMostOnce => None,
                            _ => Some(pid),
                        },
                        None => None,
                    };
                    actions.push(Action::Notify((Packet::Publish(publish), None)));
                    match reply {
                        Some(pid) => {
                            self.quiet = false;
                            actions.push(Action::Send(Packet::Puback(pid)));
                        },
                        None => {},
                    }
                },
                Packet::Puback(pid) => {
                    let tag = self.release(pid);
                    actions.push(Action::Notify((Packet::Puback(pid), tag)));
                },
                Packet::Suback(suback) => {
                    let tag = self.release(suback.pid);
                    actions.push(Action::Notify((Packet::Suback(suback), tag)));
                },
                Packet::Pingresp => {
                    self.await_pingresp = false;
                    actions.push(Action::Notify((Packet::Pingresp, None)));
                },
                _ => {},
            },
        }
        proof {
            use_type_invariant(&*self);
        }
        actions
    }
}

/// The count after one more connection has succeeded.
pub fn count_one_more(count: ConnectCount) -> (more: ConnectCount)
    ensures
        more == one_more(count),
{
    match count {
        ConnectCount::InitialConnect => ConnectCount::ConnectedBefore(1),
        ConnectCount::ConnectedBefore(n) => ConnectCount::ConnectedBefore(
            if n == u32::MAX {
                n
            } else {
                n + 1
            },
        ),
    }
}

/// An identifier that the scan finds is free, and it is not zero.
pub proof fn lemma_scan_is_free(s: SessionView, k: int)
    requires
        1 <= k,
    ensures
        s.scan(k) matches Some(pid) ==> pid != 0 && !s.in_use(PacketIdentifier(pid)),
    decreases 65536 - k,
{
    if k <= 65535 && s.in_use(PacketIdentifier(candidate(s.last_pid, k))) {
        lemma_scan_is_free(s, k + 1);
    }
}

} // verus!
