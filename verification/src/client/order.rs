//! What holds of every run of a session: the laws that follow from the model
//! in [`crate::client::state`], each proved from it.

use vstd::prelude::*;

use crate::client::reconnect::{verdict, Verdict};
use crate::client::state::{
    candidate, lemma_scan_is_free, ActionView, OutstandingView, SessionView, Status,
};
use crate::client::{CommandView, ConnectCount};
use crate::error::ConnectError;
use crate::options::ReconnectOptions;
use crate::packet::{PacketIdentifier, PacketView};

verus! {

/// Something that happens to a session.
pub enum EventView {
    /// A command was taken from the queue.
    Command(CommandView),
    /// A packet came in from the broker.
    Packet(PacketView),
    /// A keep-alive interval ran out.
    KeepAlive,
    /// The time allowed for the handshake ran out.
    HandshakeTimeout,
    /// The transport failed.
    TransportError,
}

/// The packet that executing a command writes, before an identifier is put
/// into it: the command's own packet, and a disconnect for a halt.
pub open spec fn wire_packet(cmd: CommandView) -> PacketView {
    match cmd {
        CommandView::Mqtt(packet, _) => packet,
        CommandView::Halt => PacketView::Disconnect,
    }
}

/// The packets that a list of actions writes, in order.
pub open spec fn written(actions: Seq<ActionView>) -> Seq<PacketView>
    decreases actions.len(),
{
    if actions.len() == 0 {
        Seq::empty()
    } else {
        match actions[0] {
            ActionView::Send(packet) => seq![packet] + written(actions.drop_first()),
            _ => written(actions.drop_first()),
        }
    }
}

/// Whether a list of actions ends the session.
pub open spec fn stops(actions: Seq<ActionView>) -> bool {
    exists|i: int| 0 <= i < actions.len() && (#[trigger] actions[i]) is Stop
}

impl SessionView {
    /// The next state and the actions after one event. A command that the
    /// session does not execute leaves it as it is.
    pub open spec fn step(self, event: EventView) -> (SessionView, Seq<ActionView>) {
        match event {
            EventView::Command(cmd) => match self.on_command(cmd) {
                Some(next) => next,
                None => (self, Seq::empty()),
            },
            EventView::Packet(packet) => self.on_packet(packet),
            EventView::KeepAlive => self.on_keep_alive(),
            EventView::HandshakeTimeout => self.on_handshake_timeout(),
            EventView::TransportError => self.on_transport_error(),
        }
    }

    /// The last state and all the actions after a list of events, in order.
    pub open spec fn run(self, events: Seq<EventView>) -> (SessionView, Seq<ActionView>)
        decreases events.len(),
    {
        if events.len() == 0 {
            (self, Seq::empty())
        } else {
            let first = self.step(events[0]);
            let rest = first.0.run(events.drop_first());
            (rest.0, first.1 + rest.1)
        }
    }

    /// The session working through a queue of commands with nothing else
    /// happening: the last state, all the actions, and how many commands
    /// were executed. The queue is worked from its head; a command that is
    /// not executed stays at the head and keeps back all that are behind it.
    pub open spec fn execute(self, cmds: Seq<CommandView>) -> (SessionView, Seq<ActionView>, nat)
        decreases cmds.len(),
    {
        if cmds.len() == 0 {
            (self, Seq::empty(), 0)
        } else {
            match self.on_command(cmds[0]) {
                None => (self, Seq::empty(), 0),
                Some(first) => {
                    let rest = first.0.execute(cmds.drop_first());
                    (rest.0, first.1 + rest.1, rest.2 + 1)
                },
            }
        }
    }
}

/// Whatever happens to a valid session leaves it valid. In particular no
/// identifier is ever held by two outstanding requests at once.
pub proof fn lemma_step_keeps_valid(s: SessionView, event: EventView)
    requires
        s.wf(),
    ensures
        s.step(event).0.wf(),
{
    match event {
        EventView::Command(CommandView::Mqtt(packet, userdata)) => {
            if s.status == Status::Active && packet.needs_ack() {
                lemma_scan_is_free(s, 1);
            }
        },
        EventView::Packet(packet) => {
            match packet.acked_pid() {
                Some(pid) => {
                    lemma_release_keeps_valid(s, pid);
                },
                None => {},
            }
        },
        _ => {},
    }
}

/// Releasing an identifier leaves a valid session valid, and afterwards the
/// identifier is free.
pub proof fn lemma_release_keeps_valid(s: SessionView, pid: PacketIdentifier)
    requires
        s.wf(),
    ensures
        s.released(pid).wf(),
        !s.released(pid).in_use(pid),
{
    if s.in_use(pid) {
        let rest = s.outstanding.remove(s.index_of(pid));
        assert forall|i: int| 0 <= i < rest.len() implies (#[trigger] rest[i]).pid != pid by {}
    }
}

/// Whatever list of events a valid session goes through, it stays valid.
pub proof fn lemma_run_keeps_valid(s: SessionView, events: Seq<EventView>)
    requires
        s.wf(),
    ensures
        s.run(events).0.wf(),
    decreases events.len(),
{
    if events.len() > 0 {
        lemma_step_keeps_valid(s, events[0]);
        lemma_run_keeps_valid(s.step(events[0]).0, events.drop_first());
    }
}

/// A request that needs an identifier and is executed gets one that is not
/// zero and that no outstanding request holds. It is written with that
/// identifier and recorded under it, with its tag, behind the requests that
/// were outstanding before.
pub proof fn lemma_fresh_identifier(
    s: SessionView,
    packet: PacketView,
    userdata: Option<Seq<char>>,
)
    requires
        packet.needs_ack(),
        s.on_command(CommandView::Mqtt(packet, userdata)) is Some,
    ensures
        ({
            let (next, actions) = s.on_command(CommandView::Mqtt(packet, userdata)).unwrap();
            let pid = PacketIdentifier(next.last_pid);
            &&& pid.0 != 0
            &&& !s.in_use(pid)
            &&& actions == seq![ActionView::Send(packet.with_pid(pid))]
            &&& next.outstanding == s.outstanding.push(
                OutstandingView { pid, packet: packet.with_pid(pid), userdata },
            )
        }),
{
    lemma_scan_is_free(s, 1);
}

/// A request is kept back for want of an identifier only when every
/// identifier from 1 to 65535 is held by an outstanding request.
pub proof fn lemma_kept_back_only_when_full(s: SessionView, pid: u16)
    requires
        s.next_pid() is None,
        pid != 0,
    ensures
        s.in_use(PacketIdentifier(pid)),
{
    let k = (pid as int - 1 - s.last_pid as int) % 65535 + 1;
    lemma_scan_none(s, 1, k);
}

/// Where the scan finds nothing, every candidate it passed is in use.
proof fn lemma_scan_none(s: SessionView, from: int, k: int)
    requires
        1 <= from <= k <= 65535,
        s.scan(from) is None,
    ensures
        s.in_use(PacketIdentifier(candidate(s.last_pid, k))),
    decreases k - from,
{
    if from < k {
        lemma_scan_none(s, from + 1, k);
    }
}

/// The end of a session discards every outstanding request: whenever the
/// actions of an event hold a stop, the session is over afterwards and
/// nothing is outstanding. A session begins with nothing outstanding too,
/// so that nothing is ever carried from one session into the next.
pub proof fn lemma_end_discards(
    s: SessionView,
    event: EventView,
    count: ConnectCount,
    keep_alive: u16,
)
    ensures
        stops(s.step(event).1) ==> s.step(event).0.status == Status::Over && s.step(
            event,
        ).0.outstanding.len() == 0,
        SessionView::opened(count, keep_alive).outstanding.len() == 0,
        SessionView::opened(count, keep_alive).wf(),
{
}

/// A session that is over stays as it is and does nothing, whatever happens
/// to it. No command is executed any more.
pub proof fn lemma_over_is_final(s: SessionView, events: Seq<EventView>)
    requires
        s.status == Status::Over,
    ensures
        s.run(events) == (s, Seq::<ActionView>::empty()),
        forall|cmd: CommandView| s.on_command(cmd) is None,
    decreases events.len(),
{
    if events.len() > 0 {
        lemma_over_is_final(s, events.drop_first());
    }
}

/// A halt that an active session takes from the queue is the last thing it
/// does: it writes a disconnect, reports the halt, and is over. Whatever
/// events follow change nothing and lead to no action.
pub proof fn lemma_halt_is_terminal(s: SessionView, after: Seq<EventView>)
    requires
        s.status == Status::Active,
    ensures
        s.step(EventView::Command(CommandView::Halt)).1 == seq![
            ActionView::Send(PacketView::Disconnect),
            ActionView::Stop(ConnectError::Halt, s.connect_count),
        ],
        s.step(EventView::Command(CommandView::Halt)).0.status == Status::Over,
        s.run(seq![EventView::Command(CommandView::Halt)] + after) == s.step(
            EventView::Command(CommandView::Halt),
        ),
{
    let halt = EventView::Command(CommandView::Halt);
    assert((seq![halt] + after).drop_first() =~= after);
    lemma_over_is_final(s.step(halt).0, after);
}

/// A session that fails after its handshake was completed reports at least
/// one connection that has succeeded.
pub proof fn lemma_failure_after_handshake(s: SessionView, event: EventView, i: int)
    requires
        s.wf(),
        s.status == Status::Active,
        0 <= i < s.step(event).1.len(),
    ensures
        s.step(event).1[i] matches ActionView::Stop(_, count) ==> count
            != ConnectCount::InitialConnect,
{
}

/// Under the policy `AfterFirstSuccess(d)`, a session that fails after its
/// handshake was completed, be it the first session or a later one, is
/// followed by a wait of `d` seconds and a new attempt.
pub proof fn lemma_failure_after_success_is_retried(
    s: SessionView,
    event: EventView,
    i: int,
    d: u16,
    sleep: u64,
)
    requires
        s.wf(),
        s.status == Status::Active,
        0 <= i < s.step(event).1.len(),
    ensures
        s.step(event).1[i] matches ActionView::Stop(error, count) ==> error == ConnectError::Halt
            || verdict(ReconnectOptions::AfterFirstSuccess(d), sleep, Err((error, count)))
            == Verdict::Retry(d as u64),
{
}

/// Under the policy `AfterFirstSuccess`, a first session that ends before
/// its handshake is completed is the last one: the supervisor stops.
pub proof fn lemma_first_handshake_failure_is_final(
    keep_alive: u16,
    event: EventView,
    i: int,
    d: u16,
    sleep: u64,
)
    requires
        0 <= i < SessionView::opened(ConnectCount::InitialConnect, keep_alive).step(event).1.len(),
    ensures
        SessionView::opened(ConnectCount::InitialConnect, keep_alive).step(event).1[i] matches ActionView::Stop(
            error,
            count,
        ) ==> verdict(ReconnectOptions::AfterFirstSuccess(d), sleep, Err((error, count)))
            == Verdict::Stop,
{
}

/// The packets written by a list of actions that is made of two parts are
/// those of the first part followed by those of the second.
pub proof fn lemma_written_concat(a: Seq<ActionView>, b: Seq<ActionView>)
    ensures
        written(a + b) == written(a) + written(b),
    decreases a.len(),
{
    if a.len() > 0 {
        assert((a + b).drop_first() =~= a.drop_first() + b);
        lemma_written_concat(a.drop_first(), b);
    }
}

/// Commands are executed in the order of the queue. Each executed command
/// writes exactly one packet, and the packets are written in the order of
/// their commands: the `i`-th packet written is the packet of the `i`-th
/// command, apart from the identifier that the session has put into it.
pub proof fn lemma_execute_in_order(s: SessionView, cmds: Seq<CommandView>)
    ensures
        s.execute(cmds).2 <= cmds.len(),
        written(s.execute(cmds).1).len() == s.execute(cmds).2,
        forall|i: int|
            0 <= i < s.execute(cmds).2 ==> (#[trigger] written(s.execute(cmds).1)[i]).without_pid()
                == wire_packet(cmds[i]).without_pid(),
    decreases cmds.len(),
{
    if cmds.len() > 0 {
        match s.on_command(cmds[0]) {
            None => {},
            Some(first) => {
                let tail = cmds.drop_first();
                let rest = first.0.execute(tail);
                lemma_execute_in_order(first.0, tail);
                lemma_written_concat(first.1, rest.1);
                lemma_command_writes_one(s, cmds[0]);
            },
        }
    }
}

/// An executed command writes one packet: its own, apart from the
/// identifier.
pub proof fn lemma_command_writes_one(s: SessionView, cmd: CommandView)
    requires
        s.on_command(cmd) is Some,
    ensures
        written(s.on_command(cmd).unwrap().1).len() == 1,
        written(s.on_command(cmd).unwrap().1)[0].without_pid() == wire_packet(cmd).without_pid(),
{
    reveal_with_fuel(written, 3);
}

/// Nothing that stands behind a halt in the queue is ever executed.
pub proof fn lemma_nothing_after_halt(s: SessionView, cmds: Seq<CommandView>, i: int)
    requires
        0 <= i < cmds.len(),
        cmds[i] is Halt,
    ensures
        s.execute(cmds).2 <= i + 1,
    decreases cmds.len(),
{
    match s.on_command(cmds[0]) {
        None => {},
        Some(first) => {
            let tail = cmds.drop_first();
            if i == 0 {
                assert(first.0.execute(tail).2 == 0);
            } else {
                lemma_nothing_after_halt(first.0, tail, i - 1);
            }
        },
    }
}

} // verus!
