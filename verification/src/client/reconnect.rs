//! The rules by which the connection supervisor decides, each time a session
//! has ended, whether to stop or to wait and start another one.

use vstd::prelude::*;

use crate::client::ConnectCount;
use crate::error::ConnectError;
use crate::options::ReconnectOptions;

verus! {

/// Seconds that the supervisor waits before a new attempt as long as no
/// policy decision has set another delay.
pub const DEFAULT_SLEEP_SECS: u64 = 10;

/// How a session ended: `Ok` when it returned without an error, else the
/// error together with the count of connections that had succeeded by then.
pub type SessionEnd = Result<(), (ConnectError, ConnectCount)>;

/// What the supervisor does after a session has ended.
#[derive(Clone, Copy, Debug, PartialEq, Eq, Structural)]
pub enum Verdict {
    /// Make no further attempt.
    Stop,
    /// Wait this many seconds, then start a new session.
    Retry(u64),
}

/// The verdict on a session that ended as `end` says, under `policy`, when the
/// delay last in force is `sleep` seconds.
///
/// A halt always stops. Any other failure goes by the policy, and a retry
/// takes its delay from the policy. A session that returned without an error
/// is followed by a new one after the delay last in force.
pub open spec fn verdict(policy: ReconnectOptions, sleep: u64, end: SessionEnd) -> Verdict {
    match end {
        Ok(_) => Verdict::Retry(sleep),
        Err((ConnectError::Halt, _)) => Verdict::Stop,
        Err((_, count)) => match policy {
            ReconnectOptions::Never => Verdict::Stop,
            ReconnectOptions::AfterFirstSuccess(d) => if count != ConnectCount::InitialConnect {
                Verdict::Retry(d as u64)
            } else {
                Verdict::Stop
            },
            ReconnectOptions::Always(d) => Verdict::Retry(d as u64),
        },
    }
}

/// The waits between attempts when the sessions end, one after another, as
/// `ends` says: one entry for each new attempt that follows. The supervisor
/// stops at the first verdict that says so, whatever `ends` holds beyond it.
pub open spec fn waits(policy: ReconnectOptions, sleep: u64, ends: Seq<SessionEnd>) -> Seq<u64>
    decreases ends.len(),
{
    if ends.len() == 0 {
        Seq::empty()
    } else {
        match verdict(policy, sleep, ends[0]) {
            Verdict::Stop => Seq::empty(),
            Verdict::Retry(d) => seq![d] + waits(policy, d, ends.drop_first()),
        }
    }
}

/// Whether a session end is a failure other than a halt.
pub open spec fn is_failure(end: SessionEnd) -> bool {
    end matches Err((e, _)) && e != ConnectError::Halt
}

/// State of the connection supervisor between two attempts.
#[derive(Clone, Copy, Debug, PartialEq, Eq, Structural)]
pub struct Supervisor {
    /// The reconnection policy. Never changes.
    pub reconnect: ReconnectOptions,
    /// The delay last in force, in seconds. It stays until a verdict sets
    /// another one.
    pub sleep_duration: u64,
    /// The count of connections that have succeeded, as the session that
    /// failed last reported it. The next session begins with it.
    pub connect_count: ConnectCount,
}

impl Supervisor {
    /// A supervisor that has not yet seen a session end.
    pub fn new(reconnect: ReconnectOptions) -> (s: Supervisor)
        ensures
            s == (Supervisor {
                reconnect,
                sleep_duration: DEFAULT_SLEEP_SECS,
                connect_count: ConnectCount::InitialConnect,
            }),
    {
        Supervisor {
            reconnect,
            sleep_duration: DEFAULT_SLEEP_SECS,
            connect_count: ConnectCount::InitialConnect,
        }
    }

    /// Takes note of how a session ended and says what to do next. A retry
    /// puts its delay in force; a stop leaves the delay as it was. The count
    /// that a failed session reports is kept for the next one.
    pub fn session_ended(&mut self, end: SessionEnd) -> (v: Verdict)
        ensures
            v == verdict(old(self).reconnect, old(self).sleep_duration, end),
            final(self).reconnect == old(self).reconnect,
            final(self).sleep_duration == match v {
                Verdict::Retry(d) => d,
                Verdict::Stop => old(self).sleep_duration,
            },
            final(self).connect_count == match end {
                Ok(_) => old(self).connect_count,
                Err((_, count)) => count,
            },
    {
        match end {
            Ok(_) => {},
            Err((_, count)) => {
                self.connect_count = count;
            },
        }
        let v = match end {
            Ok(_) => Verdict::Retry(self.sleep_duration),
            Err((ConnectError::Halt, _)) => Verdict::Stop,
            Err((_, count)) => match self.reconnect {
                ReconnectOptions::Never => Verdict::Stop,
                ReconnectOptions::AfterFirstSuccess(d) => match count {
                    ConnectCount::InitialConnect => Verdict::Stop,
                    ConnectCount::ConnectedBefore(_) => Verdict::Retry(d as u64),
                },
                ReconnectOptions::Always(d) => Verdict::Retry(d as u64),
            },
        };
        match v {
            Verdict::Retry(d) => {
                self.sleep_duration = d;
            },
            Verdict::Stop => {},
        }
        v
    }
}

/// With the policy `Never`, a first session that fails is the only one: no
/// wait and no second attempt follow, whatever the failure.
pub proof fn lemma_never_makes_one_attempt(sleep: u64, ends: Seq<SessionEnd>)
    requires
        ends.len() > 0,
        ends[0] is Err,
    ensures
        waits(ReconnectOptions::Never, sleep, ends) == Seq::<u64>::empty(),
{
}

/// With the policy `AfterFirstSuccess`, a first session that fails before any
/// connection has succeeded is the only one.
pub proof fn lemma_first_failure_is_final(d: u16, sleep: u64, ends: Seq<SessionEnd>)
    requires
        ends.len() > 0,
        ends[0] matches Err((_, count)) && count == ConnectCount::InitialConnect,
    ensures
        waits(ReconnectOptions::AfterFirstSuccess(d), sleep, ends) == Seq::<u64>::empty(),
{
}

/// With the policy `AfterFirstSuccess(d)`, a failure that comes after at least
/// one connection has succeeded is followed by a wait of `d` seconds and a new
/// attempt.
pub proof fn lemma_retry_after_success(d: u16, sleep: u64, e: ConnectError, n: u32)
    requires
        e != ConnectError::Halt,
    ensures
        verdict(
            ReconnectOptions::AfterFirstSuccess(d),
            sleep,
            Err((e, ConnectCount::ConnectedBefore(n))),
        ) == Verdict::Retry(d as u64),
{
}

/// With the policy `Always(d)`, every failure other than a halt, the first as
/// well as any later one, is followed by a wait of `d` seconds and a new
/// attempt.
pub proof fn lemma_always_retries(d: u16, sleep: u64, ends: Seq<SessionEnd>)
    requires
        forall|i: int| 0 <= i < ends.len() ==> is_failure(#[trigger] ends[i]),
    ensures
        waits(ReconnectOptions::Always(d), sleep, ends) == Seq::new(ends.len(), |i: int| d as u64),
    decreases ends.len(),
{
    if ends.len() > 0 {
        let rest = ends.drop_first();
        assert forall|i: int| 0 <= i < rest.len() implies is_failure(#[trigger] rest[i]) by {}
        lemma_always_retries(d, d as u64, rest);
    }
}

/// A halt ends the supervision under every policy: the sessions that `ends`
/// holds beyond it are never started.
pub proof fn lemma_halt_stops(policy: ReconnectOptions, sleep: u64, count: ConnectCount)
    ensures
        verdict(policy, sleep, Err((ConnectError::Halt, count))) == Verdict::Stop,
{
}

} // verus!
