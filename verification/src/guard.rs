//! The decisions of the task that keeps a room's live connection up: it
//! reads the event stream while connected, reconnects at once when the stream
//! ends, and after a failed connect waits and retries, giving up after
//! `MAX_RETRY_CNT` consecutive failed retries.

use vstd::prelude::*;

verus! {

/// How many times in a row a failed connect is retried.
pub const MAX_RETRY_CNT: u64 = 10;

/// How long to wait after a failed connect, in milliseconds.
pub const RETRY_DELAY_MS: u64 = 500;

/// How many events the room's broadcast channel buffers.
pub const EVENT_CHANNEL_CAPACITY: usize = 128;

/// Why a connect to the live server failed.
#[derive(Clone, Copy, Debug, PartialEq, Eq, Structural)]
pub enum ConnectFailure {
    /// The server list of the room is empty.
    HostListIsEmpty,
    /// No server accepted the handshake.
    HandshakeError,
    /// The websocket failed.
    WsError,
}

impl ConnectFailure {
    /// The text that the retry warning shows.
    pub fn reason(&self) -> (r: &'static str)
        ensures
            r@ == match self {
                ConnectFailure::HostListIsEmpty => "主机名单为空!"@,
                ConnectFailure::HandshakeError => "握手错误!"@,
                ConnectFailure::WsError => "ws错误"@,
            },
    {
        match self {
            ConnectFailure::HostListIsEmpty => "主机名单为空!",
            ConnectFailure::HandshakeError => "握手错误!",
            ConnectFailure::WsError => "ws错误",
        }
    }
}

/// An error reported by an open event stream.
#[derive(Clone, Copy, Debug, PartialEq, Eq, Structural)]
pub enum StreamFault {
    ConnectionClosed,
    WsError,
}

impl StreamFault {
    /// The label that the error log shows.
    pub fn label(&self) -> (r: &'static str)
        ensures
            r@ == match self {
                StreamFault::ConnectionClosed => "<连接被关闭>"@,
                StreamFault::WsError => "<连接错误>"@,
            },
    {
        match self {
            StreamFault::ConnectionClosed => "<连接被关闭>",
            StreamFault::WsError => "<连接错误>",
        }
    }
}

/// What happened since the last decision.
#[derive(Clone, Copy, Debug, PartialEq, Eq, Structural)]
pub enum GuardEvent {
    /// A connect succeeded and an event stream is open.
    Connected,
    /// A connect failed.
    ConnectFailed(ConnectFailure),
    /// The open event stream ended.
    StreamEnded,
}

/// What to do next.
#[derive(Clone, Copy, Debug, PartialEq, Eq, Structural)]
pub enum GuardAction {
    /// Forward the events of the open stream until it ends.
    ReadStream,
    /// Connect again at once.
    Connect,
    /// Wait `RETRY_DELAY_MS`, warn that failed retry number `attempt` had
    /// `reason`, then connect again.
    RetryAfterDelay { attempt: u64, reason: ConnectFailure },
    /// Wait `RETRY_DELAY_MS`, warn as for a retry, report that the room's
    /// connection failed, and stop.
    GiveUp { attempt: u64, reason: ConnectFailure },
    /// The task has stopped; nothing is done.
    Halted,
}

/// The state of the task that keeps a room connected.
#[derive(Clone, Copy, Debug, PartialEq, Eq, Structural)]
pub struct GuardState {
    /// Consecutive failed connects since the last successful one.
    pub retry_cnt: u64,
    /// The task has given up.
    pub given_up: bool,
}

impl GuardState {
    /// The count stays within its bound, and the task has given up exactly
    /// when it went past it.
    pub open spec fn wf(&self) -> bool {
        &&& self.retry_cnt <= MAX_RETRY_CNT + 1
        &&& self.given_up <==> self.retry_cnt > MAX_RETRY_CNT
    }

    /// The state of a task that has not tried to connect yet.
    pub open spec fn initial() -> GuardState {
        GuardState { retry_cnt: 0, given_up: false }
    }

    /// The next state and action after `e`.
    pub open spec fn step_spec(self, e: GuardEvent) -> (GuardState, GuardAction) {
        if self.given_up {
            (self, GuardAction::Halted)
        } else {
            match e {
                GuardEvent::Connected => (
                    GuardState { retry_cnt: 0, given_up: false },
                    GuardAction::ReadStream,
                ),
                GuardEvent::StreamEnded => (self, GuardAction::Connect),
                GuardEvent::ConnectFailed(reason) => {
                    let n = self.retry_cnt + 1;
                    if n > MAX_RETRY_CNT {
                        (
                            GuardState { retry_cnt: n as u64, given_up: true },
                            GuardAction::GiveUp { attempt: self.retry_cnt, reason },
                        )
                    } else {
                        (
                            GuardState { retry_cnt: n as u64, given_up: false },
                            GuardAction::RetryAfterDelay { attempt: self.retry_cnt, reason },
                        )
                    }
                },
            }
        }
    }

    /// The actions taken for the events `events`, one each, in order.
    pub open spec fn run(self, events: Seq<GuardEvent>) -> Seq<GuardAction>
        decreases events.len(),
    {
        if events.len() == 0 {
            Seq::empty()
        } else {
            let (next, a) = self.step_spec(events[0]);
            seq![a] + next.run(events.drop_first())
        }
    }

    /// A task that has not tried to connect yet.
    pub fn new() -> (s: GuardState)
        ensures
            s == GuardState::initial(),
            s.wf(),
    {
        GuardState { retry_cnt: 0, given_up: false }
    }

    /// Records `e` and decides what to do next.
    pub fn step(&mut self, e: GuardEvent) -> (a: GuardAction)
        requires
            old(self).wf(),
        ensures
            final(self).wf(),
            (*final(self), a) == old(self).step_spec(e),
    {
        if self.given_up {
            return GuardAction::Halted;
        }
        match e {
            GuardEvent::Connected => {
                self.retry_cnt = 0;
                GuardAction::ReadStream
            },
            GuardEvent::StreamEnded => GuardAction::Connect,
            GuardEvent::ConnectFailed(reason) => {
                let attempt = self.retry_cnt;
                self.retry_cnt = attempt + 1;
                if self.retry_cnt > MAX_RETRY_CNT {
                    self.given_up = true;
                    GuardAction::GiveUp { attempt, reason }
                } else {
                    GuardAction::RetryAfterDelay { attempt, reason }
                }
            },
        }
    }
}

/// The action for the `i`-th of a run of failed connects that starts with
/// `c` failures already counted.
pub open spec fn failure_action(c: int, i: int, reason: ConnectFailure) -> GuardAction {
    if c + i < MAX_RETRY_CNT {
        GuardAction::RetryAfterDelay { attempt: (c + i) as u64, reason }
    } else if c + i == MAX_RETRY_CNT {
        GuardAction::GiveUp { attempt: (c + i) as u64, reason }
    } else {
        GuardAction::Halted
    }
}

/// From a state with `c` failures counted, a run of failed connects is
/// retried until the count passes `MAX_RETRY_CNT`: the failure that makes
/// it pass gives up, and every later event does nothing.
pub proof fn lemma_failures(s: GuardState, reasons: Seq<ConnectFailure>)
    requires
        s.wf(),
    ensures
        ({
            let acts = s.run(reasons.map_values(|f: ConnectFailure| GuardEvent::ConnectFailed(f)));
            &&& acts.len() == reasons.len()
            &&& forall|i: int|
                0 <= i < reasons.len() ==> #[trigger] acts[i] == failure_action(
                    s.retry_cnt as int,
                    i,
                    reasons[i],
                )
        }),
    decreases reasons.len(),
{
    let evs = reasons.map_values(|f: ConnectFailure| GuardEvent::ConnectFailed(f));
    if reasons.len() > 0 {
        let (next, a) = s.step_spec(evs[0]);
        let rest = reasons.drop_first();
        assert(evs.drop_first() =~= rest.map_values(|f: ConnectFailure| GuardEvent::ConnectFailed(f)));
        lemma_failures(next, rest);
        let acts = s.run(evs);
        assert forall|i: int| 0 <= i < reasons.len() implies #[trigger] acts[i] == failure_action(
            s.retry_cnt as int,
            i,
            reasons[i],
        ) by {
            if i > 0 {
                assert(rest[i - 1] == reasons[i]);
                if s.given_up {
                    assert(next.retry_cnt == s.retry_cnt);
                }
            }
        }
    }
}

/// A fresh task retries `MAX_RETRY_CNT` failed connects in a row and gives
/// up at the next one.
pub proof fn lemma_gives_up_after_max_retries(reasons: Seq<ConnectFailure>)
    requires
        reasons.len() == MAX_RETRY_CNT + 1,
    ensures
        ({
            let acts = GuardState::initial().run(
                reasons.map_values(|f: ConnectFailure| GuardEvent::ConnectFailed(f)),
            );
            &&& forall|i: int|
                0 <= i < MAX_RETRY_CNT ==> #[trigger] acts[i]
                    == GuardAction::RetryAfterDelay { attempt: i as u64, reason: reasons[i] }
            &&& acts[MAX_RETRY_CNT as int] == GuardAction::GiveUp {
                attempt: MAX_RETRY_CNT,
                reason: reasons[MAX_RETRY_CNT as int],
            }
        }),
{
    lemma_failures(GuardState::initial(), reasons);
}

/// A successful connect forgets earlier failures: afterwards the task is in
/// the state of a fresh one, unless it had already given up.
pub proof fn lemma_connect_resets(s: GuardState)
    requires
        s.wf(),
        !s.given_up,
    ensures
        s.step_spec(GuardEvent::Connected).0 == GuardState::initial(),
        s.step_spec(GuardEvent::Connected).1 == GuardAction::ReadStream,
{
}

/// Once the task has given up it does nothing more, whatever happens.
pub proof fn lemma_given_up_is_final(s: GuardState, events: Seq<GuardEvent>)
    requires
        s.wf(),
        s.given_up,
    ensures
        s.run(events) == Seq::new(events.len(), |i: int| GuardAction::Halted),
    decreases events.len(),
{
    if events.len() > 0 {
        lemma_given_up_is_final(s, events.drop_first());
    }
    assert(s.run(events) =~= Seq::new(events.len(), |i: int| GuardAction::Halted));
}

/// A stream that ends leads to a new connect and leaves the count alone.
pub proof fn lemma_stream_end_reconnects(s: GuardState)
    requires
        s.wf(),
        !s.given_up,
    ensures
        s.step_spec(GuardEvent::StreamEnded) == (s, GuardAction::Connect),
{
}

} // verus!
