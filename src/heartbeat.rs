use vstd::prelude::*;
use crate::{elapsed, CLIENT_TIMEOUT_MS, HEARTBEAT_INTERVAL_MS};

verus! {

/// Timing of the liveness protocol: how often to probe, and how much
/// silence marks a peer as dead.
#[derive(Clone, Copy, Debug, PartialEq, Eq)]
pub struct HeartbeatConfig {
    pub interval: u64,
    pub timeout: u64,
}

impl HeartbeatConfig {
    /// A usable timing: a positive interval, and a timeout of at least two
    /// intervals so that one late pong is no false alarm.
    pub open spec fn wf(&self) -> bool {
        self.interval > 0 && self.timeout >= 2 * self.interval
    }

    /// `None` where the timing is not usable.
    pub fn new(interval: u64, timeout: u64) -> (r: Option<Self>)
        ensures
            r is Some <==> (interval > 0 && timeout >= 2 * interval),
            r matches Some(c) ==> c.interval == interval && c.timeout == timeout && c.wf(),
    {
        if interval > 0 && timeout / 2 >= interval {
            Some(HeartbeatConfig { interval, timeout })
        } else {
            None
        }
    }

    /// The default timing, in milliseconds.
    pub fn standard() -> (r: Self)
        ensures
            r.interval == HEARTBEAT_INTERVAL_MS,
            r.timeout == CLIENT_TIMEOUT_MS,
            r.wf(),
    {
        HeartbeatConfig { interval: HEARTBEAT_INTERVAL_MS, timeout: CLIENT_TIMEOUT_MS }
    }
}

/// Where a connection's supervisor stands; all but `Active` are final.
#[derive(Clone, Copy, Debug, PartialEq, Eq, Structural)]
pub enum SupervisorState {
    Active,
    TimedOut,
    Cancelled,
    SendFailed,
}

/// What the supervisor's task observed while waiting.
#[derive(Clone, Copy, Debug, PartialEq, Eq, Structural)]
pub enum SupervisorEvent {
    /// The interval elapsed at `now`; `last_heartbeat` is the connection's
    /// liveness timestamp as read at that instant.
    Tick { now: u64, last_heartbeat: u64 },
    /// The shutdown notification arrived before the tick.
    Shutdown,
    /// A ping could not be written: the peer is gone.
    SendFailed,
}

/// What the supervisor's task must do next.
#[derive(Clone, Copy, Debug, PartialEq, Eq, Structural)]
pub enum SupervisorAction {
    /// Send a ping and wait for the next tick or the shutdown notification.
    SendPing,
    /// The peer is presumed dead: close the connection and stop.
    Disconnect,
    /// Stop without sending anything more.
    Stop,
    /// Nothing to do: the supervisor has already stopped.
    Idle,
}

/// The transition of the liveness protocol.
pub open spec fn step_spec(cfg: HeartbeatConfig, s: SupervisorState, e: SupervisorEvent) -> (
    SupervisorState,
    SupervisorAction,
) {
    if s != SupervisorState::Active {
        (s, SupervisorAction::Idle)
    } else {
        match e {
            SupervisorEvent::Tick { now, last_heartbeat } => {
                if now > last_heartbeat && now - last_heartbeat > cfg.timeout {
                    (SupervisorState::TimedOut, SupervisorAction::Disconnect)
                } else {
                    (SupervisorState::Active, SupervisorAction::SendPing)
                }
            },
            SupervisorEvent::Shutdown => (SupervisorState::Cancelled, SupervisorAction::Stop),
            SupervisorEvent::SendFailed => (SupervisorState::SendFailed, SupervisorAction::Stop),
        }
    }
}

/// The state after a sequence of events.
pub open spec fn run(cfg: HeartbeatConfig, s: SupervisorState, events: Seq<SupervisorEvent>) -> SupervisorState
    decreases events.len(),
{
    if events.len() == 0 {
        s
    } else {
        run(cfg, step_spec(cfg, s, events[0]).0, events.drop_first())
    }
}

/// How many pings a sequence of events makes the supervisor send.
pub open spec fn pings_sent(cfg: HeartbeatConfig, s: SupervisorState, events: Seq<SupervisorEvent>) -> nat
    decreases events.len(),
{
    if events.len() == 0 {
        0
    } else {
        let (s2, a) = step_spec(cfg, s, events[0]);
        (if a == SupervisorAction::SendPing { 1nat } else { 0nat }) + pings_sent(
            cfg,
            s2,
            events.drop_first(),
        )
    }
}

/// The liveness supervisor of one connection. It only reads the liveness
/// timestamp, which each tick event carries as it was at that instant.
pub struct Supervisor {
    config: HeartbeatConfig,
    state: SupervisorState,
}

impl Supervisor {
    pub closed spec fn config_spec(&self) -> HeartbeatConfig {
        self.config
    }

    pub closed spec fn state_spec(&self) -> SupervisorState {
        self.state
    }

    pub fn new(config: HeartbeatConfig) -> (r: Self)
        ensures
            r.config_spec() == config,
            r.state_spec() == SupervisorState::Active,
    {
        Supervisor { config, state: SupervisorState::Active }
    }

    /// Takes one event and says what to do: on a tick, disconnect where the
    /// silence since the last heartbeat exceeds the timeout, else send a
    /// ping; on the shutdown notification or a failed send, stop.
    pub fn step(&mut self, event: SupervisorEvent) -> (r: SupervisorAction)
        ensures
            final(self).config_spec() == old(self).config_spec(),
            (final(self).state_spec(), r) == step_spec(old(self).config_spec(), old(self).state_spec(), event),
    {
        if self.state != SupervisorState::Active {
            return SupervisorAction::Idle;
        }
        match event {
            SupervisorEvent::Tick { now, last_heartbeat } => {
                if elapsed(now, last_heartbeat) > self.config.timeout {
                    self.state = SupervisorState::TimedOut;
                    SupervisorAction::Disconnect
                } else {
                    SupervisorAction::SendPing
                }
            },
            SupervisorEvent::Shutdown => {
                self.state = SupervisorState::Cancelled;
                SupervisorAction::Stop
            },
            SupervisorEvent::SendFailed => {
                self.state = SupervisorState::SendFailed;
                SupervisorAction::Stop
            },
        }
    }

    pub fn state(&self) -> (r: SupervisorState)
        ensures
            r == self.state_spec(),
    {
        self.state
    }

    pub fn config(&self) -> (r: HeartbeatConfig)
        ensures
            r == self.config_spec(),
    {
        self.config
    }
}

/// A stopped supervisor stays where it is and sends no ping, whatever comes.
pub proof fn lemma_final_state_absorbs(cfg: HeartbeatConfig, s: SupervisorState, events: Seq<SupervisorEvent>)
    requires
        s != SupervisorState::Active,
    ensures
        run(cfg, s, events) == s,
        pings_sent(cfg, s, events) == 0,
    decreases events.len(),
{
    if events.len() > 0 {
        lemma_final_state_absorbs(cfg, s, events.drop_first());
    }
}

/// The shutdown notification, arriving before a pending tick, halts an
/// active supervisor at once: it is cancelled and sends no further ping.
pub proof fn lemma_shutdown_halts(cfg: HeartbeatConfig, rest: Seq<SupervisorEvent>)
    ensures
        step_spec(cfg, SupervisorState::Active, SupervisorEvent::Shutdown) == (
            SupervisorState::Cancelled,
            SupervisorAction::Stop,
        ),
        run(cfg, SupervisorState::Active, seq![SupervisorEvent::Shutdown] + rest)
            == SupervisorState::Cancelled,
        pings_sent(cfg, SupervisorState::Active, seq![SupervisorEvent::Shutdown] + rest) == 0,
{
    let events = seq![SupervisorEvent::Shutdown] + rest;
    assert(events.drop_first() =~= rest);
    lemma_final_state_absorbs(cfg, SupervisorState::Cancelled, rest);
}

/// Once any tick finds the silence longer than the timeout, the supervisor
/// has stopped by the end of the run, on its own decision.
pub proof fn lemma_late_tick_stops(
    cfg: HeartbeatConfig,
    s: SupervisorState,
    events: Seq<SupervisorEvent>,
    i: int,
)
    requires
        0 <= i < events.len(),
        events[i] matches SupervisorEvent::Tick { now, last_heartbeat } && now > last_heartbeat
            && now - last_heartbeat > cfg.timeout,
    ensures
        run(cfg, s, events) != SupervisorState::Active,
        s == SupervisorState::Active && (forall|j: int|
            0 <= j < events.len() ==> events[j] is Tick) ==> run(cfg, s, events)
            == SupervisorState::TimedOut,
    decreases events.len(),
{
    let s2 = step_spec(cfg, s, events[0]).0;
    if i == 0 {
        if s2 != SupervisorState::Active {
            lemma_final_state_absorbs(cfg, s2, events.drop_first());
        }
    } else {
        let rest = events.drop_first();
        assert(rest[i - 1] == events[i]);
        lemma_late_tick_stops(cfg, s2, rest, i - 1);
        if s2 != SupervisorState::Active {
            lemma_final_state_absorbs(cfg, s2, rest);
        }
        if s == SupervisorState::Active && (forall|j: int|
            0 <= j < events.len() ==> events[j] is Tick) {
            assert(events[0] is Tick);
            assert forall|j: int| 0 <= j < rest.len() implies rest[j] is Tick by {
                assert(rest[j] == events[j + 1]);
            }
        }
    }
}

/// The tick due `k + 1` intervals after `start`.
pub open spec fn tick_time(cfg: HeartbeatConfig, start: int, k: int) -> int {
    start + (k + 1) * cfg.interval
}

/// A peer silent since `last` (no ping after it, at or after the start of
/// supervision) is disconnected by the supervisor once the time of the
/// next tick exceeds `last` by more than interval plus timeout: of the
/// ticks that came every interval, the latest already found it dead.
pub proof fn lemma_silent_peer_disconnected(
    cfg: HeartbeatConfig,
    start: u64,
    last: u64,
    events: Seq<SupervisorEvent>,
)
    requires
        cfg.wf(),
        start <= last,
        forall|k: int|
            0 <= k < events.len() ==> events[k] == (SupervisorEvent::Tick {
                now: tick_time(cfg, start as int, k) as u64,
                last_heartbeat: last,
            }),
        forall|k: int| 0 <= k < events.len() ==> tick_time(cfg, start as int, k) <= u64::MAX,
        tick_time(cfg, start as int, events.len() as int) > last + cfg.interval + cfg.timeout,
    ensures
        run(cfg, SupervisorState::Active, events) == SupervisorState::TimedOut,
{
    let n = events.len() as int;
    assert(n >= 1) by (nonlinear_arith)
        requires
            start + (n + 1) * cfg.interval > last + cfg.interval + cfg.timeout,
            start <= last,
            cfg.timeout >= 2 * cfg.interval,
            cfg.interval > 0,
            n >= 0,
    {
        if n == 0 {
            assert(start + cfg.interval > last + cfg.interval + cfg.timeout);
        }
    }
    assert(tick_time(cfg, start as int, n - 1) > last + cfg.timeout) by (nonlinear_arith)
        requires
            start + (n + 1) * cfg.interval > last + cfg.interval + cfg.timeout,
    {
        assert(start + (n + 1) * cfg.interval == start + n * cfg.interval + cfg.interval);
    }
    lemma_late_tick_stops(cfg, SupervisorState::Active, events, n - 1);
}

} // verus!
