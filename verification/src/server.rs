//! The decisions of the server's main loop: which port to serve on, what to
//! do with an incoming connection, and when to shut down for want of
//! players.

use std::ops::Range;
use vstd::prelude::*;

verus! {

/// Steps of the simulation in one second.
pub const SIM_TICKS_PER_SECOND: u64 = 60;

/// Time between two looks at the number of players, in milliseconds.
pub const INACTIVITY_CHECK_PERIOD_MS: u64 = 5_000;

/// Time that a server stays up without players, in milliseconds, unless it
/// is told otherwise.
pub const INACTIVITY_THRESHOLD_MS: u64 = 120_000;

/// Tells a world that it is about to be forked.
#[derive(Debug, Clone, Copy)]
pub struct ForkingEvent;

/// Tells a world that it has come out of a fork.
#[derive(Debug, Clone, Copy)]
pub struct ForkedEvent;

/// Tells a world that it is shut down.
#[derive(Debug, Clone, Copy)]
pub struct ShutdownEvent;

/// How to reach players through a relay when the server cannot be reached
/// directly.
#[derive(Debug, Clone)]
pub struct ProxySettings {
    /// Address of the relay.
    pub endpoint: String,
    /// Where the project lies.
    pub project_path: String,
    /// Whether the relay is asked to fetch the project's assets ahead of
    /// the players.
    pub pre_cache_assets: bool,
    /// Id of the project.
    pub project_id: String,
}

/// Why a server shuts down.
#[derive(Clone, Copy, Debug, PartialEq, Eq, Structural)]
pub enum ShutdownReason {
    /// No player was there for longer than the threshold.
    Inactivity,
    /// The endpoint takes no more connections.
    NoMoreConnections,
}

/// What the main loop of a server wakes up to.
#[derive(Clone, Copy, Debug, PartialEq, Eq, Structural)]
pub enum LoopEvent {
    /// A connection came in; whether it could be accepted.
    Incoming { accepted: bool },
    /// It is time for a step of the simulation.
    SimTick,
    /// A player has joined, at the given time in milliseconds.
    PlayerJoined { now_ms: u64 },
    /// It is time to look at the number of players: the time in
    /// milliseconds, and the number.
    InactivityCheck { now_ms: u64, player_count: usize },
    /// The endpoint has closed.
    EndpointClosed,
}

/// What the main loop of a server does next.
#[derive(Clone, Copy, Debug, PartialEq, Eq, Structural)]
pub enum LoopAction {
    /// Start a session on the connection.
    RunConnection,
    /// Step every instance, broadcast its diff, and hand out the
    /// performance sample if one is due.
    Tick,
    /// Go on waiting.
    Continue,
    /// Leave the loop: shut every instance down and stop.
    Shutdown(ShutdownReason),
}

/// No port of the range could be bound.
#[derive(Clone, Copy, Debug, PartialEq, Eq, Structural)]
pub struct NoPortAvailable;

/// A server on one port.
pub struct GameServer {
    /// The port that the server listens on.
    pub port: u16,
    /// Shuts the server down when no player is there for too long.
    pub use_inactivity_shutdown: bool,
    /// How long the server stays up without players, in milliseconds.
    pub inactivity_threshold_ms: u64,
    /// When a player was there last, in milliseconds.
    pub last_active_ms: u64,
    /// Why the server has shut down, once it has.
    pub stopped: Option<ShutdownReason>,
    /// How to reach players through a relay, if the server is to.
    pub proxy_settings: Option<ProxySettings>,
}

impl GameServer {
    /// A server on `port`, which the caller has bound. The time without
    /// players counts from 0 until the caller says otherwise.
    pub fn new_with_port(
        port: u16,
        use_inactivity_shutdown: bool,
        proxy_settings: Option<ProxySettings>,
    ) -> (server: Self)
        ensures
            server.port == port,
            server.use_inactivity_shutdown == use_inactivity_shutdown,
            server.inactivity_threshold_ms == INACTIVITY_THRESHOLD_MS,
            server.last_active_ms == 0,
            server.stopped is None,
            server.proxy_settings == proxy_settings,
    {
        GameServer {
            port,
            use_inactivity_shutdown,
            inactivity_threshold_ms: INACTIVITY_THRESHOLD_MS,
            last_active_ms: 0,
            stopped: None,
            proxy_settings,
        }
    }

    /// A server on the first port of `port_range` that `bind` can bind.
    /// The ports are tried in ascending order, each at most once, and none
    /// behind the first that is bound. Fails exactly when `bind` has
    /// refused every port of the range.
    pub fn new_with_port_in_range<F: Fn(u16) -> bool>(
        port_range: Range<u16>,
        use_inactivity_shutdown: bool,
        proxy_settings: Option<ProxySettings>,
        bind: F,
    ) -> (r: Result<Self, NoPortAvailable>)
        requires
            forall|port: u16|
                port_range.start <= port < port_range.end ==> call_requires(bind, (port,)),
        ensures
            match r {
                Ok(server) => {
                    &&& port_range.start <= server.port < port_range.end
                    &&& call_ensures(bind, (server.port,), true)
                    &&& forall|port: u16|
                        port_range.start <= port < server.port ==> call_ensures(
                            bind,
                            (port,),
                            false,
                        )
                    &&& server.use_inactivity_shutdown == use_inactivity_shutdown
                    &&& server.inactivity_threshold_ms == INACTIVITY_THRESHOLD_MS
                    &&& server.last_active_ms == 0
                    &&& server.stopped is None
                    &&& server.proxy_settings == proxy_settings
                },
                Err(_) => forall|port: u16|
                    port_range.start <= port < port_range.end ==> call_ensures(
                        bind,
                        (port,),
                        false,
                    ),
            },
    {
        let mut port: u16 = port_range.start;
        while port < port_range.end
            invariant
                port_range.start <= port_range.end ==> port_range.start <= port <= port_range.end,
                port_range.start > port_range.end ==> port == port_range.start,
                forall|p: u16|
                    port_range.start <= p < port_range.end ==> call_requires(bind, (p,)),
                forall|p: u16| port_range.start <= p < port ==> call_ensures(bind, (p,), false),
            decreases port_range.end - port,
        {
            if bind(port) {
                return Ok(Self::new_with_port(port, use_inactivity_shutdown, proxy_settings));
            }
            port = port + 1;
        }
        Err(NoPortAvailable)
    }

    /// Time since a player was there last, in milliseconds, at time
    /// `now_ms`. A clock that has gone back counts as no time at all.
    pub open spec fn idle_ms(&self, now_ms: u64) -> int {
        if now_ms >= self.last_active_ms {
            now_ms - self.last_active_ms
        } else {
            0
        }
    }

    /// The state and the action that follow when the loop wakes up to
    /// `event` in state `self`.
    pub open spec fn next(self, event: LoopEvent) -> (GameServer, LoopAction) {
        if self.stopped is Some {
            (self, LoopAction::Shutdown(self.stopped->0))
        } else {
            match event {
                LoopEvent::Incoming { accepted } => (
                    self,
                    if accepted {
                        LoopAction::RunConnection
                    } else {
                        LoopAction::Continue
                    },
                ),
                LoopEvent::SimTick => (self, LoopAction::Tick),
                LoopEvent::PlayerJoined { now_ms } => (
                    GameServer { last_active_ms: now_ms, ..self },
                    LoopAction::Continue,
                ),
                LoopEvent::InactivityCheck { now_ms, player_count } => {
                    if !self.use_inactivity_shutdown {
                        (self, LoopAction::Continue)
                    } else if player_count != 0 {
                        (GameServer { last_active_ms: now_ms, ..self }, LoopAction::Continue)
                    } else if self.idle_ms(now_ms) > self.inactivity_threshold_ms {
                        (
                            GameServer { stopped: Some(ShutdownReason::Inactivity), ..self },
                            LoopAction::Shutdown(ShutdownReason::Inactivity),
                        )
                    } else {
                        (self, LoopAction::Continue)
                    }
                },
                LoopEvent::EndpointClosed => (
                    GameServer { stopped: Some(ShutdownReason::NoMoreConnections), ..self },
                    LoopAction::Shutdown(ShutdownReason::NoMoreConnections),
                ),
            }
        }
    }

    /// Decides what the main loop does about `event`.
    ///
    /// A connection that was accepted gets a session; one that was not is
    /// passed over. A look at the players shuts the server down when
    /// nobody is there and nobody has been for longer than the threshold;
    /// with players there, or on a join, the time without players starts
    /// anew. A closed endpoint shuts the server down. A server that has
    /// shut down stays so.
    pub fn run(&mut self, event: LoopEvent) -> (action: LoopAction)
        ensures
            (*final(self), action) == (*old(self)).next(event),
    {
        match self.stopped {
            Some(reason) => {
                return LoopAction::Shutdown(reason);
            },
            None => {},
        }
        match event {
            LoopEvent::Incoming { accepted } => {
                if accepted {
                    LoopAction::RunConnection
                } else {
                    LoopAction::Continue
                }
            },
            LoopEvent::SimTick => LoopAction::Tick,
            LoopEvent::PlayerJoined { now_ms } => {
                self.last_active_ms = now_ms;
                LoopAction::Continue
            },
            LoopEvent::InactivityCheck { now_ms, player_count } => {
                if !self.use_inactivity_shutdown {
                    LoopAction::Continue
                } else if player_count != 0 {
                    self.last_active_ms = now_ms;
                    LoopAction::Continue
                } else {
                    let idle = if now_ms >= self.last_active_ms {
                        now_ms - self.last_active_ms
                    } else {
                        0
                    };
                    if idle > self.inactivity_threshold_ms {
                        self.stopped = Some(ShutdownReason::Inactivity);
                        LoopAction::Shutdown(ShutdownReason::Inactivity)
                    } else {
                        LoopAction::Continue
                    }
                }
            },
            LoopEvent::EndpointClosed => {
                self.stopped = Some(ShutdownReason::NoMoreConnections);
                LoopAction::Shutdown(ShutdownReason::NoMoreConnections)
            },
        }
    }

    /// The server after one look at the players at each of `times`, with
    /// nobody there.
    pub open spec fn after_idle_checks(self, times: Seq<u64>) -> GameServer
        decreases times.len(),
    {
        if times.len() == 0 {
            self
        } else {
            self.next(LoopEvent::InactivityCheck { now_ms: times[0], player_count: 0 }).0.after_idle_checks(
            times.drop_first())
        }
    }
}

/// A server that watches for inactivity shuts down at the first look that
/// finds nobody there after more than the threshold without players.
pub proof fn lemma_inactivity_shuts_down(server: GameServer, now_ms: u64)
    requires
        server.stopped is None,
        server.use_inactivity_shutdown,
        now_ms - server.last_active_ms > server.inactivity_threshold_ms,
    ensures
        server.next(LoopEvent::InactivityCheck { now_ms, player_count: 0 }).1
            == LoopAction::Shutdown(ShutdownReason::Inactivity),
        server.next(LoopEvent::InactivityCheck { now_ms, player_count: 0 }).0.stopped == Some(
            ShutdownReason::Inactivity,
        ),
{
}

/// A join starts the time without players anew: after a player has joined
/// at `joined_ms`, no look at the players up to the threshold later shuts
/// the server down, however many there are and even if each finds nobody
/// there.
pub proof fn lemma_join_resets_inactivity(server: GameServer, joined_ms: u64, times: Seq<u64>)
    requires
        server.stopped is None,
        forall|i: int|
            0 <= i < times.len() ==> #[trigger] times[i] - joined_ms
                <= server.inactivity_threshold_ms,
    ensures
        server.next(LoopEvent::PlayerJoined { now_ms: joined_ms }).0.after_idle_checks(
            times,
        ).stopped is None,
{
    let joined = server.next(LoopEvent::PlayerJoined { now_ms: joined_ms }).0;
    lemma_idle_checks_within_threshold(joined, times);
}

/// Looks at the players within the threshold of the last activity change
/// nothing.
pub proof fn lemma_idle_checks_within_threshold(server: GameServer, times: Seq<u64>)
    requires
        server.stopped is None,
        forall|i: int|
            0 <= i < times.len() ==> #[trigger] times[i] - server.last_active_ms
                <= server.inactivity_threshold_ms,
    ensures
        server.after_idle_checks(times) == server,
    decreases times.len(),
{
    if times.len() > 0 {
        let rest = times.drop_first();
        assert(times[0] - server.last_active_ms <= server.inactivity_threshold_ms);
        assert forall|i: int| 0 <= i < rest.len() implies #[trigger] rest[i]
            - server.last_active_ms <= server.inactivity_threshold_ms by {
            assert(rest[i] == times[i + 1]);
        }
        lemma_idle_checks_within_threshold(server, rest);
    }
}

} // verus!
