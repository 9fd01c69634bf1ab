//! Connection liveness and the watchdog that ends the process when the
//! connection stays dead for a whole grace period.
//!
//! The watchdog is a state machine: the caller performs the action that a step
//! returns (wait for the connection to die, sleep, terminate) and reports back
//! with the matching event. Time is counted in whole units.

use vstd::prelude::*;
use crate::text::{parse_decimal, parsed_decimal};

verus! {

/// Whether the transport connection is usable. Starts alive and may change
/// back and forth for as long as the process runs.
#[derive(Debug, Clone, Copy)]
pub struct DinkLiveness {
    alive: bool,
}

/// What a task that waits for the connection to die does next.
#[derive(Debug, Clone, Copy, PartialEq, Eq, Structural)]
pub enum WaitDecision {
    /// The connection is dead: the wait is over.
    Return,
    /// The connection is alive: sleep until the next `mark_dead`, then ask
    /// again.
    Park,
}

/// What a waiter for a dead connection does on a flag in the given state.
pub open spec fn wait_decision(alive: bool) -> WaitDecision {
    if alive {
        WaitDecision::Park
    } else {
        WaitDecision::Return
    }
}

impl DinkLiveness {
    /// The state of the flag.
    pub closed spec fn alive(&self) -> bool {
        self.alive
    }

    /// The tracker in its initial state.
    pub closed spec fn initial() -> DinkLiveness {
        DinkLiveness { alive: true }
    }

    /// The tracker after `mark_dead`.
    pub closed spec fn marked_dead(self) -> DinkLiveness {
        DinkLiveness { alive: false }
    }

    /// The tracker after `mark_alive`.
    pub closed spec fn marked_alive(self) -> DinkLiveness {
        DinkLiveness { alive: true }
    }

    /// A tracker starts alive. Marked dead it is dead, and a waiter for a
    /// dead connection then returns; marked alive again it is alive, and a
    /// waiter parks. Each mark holds whatever the state was before.
    pub proof fn law_marks(self)
        ensures
            Self::initial().alive(),
            !self.marked_dead().alive(),
            wait_decision(self.marked_dead().alive()) == WaitDecision::Return,
            self.marked_dead().marked_alive().alive(),
            self.marked_alive().alive(),
            wait_decision(self.marked_alive().alive()) == WaitDecision::Park,
    {
    }

    /// A tracker in the initial state, alive.
    pub fn new() -> (l: Self)
        ensures
            l == Self::initial(),
            l.alive(),
    {
        DinkLiveness { alive: true }
    }

    /// Records that the connection is usable (again).
    pub fn mark_alive(&mut self)
        ensures
            *final(self) == old(self).marked_alive(),
            final(self).alive(),
    {
        self.alive = true;
    }

    /// Records that the connection is lost. The caller then wakes every task
    /// parked in a wait for this.
    pub fn mark_dead(&mut self)
        ensures
            *final(self) == old(self).marked_dead(),
            !final(self).alive(),
    {
        self.alive = false;
    }

    /// Whether the connection is usable.
    pub fn is_alive(&self) -> (r: bool)
        ensures
            r == self.alive(),
    {
        self.alive
    }

    /// One turn of a wait for the connection to die: over at once where it is
    /// dead already, else parked until `mark_dead` wakes the waiter.
    pub fn wait_until_dead(&self) -> (d: WaitDecision)
        ensures
            d == wait_decision(self.alive()),
    {
        if self.alive {
            WaitDecision::Park
        } else {
            WaitDecision::Return
        }
    }
}

/// How the watchdog is set up.
#[derive(Debug, Clone, Copy)]
pub struct WatchdogConfig {
    /// Time units for which a dead connection is tolerated.
    pub grace_period: u64,
    /// Whether the terminal action ends the process. Where it does not, the
    /// watchdog reports that it triggered and stops.
    pub exit_on_timeout: bool,
}

impl Default for WatchdogConfig {
    /// A grace period of 120 units, after which the process is ended.
    fn default() -> (c: Self)
        ensures
            c.grace_period == 120,
            c.exit_on_timeout,
    {
        WatchdogConfig { grace_period: 120, exit_on_timeout: true }
    }
}

/// Where the watchdog stands.
#[derive(Debug, Clone, Copy, PartialEq, Eq, Structural)]
pub enum WatchdogPhase {
    /// Blocked until the connection is seen dead.
    Watching,
    /// Sleeping through the grace period.
    Grace,
    /// The terminal action was taken.
    Stopped,
}

/// What the caller reports to the watchdog.
#[derive(Debug, Clone, Copy, PartialEq, Eq, Structural)]
pub enum WatchdogEvent {
    /// The wait for a dead connection returned.
    Woken,
    /// The sleep through the grace period is over.
    Slept,
}

/// What the watchdog asks the caller to do.
#[derive(Debug, Clone, Copy, PartialEq, Eq, Structural)]
pub enum WatchdogAction {
    /// Block until the connection is seen dead, then report `Woken`.
    AwaitDead,
    /// Sleep for so many time units, then report `Slept`.
    Sleep { units: u64 },
    /// End the process.
    Exit,
    /// Report that the watchdog triggered, without ending the process.
    ReportTriggered,
    /// Nothing new: the event did not belong to the current phase.
    Ignore,
}

/// The terminal action under a configuration.
pub open spec fn terminal_action(config: WatchdogConfig) -> WatchdogAction {
    if config.exit_on_timeout {
        WatchdogAction::Exit
    } else {
        WatchdogAction::ReportTriggered
    }
}

/// The transition relation of the watchdog. `alive` is the state of the
/// liveness flag at the moment of the event; it counts only when the grace
/// period ends, so whatever the flag did during the sleep goes unnoticed.
pub open spec fn transition(
    config: WatchdogConfig,
    phase: WatchdogPhase,
    event: WatchdogEvent,
    alive: bool,
) -> (WatchdogPhase, WatchdogAction) {
    match (phase, event) {
        (WatchdogPhase::Watching, WatchdogEvent::Woken) => (
            WatchdogPhase::Grace,
            WatchdogAction::Sleep { units: config.grace_period },
        ),
        (WatchdogPhase::Grace, WatchdogEvent::Slept) => if alive {
            (WatchdogPhase::Watching, WatchdogAction::AwaitDead)
        } else {
            (WatchdogPhase::Stopped, terminal_action(config))
        },
        _ => (phase, WatchdogAction::Ignore),
    }
}

/// The watchdog: its configuration and its phase.
#[derive(Debug, Clone, Copy)]
pub struct Watchdog {
    config: WatchdogConfig,
    phase: WatchdogPhase,
}

impl Watchdog {
    /// The configuration that the watchdog was made with.
    pub closed spec fn config(&self) -> WatchdogConfig {
        self.config
    }

    /// The current phase.
    pub closed spec fn phase(&self) -> WatchdogPhase {
        self.phase
    }

    /// A watchdog that has yet to see the connection die. The caller starts
    /// it off with the action `AwaitDead`.
    pub fn new(config: WatchdogConfig) -> (w: Self)
        ensures
            w.config() == config,
            w.phase() == WatchdogPhase::Watching,
    {
        Watchdog { config, phase: WatchdogPhase::Watching }
    }

    /// The phase the watchdog is in.
    pub fn current_phase(&self) -> (p: WatchdogPhase)
        ensures
            p == self.phase(),
    {
        self.phase
    }

    /// Whether the watchdog took its terminal action.
    pub fn has_triggered(&self) -> (r: bool)
        ensures
            r == (self.phase() == WatchdogPhase::Stopped),
    {
        match self.phase {
            WatchdogPhase::Stopped => true,
            _ => false,
        }
    }

    /// Takes one event and returns what to do next. On `Slept` the liveness
    /// flag is read once: dead means the terminal action, alive means back to
    /// watching.
    pub fn step(&mut self, event: WatchdogEvent, liveness: &DinkLiveness) -> (action:
        WatchdogAction)
        ensures
            final(self).config() == old(self).config(),
            (final(self).phase(), action) == transition(
                old(self).config(),
                old(self).phase(),
                event,
                liveness.alive(),
            ),
    {
        match (self.phase, event) {
            (WatchdogPhase::Watching, WatchdogEvent::Woken) => {
                self.phase = WatchdogPhase::Grace;
                WatchdogAction::Sleep { units: self.config.grace_period }
            },
            (WatchdogPhase::Grace, WatchdogEvent::Slept) => {
                if liveness.is_alive() {
                    self.phase = WatchdogPhase::Watching;
                    WatchdogAction::AwaitDead
                } else {
                    self.phase = WatchdogPhase::Stopped;
                    if self.config.exit_on_timeout {
                        WatchdogAction::Exit
                    } else {
                        WatchdogAction::ReportTriggered
                    }
                }
            },
            _ => WatchdogAction::Ignore,
        }
    }
}

/// The first instant from `from` to `horizon` at which the connection is dead
/// on a timeline, which is when a wait for a dead connection returns.
pub open spec fn first_dead(timeline: spec_fn(nat) -> bool, from: nat, horizon: nat) -> Option<nat>
    decreases horizon + 1 - from,
{
    if from > horizon {
        None
    } else if !timeline(from) {
        Some(from)
    } else {
        first_dead(timeline, (from + 1) as nat, horizon)
    }
}

/// The instant at which a watchdog that starts watching at `now` takes its
/// terminal action, on a timeline that gives the state of the liveness flag at
/// every instant up to `horizon`; `None` where it takes none by then. The
/// caller is taken to perform each action as asked: a wait returns at the
/// first dead instant, a sleep takes exactly the time asked for.
pub open spec fn trigger_time(
    config: WatchdogConfig,
    timeline: spec_fn(nat) -> bool,
    now: nat,
    horizon: nat,
) -> Option<nat>
    decreases horizon + 1 - now,
{
    match first_dead(timeline, now, horizon) {
        None => None,
        Some(woken) => {
            let asleep = transition(config, WatchdogPhase::Watching, WatchdogEvent::Woken, false);
            let up = (woken + asleep.1->units) as nat;
            if up > horizon {
                None
            } else {
                let after = transition(config, asleep.0, WatchdogEvent::Slept, timeline(up));
                if after.0 == WatchdogPhase::Stopped {
                    Some(up)
                } else {
                    proof {
                        lemma_first_dead(timeline, now, horizon);
                    }
                    trigger_time(config, timeline, up, horizon)
                }
            }
        },
    }
}

/// A wait for a dead connection returns no earlier than it began, and at an
/// instant at which the connection is dead.
pub proof fn lemma_first_dead(timeline: spec_fn(nat) -> bool, from: nat, horizon: nat)
    ensures
        first_dead(timeline, from, horizon) matches Some(t) ==> from <= t <= horizon && !timeline(
            t,
        ),
        first_dead(timeline, from, horizon) is None ==> forall|t: nat|
            from <= t <= horizon ==> #[trigger] timeline(t),
    decreases horizon + 1 - from,
{
    if from <= horizon && timeline(from) {
        lemma_first_dead(timeline, (from + 1) as nat, horizon);
    }
}

/// While the connection is alive throughout, the watchdog never takes its
/// terminal action.
pub proof fn law_alive_never_triggers(
    config: WatchdogConfig,
    timeline: spec_fn(nat) -> bool,
    now: nat,
    horizon: nat,
)
    requires
        forall|t: nat| now <= t <= horizon ==> #[trigger] timeline(t),
    ensures
        trigger_time(config, timeline, now, horizon) is None,
{
    lemma_first_dead(timeline, now, horizon);
}

/// A connection that is dead from `start` on for a whole grace period and
/// beyond makes the watchdog take its terminal action exactly one grace period
/// after `start`: not earlier, and not later.
pub proof fn law_dead_triggers_after_grace(
    config: WatchdogConfig,
    timeline: spec_fn(nat) -> bool,
    start: nat,
    horizon: nat,
)
    requires
        start + config.grace_period <= horizon,
        forall|t: nat| start <= t <= horizon ==> !#[trigger] timeline(t),
    ensures
        trigger_time(config, timeline, start, horizon) == Some(
            (start + config.grace_period) as nat,
        ),
{
    assert(!timeline(start));
    assert(!timeline((start + config.grace_period) as nat));
}

/// A connection that dies at `start`, recovers before the grace period is
/// over and stays alive from then on never makes the watchdog take its
/// terminal action, however long the run.
pub proof fn law_recovery_cancels(
    config: WatchdogConfig,
    timeline: spec_fn(nat) -> bool,
    start: nat,
    recovered: nat,
    horizon: nat,
)
    requires
        !timeline(start),
        start < recovered <= start + config.grace_period,
        forall|t: nat| recovered <= t <= horizon ==> #[trigger] timeline(t),
    ensures
        trigger_time(config, timeline, start, horizon) is None,
{
    let up = (start + config.grace_period) as nat;
    if up <= horizon {
        assert(timeline(up));
        law_alive_never_triggers(config, timeline, up, horizon);
    }
}

/// What the task that watches the connection monitor does next.
#[derive(Debug, Clone, Copy, PartialEq, Eq, Structural)]
pub enum BridgeAction {
    /// Ask the monitor again after so many seconds.
    PollAgain { after_secs: u64 },
    /// Wait for the monitor to report the connection back, then mark the
    /// tracker alive.
    AwaitReconnect,
}

impl DinkLiveness {
    /// Takes what the connection monitor says. A lost connection marks the
    /// tracker dead; a connection that is up leaves it as it is.
    pub fn observe_connection(&mut self, connected: bool) -> (action: BridgeAction)
        ensures
            final(self).alive() == (connected && old(self).alive()),
            action == (if connected {
                BridgeAction::PollAgain { after_secs: 1 }
            } else {
                BridgeAction::AwaitReconnect
            }),
    {
        if connected {
            BridgeAction::PollAgain { after_secs: 1 }
        } else {
            self.mark_dead();
            BridgeAction::AwaitReconnect
        }
    }
}

/// The answer of the health probe.
#[derive(Debug, Clone, Copy)]
pub struct HealthReport {
    pub status_code: u16,
    pub status: &'static str,
    pub reason: Option<&'static str>,
}

/// Whether the probe finds the instance healthy: it does unless there is a
/// tracker and it says dead.
pub open spec fn healthy(liveness: Option<&DinkLiveness>) -> bool {
    match liveness {
        Some(l) => l.alive(),
        None => true,
    }
}

/// Answers the health probe: success while the connection is alive, and
/// where nothing tracks it; failure, with the reason, while it is dead.
pub fn health_report(liveness: Option<&DinkLiveness>) -> (r: HealthReport)
    ensures
        healthy(liveness) ==> r.status_code == 200 && r.status@ == "ok"@ && r.reason is None,
        !healthy(liveness) ==> r.status_code == 503 && r.status@ == "unhealthy"@ && (r.reason matches Some(
            why,
        ) && why@ == "nats_disconnected"@),
{
    let alive = match liveness {
        Some(l) => l.is_alive(),
        None => true,
    };
    if alive {
        HealthReport { status_code: 200, status: "ok", reason: None }
    } else {
        HealthReport { status_code: 503, status: "unhealthy", reason: Some("nats_disconnected") }
    }
}

/// The port of the health probe where none is configured.
pub const DEFAULT_HEALTH_PORT: u16 = 9468;

/// The port of the health probe: the configured one where it is an unsigned
/// decimal numeral that fits a port number, else the default.
pub open spec fn health_port_of(configured: Option<Seq<char>>) -> u16 {
    match configured {
        Some(text) => match parsed_decimal(text, 0xffff) {
            Some(p) => p as u16,
            None => DEFAULT_HEALTH_PORT,
        },
        None => DEFAULT_HEALTH_PORT,
    }
}

/// Reads the port of the health probe from its setting.
pub fn health_port(configured: Option<&str>) -> (port: u16)
    ensures
        port == health_port_of(
            match configured {
                Some(t) => Some(t@),
                None => None,
            },
        ),
{
    match configured {
        Some(text) => match parse_decimal(text, 0xffff) {
            Some(p) => p as u16,
            None => DEFAULT_HEALTH_PORT,
        },
        None => DEFAULT_HEALTH_PORT,
    }
}

} // verus!
