//! The lifecycle coordinator: the order in which the agent starts, and the
//! order in which it shuts down.
//!
//! The supervisor is a state machine. It is told what happened
//! ([`Signal`]) and says what to do next ([`Order`]).

use vstd::prelude::*;
use crate::config::Config;

verus! {

/// Where the agent stands in its life.
#[derive(Debug, Clone, Copy, PartialEq, Eq, Structural)]
pub enum Stage {
    /// Nothing started yet.
    Created,
    /// Registration with the control plane is under way.
    Registering,
    /// The loops run.
    Running,
    /// The dispatcher was told to stop and is finishing its message.
    Draining,
    /// Work already handed to the engine is given time to end.
    Grace,
    /// The agent is being unregistered.
    Unregistering,
    /// The agent is done.
    Stopped,
}

/// What the supervisor is told.
#[derive(Debug, Clone, Copy, PartialEq, Eq, Structural)]
pub enum Signal {
    /// The process asks the supervisor to begin.
    Start,
    RegistrationSucceeded,
    RegistrationFailed,
    /// The process was asked to shut down.
    ShutdownRequested,
    /// The dispatcher left its loop.
    DispatcherExited,
    /// The drain period is over.
    DrainElapsed,
    /// The grace period is over.
    GraceElapsed,
    /// The attempt to unregister ended, well or not.
    UnregisterFinished,
}

/// What the supervisor asks for.
#[derive(Debug, Clone, Copy, PartialEq, Eq, Structural)]
pub enum Order {
    /// Register the agent with the control plane.
    Register,
    /// Start the dispatcher, the heartbeat and the telemetry loop, and the
    /// local control socket where `with_local_socket` says so.
    StartLoops { with_local_socket: bool },
    /// Ask the dispatcher to shut down, and report `DispatcherExited` when
    /// its loop ends or `DrainElapsed` after so many milliseconds,
    /// whichever comes first.
    StopDispatcher { drain_ms: u64 },
    /// Report `GraceElapsed` after so many milliseconds.
    Wait { grace_ms: u64 },
    /// Try once to unregister the agent, and report `UnregisterFinished`.
    Unregister,
    /// Leave the process; `clean` is false where startup failed.
    Exit { clean: bool },
    /// Nothing to do for this signal.
    Nothing,
}

/// Milliseconds a dispatcher gets to finish its message, by default.
pub const DEFAULT_DRAIN_MS: u64 = 30000;

/// Milliseconds that work in flight gets to end, by default.
pub const DEFAULT_GRACE_MS: u64 = 5000;

/// The lifecycle coordinator.
#[derive(Debug, Clone, Copy, PartialEq, Eq, Structural)]
pub struct Supervisor {
    pub stage: Stage,
    /// Whether registration has succeeded.
    pub registered: bool,
    /// Whether the dispatcher's loop is running.
    pub dispatcher_running: bool,
    /// Whether the local control socket is served.
    pub local_socket: bool,
    pub drain_ms: u64,
    pub grace_ms: u64,
}

impl Supervisor {
    pub open spec fn at(self, stage: Stage) -> Supervisor {
        Supervisor { stage, ..self }
    }

    /// The supervisor after `signal`, and what it asks for.
    pub open spec fn next(self, signal: Signal) -> (Supervisor, Order) {
        match (self.stage, signal) {
            (Stage::Created, Signal::Start) => (self.at(Stage::Registering), Order::Register),
            (Stage::Created, Signal::ShutdownRequested) => (
                self.at(Stage::Stopped),
                Order::Exit { clean: true },
            ),
            (Stage::Registering, Signal::RegistrationSucceeded) => (
                Supervisor {
                    stage: Stage::Running,
                    registered: true,
                    dispatcher_running: true,
                    ..self
                },
                Order::StartLoops { with_local_socket: self.local_socket },
            ),
            (Stage::Registering, Signal::RegistrationFailed) => (
                self.at(Stage::Stopped),
                Order::Exit { clean: false },
            ),
            (Stage::Registering, Signal::ShutdownRequested) => (
                self.at(Stage::Stopped),
                Order::Exit { clean: true },
            ),
            (Stage::Running, Signal::DispatcherExited) => (
                Supervisor { dispatcher_running: false, ..self },
                Order::Nothing,
            ),
            (Stage::Running, Signal::ShutdownRequested) => if self.dispatcher_running {
                (self.at(Stage::Draining), Order::StopDispatcher { drain_ms: self.drain_ms })
            } else {
                (self.at(Stage::Grace), Order::Wait { grace_ms: self.grace_ms })
            },
            (Stage::Draining, Signal::DispatcherExited) => (
                Supervisor { stage: Stage::Grace, dispatcher_running: false, ..self },
                Order::Wait { grace_ms: self.grace_ms },
            ),
            (Stage::Draining, Signal::DrainElapsed) => (
                self.at(Stage::Grace),
                Order::Wait { grace_ms: self.grace_ms },
            ),
            (Stage::Grace, Signal::GraceElapsed) => (
                self.at(Stage::Unregistering),
                Order::Unregister,
            ),
            (Stage::Unregistering, Signal::UnregisterFinished) => (
                self.at(Stage::Stopped),
                Order::Exit { clean: true },
            ),
            _ => (self, Order::Nothing),
        }
    }

    /// A supervisor that has started nothing, with the given drain and grace
    /// periods in milliseconds. The local control socket is served where
    /// the configuration enables local mode.
    pub fn new(config: &Config, drain_ms: u64, grace_ms: u64) -> (supervisor: Supervisor)
        ensures
            supervisor == (Supervisor {
                stage: Stage::Created,
                registered: false,
                dispatcher_running: false,
                local_socket: config.local.enabled,
                drain_ms,
                grace_ms,
            }),
    {
        Supervisor {
            stage: Stage::Created,
            registered: false,
            dispatcher_running: false,
            local_socket: config.local.enabled,
            drain_ms,
            grace_ms,
        }
    }

    /// Takes one signal and answers with the next order.
    pub fn step(&mut self, signal: Signal) -> (order: Order)
        ensures
            (*final(self), order) == old(self).next(signal),
    {
        match (self.stage, signal) {
            (Stage::Created, Signal::Start) => {
                self.stage = Stage::Registering;
                Order::Register
            },
            (Stage::Created, Signal::ShutdownRequested) => {
                self.stage = Stage::Stopped;
                Order::Exit { clean: true }
            },
            (Stage::Registering, Signal::RegistrationSucceeded) => {
                self.stage = Stage::Running;
                self.registered = true;
                self.dispatcher_running = true;
                Order::StartLoops { with_local_socket: self.local_socket }
            },
            (Stage::Registering, Signal::RegistrationFailed) => {
                self.stage = Stage::Stopped;
                Order::Exit { clean: false }
            },
            (Stage::Registering, Signal::ShutdownRequested) => {
                self.stage = Stage::Stopped;
                Order::Exit { clean: true }
            },
            (Stage::Running, Signal::DispatcherExited) => {
                self.dispatcher_running = false;
                Order::Nothing
            },
            (Stage::Running, Signal::ShutdownRequested) => {
                if self.dispatcher_running {
                    self.stage = Stage::Draining;
                    Order::StopDispatcher { drain_ms: self.drain_ms }
                } else {
                    self.stage = Stage::Grace;
                    Order::Wait { grace_ms: self.grace_ms }
                }
            },
            (Stage::Draining, Signal::DispatcherExited) => {
                self.stage = Stage::Grace;
                self.dispatcher_running = false;
                Order::Wait { grace_ms: self.grace_ms }
            },
            (Stage::Draining, Signal::DrainElapsed) => {
                self.stage = Stage::Grace;
                Order::Wait { grace_ms: self.grace_ms }
            },
            (Stage::Grace, Signal::GraceElapsed) => {
                self.stage = Stage::Unregistering;
                Order::Unregister
            },
            (Stage::Unregistering, Signal::UnregisterFinished) => {
                self.stage = Stage::Stopped;
                Order::Exit { clean: true }
            },
            _ => Order::Nothing,
        }
    }

    /// Whether the agent is done.
    pub fn is_stopped(&self) -> (stopped: bool)
        ensures
            stopped == (self.stage == Stage::Stopped),
    {
        self.stage == Stage::Stopped
    }
}

/// The orders that a supervisor gives when it is told `signals`, one after
/// the other, and where it then stands.
pub open spec fn run(start: Supervisor, signals: Seq<Signal>) -> (Supervisor, Seq<Order>)
    decreases signals.len(),
{
    if signals.len() == 0 {
        (start, Seq::<Order>::empty())
    } else {
        let (before, orders) = run(start, signals.drop_last());
        let (after, order) = before.next(signals.last());
        (after, orders.push(order))
    }
}

/// How often `order` occurs in `orders`.
pub open spec fn occurrences(orders: Seq<Order>, order: Order) -> nat
    decreases orders.len(),
{
    if orders.len() == 0 {
        0
    } else {
        occurrences(orders.drop_last(), order) + if orders.last() == order {
            1nat
        } else {
            0nat
        }
    }
}

/// A supervisor has unregistered, or is about to.
pub open spec fn past_unregister(stage: Stage) -> bool {
    stage == Stage::Unregistering || stage == Stage::Stopped
}

/// A state that a supervisor can reach from its creation.
pub open spec fn reachable(s: Supervisor) -> bool {
    &&& s.stage == Stage::Created || s.stage == Stage::Registering ==> !s.registered
    &&& s.stage == Stage::Running || s.stage == Stage::Draining || s.stage == Stage::Grace
        || s.stage == Stage::Unregistering ==> s.registered
}

/// Whatever a supervisor is told, from its creation on, it asks at most
/// once for the agent to be unregistered: exactly once where it has come
/// to the end of a shutdown after a successful registration, and never
/// before that or where registration did not succeed.
pub proof fn law_unregister_once(start: Supervisor, signals: Seq<Signal>)
    requires
        start.stage == Stage::Created,
        !start.registered,
    ensures
        occurrences(run(start, signals).1, Order::Unregister) == if past_unregister(
            run(start, signals).0.stage,
        ) && run(start, signals).0.registered {
            1nat
        } else {
            0nat
        },
        reachable(run(start, signals).0),
    decreases signals.len(),
{
    if signals.len() > 0 {
        law_unregister_once(start, signals.drop_last());
        let (before, orders) = run(start, signals.drop_last());
        let (after, order) = before.next(signals.last());
        assert(orders.push(order).drop_last() =~= orders);
        assert(orders.push(order).last() == order);
    }
}

/// Shutdown does not wait for the dispatcher beyond the drain period: a
/// running supervisor that is asked to shut down comes to its end on the
/// drain period, the grace period and the end of the one attempt to
/// unregister, whether or not the dispatcher ever reports that it left
/// its loop.
pub proof fn law_shutdown_is_bounded(running: Supervisor)
    requires
        running.stage == Stage::Running,
    ensures
        ({
            let (draining, first) = running.next(Signal::ShutdownRequested);
            let (grace, second) = draining.next(Signal::DrainElapsed);
            let (unregistering, third) = (if draining.stage == Stage::Draining {
                grace
            } else {
                draining
            }).next(Signal::GraceElapsed);
            let (stopped, last) = unregistering.next(Signal::UnregisterFinished);
            &&& third == Order::Unregister
            &&& last == Order::Exit { clean: true }
            &&& stopped.stage == Stage::Stopped
            &&& running.dispatcher_running ==> first == Order::StopDispatcher {
                drain_ms: running.drain_ms,
            }
        }),
{
}

} // verus!
