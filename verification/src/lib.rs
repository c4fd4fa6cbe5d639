//! Decision logic of a host-resident deployment agent.
//!
//! The agent takes deployment commands from a control plane over a message
//! bus, carries them out against the local container engine and reports
//! what came of them as events. This library holds the rules: how a command
//! is routed, what a deploy writes and runs, which events are emitted and in
//! which order, how failures are retried, and how the process starts and
//! shuts down. It does no I/O. Each component is told what happened outside
//! and answers with what to do next; the process around it does the talking.

/// Text helpers shared by the components.
pub mod text;
/// The agent's error taxonomy.
pub mod error;
/// Fresh identifiers.
pub mod ident;
/// The wall clock.
pub mod clock;
/// The configuration and its validation rules.
pub mod config;
/// Messages exchanged over the bus.
pub mod types;
/// Bounded retry with exponential backoff and jitter.
pub mod retry;
/// Container-stack lifecycle.
pub mod docker;
/// Settings of the message-bus clients.
pub mod client_config;
/// The event publisher.
pub mod producer;
/// The command dispatcher as a state machine, and what holds of it.
pub mod dispatch_model;
/// The command dispatcher.
pub mod consumer;
/// The session with the control plane.
pub mod grpc;
/// The lifecycle coordinator.
pub mod supervisor;
/// Execution of local commands.
pub mod command;
/// Self-update of the agent.
pub mod update;
/// The local health endpoint.
pub mod health;
/// The local control socket.
pub mod ipc;
/// The telemetry loop.
pub mod telemetry;
