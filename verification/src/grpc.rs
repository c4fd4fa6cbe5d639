//! The session with the control plane: how to reach it, the agent's
//! identity once registered, and what each heartbeat tick does.

use vstd::prelude::*;
use crate::config::Config;
use crate::error::{AgentError, ErrorKind, ErrorView};
use crate::retry::RetryPolicy;
use crate::text::concat2;

verus! {

/// The complaint with which `tonic` refuses an address as the address of
/// an endpoint; `None` where it accepts the address.
pub uninterp spec fn endpoint_rejection(address: Seq<char>) -> Option<Seq<char>>;

/// Calls `tonic::transport::Endpoint::from_shared`, which parses the
/// address as a URI, and gives the text of its error where it refuses the
/// address. The error is always of tonic's invalid-URI kind, which is
/// displayed as the same two words whatever was wrong with the address.
/// Nothing is reached over the network.
#[verifier::external_body]
fn check_endpoint(address: &str) -> (complaint: Option<String>)
    ensures
        complaint.deep_view() == endpoint_rejection(address@),
        complaint.deep_view() is Some ==> complaint.deep_view() == Some("invalid URI"@),
{
    tonic::transport::Endpoint::from_shared(address.to_string()).err().map(|e| e.to_string())
}

/// Seconds between keep-alive probes, on the connection and within HTTP/2.
pub const KEEPALIVE_SECS: u64 = 30;

/// Seconds after which an unanswered keep-alive probe closes the connection.
pub const KEEPALIVE_TIMEOUT_SECS: u64 = 10;

/// How to connect to the control plane. Durations are in seconds.
#[derive(Debug)]
pub struct EndpointSettings {
    pub url: String,
    pub timeout: u64,
    pub tcp_keepalive: u64,
    pub http2_keep_alive_interval: u64,
    pub keep_alive_timeout: u64,
}

/// What a heartbeat tick does.
#[derive(Debug)]
pub enum HeartbeatAction {
    /// Send a liveness signal for this agent.
    Send(String),
    /// The agent is not registered: send nothing this time.
    Skip,
    /// Shutdown was asked for: leave the heartbeat loop.
    Stop,
}

/// Where the session stands.
#[derive(Debug)]
pub enum SessionState {
    /// Not registered yet.
    Fresh,
    /// Registered under this identity.
    Registered(String),
    /// Closed for unregistering. The identity under which the session was
    /// registered, where it was, stays readable.
    Closed(Option<String>),
}

pub enum SessionStateView {
    Fresh,
    Registered(Seq<char>),
    Closed(Option<Seq<char>>),
}

impl View for SessionState {
    type V = SessionStateView;

    open spec fn view(&self) -> SessionStateView {
        match self {
            SessionState::Fresh => SessionStateView::Fresh,
            SessionState::Registered(id) => SessionStateView::Registered(id@),
            SessionState::Closed(id) => SessionStateView::Closed(id.deep_view()),
        }
    }
}

impl SessionStateView {
    /// The agent's identity, where it has one. Once set it stays, also
    /// after the session was closed.
    pub open spec fn agent_id(self) -> Option<Seq<char>> {
        match self {
            SessionStateView::Fresh => None,
            SessionStateView::Registered(id) => Some(id),
            SessionStateView::Closed(id) => id,
        }
    }

    /// The identity for which the control plane is asked to forget the
    /// agent when the session is closed now: that of a registered session
    /// that was not closed before, and none otherwise.
    pub open spec fn to_unregister(self) -> Option<Seq<char>> {
        match self {
            SessionStateView::Registered(id) => Some(id),
            _ => None,
        }
    }
}

/// The session of one agent with the control plane.
#[derive(Debug)]
pub struct GrpcClient {
    grpc_url: String,
    timeout: u64,
    retry_attempts: u32,
    heartbeat_interval: u64,
    state: SessionState,
}

pub struct SessionView {
    pub grpc_url: Seq<char>,
    pub timeout: u64,
    pub retry_attempts: u32,
    pub heartbeat_interval: u64,
    pub state: SessionStateView,
}

impl View for GrpcClient {
    type V = SessionView;

    closed spec fn view(&self) -> SessionView {
        SessionView {
            grpc_url: self.grpc_url@,
            timeout: self.timeout,
            retry_attempts: self.retry_attempts,
            heartbeat_interval: self.heartbeat_interval,
            state: self.state@,
        }
    }
}

/// What a heartbeat tick does for a session in `state`.
pub open spec fn heartbeat_of(state: SessionStateView, shutdown: bool) -> HeartbeatActionView {
    if shutdown {
        HeartbeatActionView::Stop
    } else {
        match state {
            SessionStateView::Registered(id) => HeartbeatActionView::Send(id),
            _ => HeartbeatActionView::Skip,
        }
    }
}

pub enum HeartbeatActionView {
    Send(Seq<char>),
    Skip,
    Stop,
}

impl View for HeartbeatAction {
    type V = HeartbeatActionView;

    open spec fn view(&self) -> HeartbeatActionView {
        match self {
            HeartbeatAction::Send(id) => HeartbeatActionView::Send(id@),
            HeartbeatAction::Skip => HeartbeatActionView::Skip,
            HeartbeatAction::Stop => HeartbeatActionView::Stop,
        }
    }
}

/// The state of a session after the control plane granted `id`: a fresh
/// session is registered under it, and any other stays as it is.
pub open spec fn registered_with(state: SessionStateView, id: Seq<char>) -> SessionStateView {
    match state {
        SessionStateView::Fresh => SessionStateView::Registered(id),
        other => other,
    }
}

/// The state of a session after it was closed.
pub open spec fn closed(state: SessionStateView) -> SessionStateView {
    SessionStateView::Closed(state.agent_id())
}

/// An identity, once set, is never changed or taken away: not by a later
/// grant of the control plane, and not by closing the session.
pub proof fn law_identity_is_set_once(before: SessionStateView, granted: Seq<char>)
    requires
        before.agent_id() is Some,
    ensures
        registered_with(before, granted).agent_id() == before.agent_id(),
        closed(before).agent_id() == before.agent_id(),
{
}

/// A failed registration is worth another attempt where the failure is
/// transient or the token was refused.
pub open spec fn registration_retryable(kind: ErrorKind) -> bool {
    kind.transient() || kind == ErrorKind::Authentication
}

impl GrpcClient {
    /// A session that is not registered yet, with the address, the timeout
    /// and the attempt count of the control plane configuration and the
    /// heartbeat interval of the health configuration.
    pub fn new(config: &Config) -> (client: GrpcClient)
        ensures
            client@ == (SessionView {
                grpc_url: config.control_plane.grpc_url@,
                timeout: config.control_plane.timeout,
                retry_attempts: config.control_plane.retry_attempts,
                heartbeat_interval: config.health.check_interval,
                state: SessionStateView::Fresh,
            }),
    {
        GrpcClient {
            grpc_url: config.control_plane.grpc_url.clone(),
            timeout: config.control_plane.timeout,
            retry_attempts: config.control_plane.retry_attempts,
            heartbeat_interval: config.health.check_interval,
            state: SessionState::Fresh,
        }
    }

    /// How to connect to the control plane, or a configuration error
    /// where the configured address is no valid endpoint address.
    pub fn connect(&self) -> (res: Result<EndpointSettings, AgentError>)
        ensures
            res is Ok <==> endpoint_rejection(self@.grpc_url) is None,
            res matches Ok(settings) ==> {
                &&& settings.url@ == self@.grpc_url
                &&& settings.timeout == self@.timeout
                &&& settings.tcp_keepalive == KEEPALIVE_SECS
                &&& settings.http2_keep_alive_interval == KEEPALIVE_SECS
                &&& settings.keep_alive_timeout == KEEPALIVE_TIMEOUT_SECS
            },
            res matches Err(error) ==> error@ == (ErrorView {
                kind: ErrorKind::Config,
                detail: "Invalid gRPC URL: "@ + "invalid URI"@,
            }),
    {
        Self::endpoint_for(&self.grpc_url, self.timeout, check_endpoint(self.grpc_url.as_str()))
    }

    /// The connection settings for `url`, given what the endpoint parser
    /// made of it: its complaint, or `None` where it accepted the address.
    pub fn endpoint_for(url: &String, timeout: u64, complaint: Option<String>) -> (res: Result<
        EndpointSettings,
        AgentError,
    >)
        ensures
            res is Ok <==> complaint is None,
            res matches Ok(settings) ==> {
                &&& settings.url@ == url@
                &&& settings.timeout == timeout
                &&& settings.tcp_keepalive == KEEPALIVE_SECS
                &&& settings.http2_keep_alive_interval == KEEPALIVE_SECS
                &&& settings.keep_alive_timeout == KEEPALIVE_TIMEOUT_SECS
            },
            res matches Err(error) ==> error@ == (ErrorView {
                kind: ErrorKind::Config,
                detail: "Invalid gRPC URL: "@ + complaint.unwrap()@,
            }),
    {
        match complaint {
            Some(text) => Err(AgentError::Config(concat2("Invalid gRPC URL: ", text.as_str()))),
            None => Ok(
                EndpointSettings {
                    url: url.clone(),
                    timeout,
                    tcp_keepalive: KEEPALIVE_SECS,
                    http2_keep_alive_interval: KEEPALIVE_SECS,
                    keep_alive_timeout: KEEPALIVE_TIMEOUT_SECS,
                },
            ),
        }
    }

    /// The policy under which registration is attempted.
    pub fn registration_policy(&self) -> (policy: RetryPolicy)
        ensures
            policy.spec_max_retries() == self@.retry_attempts,
            policy.spec_initial_delay() == crate::retry::DEFAULT_INITIAL_DELAY_MS,
            policy.spec_max_delay() == crate::retry::DEFAULT_MAX_DELAY_MS,
    {
        RetryPolicy::new(self.retry_attempts as usize)
    }

    /// Whether a registration that failed with `error` is attempted again
    /// while the policy allows.
    pub fn should_retry_registration(error: &AgentError) -> (retry: bool)
        ensures
            retry == registration_retryable(error@.kind),
    {
        let kind = error.kind();
        kind.is_transient() || kind == ErrorKind::Authentication
    }

    /// Takes the control plane's answer to a registration request. An
    /// identity is taken once: the first one granted stays for the life of
    /// the session. A failure is handed back as it came and changes nothing.
    pub fn register_agent(&mut self, reply: Result<String, AgentError>) -> (res: Result<
        (),
        AgentError,
    >)
        ensures
            final(self)@.grpc_url == old(self)@.grpc_url,
            final(self)@.timeout == old(self)@.timeout,
            final(self)@.retry_attempts == old(self)@.retry_attempts,
            final(self)@.heartbeat_interval == old(self)@.heartbeat_interval,
            res is Ok <==> reply is Ok && old(self)@.state is Fresh,
            reply matches Ok(granted) ==> final(self)@.state == registered_with(
                old(self)@.state,
                granted@,
            ),
            reply is Err ==> final(self)@.state == old(self)@.state,
            reply matches Err(refused) ==> (res matches Err(error) && error@ == refused@),
            reply is Ok && old(self)@.state is Registered ==> (res matches Err(error) && error@
                == (ErrorView {
                kind: ErrorKind::InvalidState,
                detail: "Agent already registered"@,
            })),
            reply is Ok && old(self)@.state is Closed ==> (res matches Err(error) && error@ == (
            ErrorView { kind: ErrorKind::InvalidState, detail: "Session is closed"@ })),
    {
        match reply {
            Err(refused) => Err(refused),
            Ok(agent_id) => match self.state {
                SessionState::Fresh => {
                    self.state = SessionState::Registered(agent_id);
                    Ok(())
                },
                SessionState::Registered(_) => Err(
                    AgentError::InvalidState(String::from_str("Agent already registered")),
                ),
                SessionState::Closed(_) => Err(
                    AgentError::InvalidState(String::from_str("Session is closed")),
                ),
            },
        }
    }

    /// The agent's identity; `None` until registration has succeeded, and
    /// the same identity ever after.
    pub fn agent_id(&self) -> (id: Option<String>)
        ensures
            id.deep_view() == self@.state.agent_id(),
    {
        match &self.state {
            SessionState::Fresh => None,
            SessionState::Registered(id) => Some(id.clone()),
            SessionState::Closed(Some(id)) => Some(id.clone()),
            SessionState::Closed(None) => None,
        }
    }

    /// Closes the session and gives the identity for which to ask the
    /// control plane to forget the agent: that of a registered session, the
    /// first time, and none for a session that was never registered or was
    /// closed before. So no call is made without an identity, and none is
    /// made twice. The identity itself is left as it is.
    pub fn unregister_agent(&mut self) -> (id: Option<String>)
        ensures
            id.deep_view() == old(self)@.state.to_unregister(),
            final(self)@ == (SessionView { state: closed(old(self)@.state), ..old(self)@ }),
            final(self)@.state.agent_id() == old(self)@.state.agent_id(),
    {
        let mut state = SessionState::Closed(None);
        core::mem::swap(&mut self.state, &mut state);
        match state {
            SessionState::Fresh => None,
            SessionState::Registered(id) => {
                self.state = SessionState::Closed(Some(id.clone()));
                Some(id)
            },
            SessionState::Closed(id) => {
                self.state = SessionState::Closed(id);
                None
            },
        }
    }

    /// What unregistering comes to, given how the call to the control
    /// plane ended, where one was made. Unregistering is best effort: a
    /// failed call is for the caller to log and never fails the shutdown.
    pub fn unregistered(&self, _call: Option<Result<(), AgentError>>) -> (res: Result<
        (),
        AgentError,
    >)
        ensures
            res is Ok,
    {
        Ok(())
    }

    /// Seconds between two heartbeat ticks.
    pub fn start_heartbeat(&self) -> (interval: u64)
        ensures
            interval == self@.heartbeat_interval,
    {
        self.heartbeat_interval
    }

    /// Seconds a tick waits for its call to end: the call timeout, and no
    /// longer than the tick interval.
    pub fn heartbeat_deadline(&self) -> (deadline: u64)
        ensures
            deadline <= self@.heartbeat_interval,
            deadline <= self@.timeout,
            deadline == self@.heartbeat_interval || deadline == self@.timeout,
    {
        if self.timeout <= self.heartbeat_interval {
            self.timeout
        } else {
            self.heartbeat_interval
        }
    }

    /// What this tick does: stop where shutdown was asked for, send a
    /// liveness signal where the agent is registered, and skip otherwise.
    /// How a signal fares does not change what later ticks do.
    pub fn send_heartbeat(&self, shutdown: bool) -> (action: HeartbeatAction)
        ensures
            action@ == heartbeat_of(self@.state, shutdown),
    {
        if shutdown {
            return HeartbeatAction::Stop;
        }
        match &self.state {
            SessionState::Registered(id) => HeartbeatAction::Send(id.clone()),
            _ => HeartbeatAction::Skip,
        }
    }

    /// Metrics are not forwarded over this session; the call succeeds and
    /// sends nothing.
    pub fn send_metrics(&self, _metrics: Vec<u8>) -> (res: Result<(), AgentError>)
        ensures
            res is Ok,
    {
        Ok(())
    }

    /// No update is offered over this session.
    pub fn check_for_updates(&self) -> (res: Result<Option<String>, AgentError>)
        ensures
            res == Ok::<Option<String>, AgentError>(None),
    {
        Ok(None)
    }
}

} // verus!
