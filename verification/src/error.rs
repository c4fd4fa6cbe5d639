//! The agent's error taxonomy.

use vstd::prelude::*;
use crate::text::concat2;

verus! {

/// The class of a failure, without its diagnostic text.
#[derive(Debug, Clone, Copy, PartialEq, Eq, Structural)]
pub enum ErrorKind {
    Config,
    Grpc,
    GrpcTransport,
    Kafka,
    Docker,
    Serialization,
    Io,
    CommandExecution,
    HealthCheck,
    Update,
    Authentication,
    InvalidState,
    Timeout,
    Unknown,
}

impl ErrorKind {
    /// Transport and timeout failures are transient: the same call may
    /// succeed when repeated. Every other class is final for the call.
    pub open spec fn transient(self) -> bool {
        self == ErrorKind::GrpcTransport || self == ErrorKind::Kafka || self == ErrorKind::Timeout
    }

    pub fn is_transient(self) -> (b: bool)
        ensures
            b == self.transient(),
    {
        match self {
            ErrorKind::GrpcTransport | ErrorKind::Kafka | ErrorKind::Timeout => true,
            _ => false,
        }
    }

    /// The words that introduce the diagnostic text of a failure of this class.
    pub open spec fn label(self) -> Seq<char> {
        match self {
            ErrorKind::Config => "Configuration error: "@,
            ErrorKind::Grpc => "gRPC error: "@,
            ErrorKind::GrpcTransport => "gRPC transport error: "@,
            ErrorKind::Kafka => "Kafka error: "@,
            ErrorKind::Docker => "Docker error: "@,
            ErrorKind::Serialization => "Serialization error: "@,
            ErrorKind::Io => "IO error: "@,
            ErrorKind::CommandExecution => "Command execution error: "@,
            ErrorKind::HealthCheck => "Health check failed: "@,
            ErrorKind::Update => "Update error: "@,
            ErrorKind::Authentication => "Authentication error: "@,
            ErrorKind::InvalidState => "Invalid state: "@,
            ErrorKind::Timeout => "Timeout: "@,
            ErrorKind::Unknown => "Unknown error: "@,
        }
    }

    pub fn prefix(self) -> (words: &'static str)
        ensures
            words@ == self.label(),
    {
        match self {
            ErrorKind::Config => "Configuration error: ",
            ErrorKind::Grpc => "gRPC error: ",
            ErrorKind::GrpcTransport => "gRPC transport error: ",
            ErrorKind::Kafka => "Kafka error: ",
            ErrorKind::Docker => "Docker error: ",
            ErrorKind::Serialization => "Serialization error: ",
            ErrorKind::Io => "IO error: ",
            ErrorKind::CommandExecution => "Command execution error: ",
            ErrorKind::HealthCheck => "Health check failed: ",
            ErrorKind::Update => "Update error: ",
            ErrorKind::Authentication => "Authentication error: ",
            ErrorKind::InvalidState => "Invalid state: ",
            ErrorKind::Timeout => "Timeout: ",
            ErrorKind::Unknown => "Unknown error: ",
        }
    }
}

/// A failure of the agent: its class and the diagnostic text that came with it.
/// Failures of the bus, the container engine, the control plane channel and the
/// file system carry the text of the underlying error.
#[derive(Debug)]
pub enum AgentError {
    Config(String),
    Grpc(String),
    GrpcTransport(String),
    Kafka(String),
    Docker(String),
    Serialization(String),
    Io(String),
    CommandExecution(String),
    HealthCheck(String),
    Update(String),
    Authentication(String),
    InvalidState(String),
    Timeout(String),
    Unknown(String),
}

/// What an [`AgentError`] is: a class and a text.
pub struct ErrorView {
    pub kind: ErrorKind,
    pub detail: Seq<char>,
}

impl View for AgentError {
    type V = ErrorView;

    open spec fn view(&self) -> ErrorView {
        ErrorView { kind: self.spec_kind(), detail: self.spec_detail() }
    }
}

impl ErrorView {
    /// The text shown for the failure: the class's words, then the diagnostic.
    pub open spec fn message(self) -> Seq<char> {
        self.kind.label() + self.detail
    }
}

impl AgentError {
    pub open spec fn spec_kind(&self) -> ErrorKind {
        match self {
            AgentError::Config(_) => ErrorKind::Config,
            AgentError::Grpc(_) => ErrorKind::Grpc,
            AgentError::GrpcTransport(_) => ErrorKind::GrpcTransport,
            AgentError::Kafka(_) => ErrorKind::Kafka,
            AgentError::Docker(_) => ErrorKind::Docker,
            AgentError::Serialization(_) => ErrorKind::Serialization,
            AgentError::Io(_) => ErrorKind::Io,
            AgentError::CommandExecution(_) => ErrorKind::CommandExecution,
            AgentError::HealthCheck(_) => ErrorKind::HealthCheck,
            AgentError::Update(_) => ErrorKind::Update,
            AgentError::Authentication(_) => ErrorKind::Authentication,
            AgentError::InvalidState(_) => ErrorKind::InvalidState,
            AgentError::Timeout(_) => ErrorKind::Timeout,
            AgentError::Unknown(_) => ErrorKind::Unknown,
        }
    }

    pub open spec fn spec_detail(&self) -> Seq<char> {
        match self {
            AgentError::Config(s) => s@,
            AgentError::Grpc(s) => s@,
            AgentError::GrpcTransport(s) => s@,
            AgentError::Kafka(s) => s@,
            AgentError::Docker(s) => s@,
            AgentError::Serialization(s) => s@,
            AgentError::Io(s) => s@,
            AgentError::CommandExecution(s) => s@,
            AgentError::HealthCheck(s) => s@,
            AgentError::Update(s) => s@,
            AgentError::Authentication(s) => s@,
            AgentError::InvalidState(s) => s@,
            AgentError::Timeout(s) => s@,
            AgentError::Unknown(s) => s@,
        }
    }

    /// Builds the failure of class `kind` with the diagnostic `detail`.
    pub fn of(kind: ErrorKind, detail: String) -> (err: AgentError)
        ensures
            err@ == (ErrorView { kind, detail: detail@ }),
    {
        match kind {
            ErrorKind::Config => AgentError::Config(detail),
            ErrorKind::Grpc => AgentError::Grpc(detail),
            ErrorKind::GrpcTransport => AgentError::GrpcTransport(detail),
            ErrorKind::Kafka => AgentError::Kafka(detail),
            ErrorKind::Docker => AgentError::Docker(detail),
            ErrorKind::Serialization => AgentError::Serialization(detail),
            ErrorKind::Io => AgentError::Io(detail),
            ErrorKind::CommandExecution => AgentError::CommandExecution(detail),
            ErrorKind::HealthCheck => AgentError::HealthCheck(detail),
            ErrorKind::Update => AgentError::Update(detail),
            ErrorKind::Authentication => AgentError::Authentication(detail),
            ErrorKind::InvalidState => AgentError::InvalidState(detail),
            ErrorKind::Timeout => AgentError::Timeout(detail),
            ErrorKind::Unknown => AgentError::Unknown(detail),
        }
    }

    /// The class of the failure.
    pub fn kind(&self) -> (k: ErrorKind)
        ensures
            k == self@.kind,
    {
        match self {
            AgentError::Config(_) => ErrorKind::Config,
            AgentError::Grpc(_) => ErrorKind::Grpc,
            AgentError::GrpcTransport(_) => ErrorKind::GrpcTransport,
            AgentError::Kafka(_) => ErrorKind::Kafka,
            AgentError::Docker(_) => ErrorKind::Docker,
            AgentError::Serialization(_) => ErrorKind::Serialization,
            AgentError::Io(_) => ErrorKind::Io,
            AgentError::CommandExecution(_) => ErrorKind::CommandExecution,
            AgentError::HealthCheck(_) => ErrorKind::HealthCheck,
            AgentError::Update(_) => ErrorKind::Update,
            AgentError::Authentication(_) => ErrorKind::Authentication,
            AgentError::InvalidState(_) => ErrorKind::InvalidState,
            AgentError::Timeout(_) => ErrorKind::Timeout,
            AgentError::Unknown(_) => ErrorKind::Unknown,
        }
    }

    /// The diagnostic text that came with the failure.
    pub fn detail(&self) -> (text: &String)
        ensures
            text@ == self@.detail,
    {
        match self {
            AgentError::Config(s) => s,
            AgentError::Grpc(s) => s,
            AgentError::GrpcTransport(s) => s,
            AgentError::Kafka(s) => s,
            AgentError::Docker(s) => s,
            AgentError::Serialization(s) => s,
            AgentError::Io(s) => s,
            AgentError::CommandExecution(s) => s,
            AgentError::HealthCheck(s) => s,
            AgentError::Update(s) => s,
            AgentError::Authentication(s) => s,
            AgentError::InvalidState(s) => s,
            AgentError::Timeout(s) => s,
            AgentError::Unknown(s) => s,
        }
    }

    /// Whether repeating the failed call may help.
    pub fn is_transient(&self) -> (b: bool)
        ensures
            b == self@.kind.transient(),
    {
        self.kind().is_transient()
    }

    /// The text shown for the failure, as reported to the control plane.
    pub fn message(&self) -> (text: String)
        ensures
            text@ == self@.message(),
    {
        concat2(self.kind().prefix(), self.detail().as_str())
    }
}

impl Clone for AgentError {
    fn clone(&self) -> (copy: Self)
        ensures
            copy == *self,
    {
        match self {
            AgentError::Config(s) => AgentError::Config(s.clone()),
            AgentError::Grpc(s) => AgentError::Grpc(s.clone()),
            AgentError::GrpcTransport(s) => AgentError::GrpcTransport(s.clone()),
            AgentError::Kafka(s) => AgentError::Kafka(s.clone()),
            AgentError::Docker(s) => AgentError::Docker(s.clone()),
            AgentError::Serialization(s) => AgentError::Serialization(s.clone()),
            AgentError::Io(s) => AgentError::Io(s.clone()),
            AgentError::CommandExecution(s) => AgentError::CommandExecution(s.clone()),
            AgentError::HealthCheck(s) => AgentError::HealthCheck(s.clone()),
            AgentError::Update(s) => AgentError::Update(s.clone()),
            AgentError::Authentication(s) => AgentError::Authentication(s.clone()),
            AgentError::InvalidState(s) => AgentError::InvalidState(s.clone()),
            AgentError::Timeout(s) => AgentError::Timeout(s.clone()),
            AgentError::Unknown(s) => AgentError::Unknown(s.clone()),
        }
    }
}

} // verus!
