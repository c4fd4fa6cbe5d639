//! Messages exchanged with the control plane over the message bus.

use vstd::prelude::*;

verus! {

/// The fixed vocabulary of commands the agent understands.
#[derive(Debug, Clone, Copy, PartialEq, Eq, Structural)]
pub enum CommandType {
    Deploy,
    Rollback,
    Scale,
    Stop,
    GetStatus,
    HealthCheck,
    Update,
}

/// The kinds of outcome records the agent emits.
#[derive(Debug, Clone, Copy, PartialEq, Eq, Structural)]
pub enum EventType {
    DeployStarted,
    DeployProgress,
    DeployCompleted,
    DeployFailed,
    RollbackStarted,
    RollbackCompleted,
    RollbackFailed,
    StatusReport,
    MetricsReport,
    ErrorReport,
}

/// Progress of one deploy attempt.
#[derive(Debug, Clone, Copy, PartialEq, Eq, Structural)]
pub enum DeployStatus {
    Started,
    Progressing,
    Completed,
    Failed,
}

impl DeployStatus {
    /// A terminal status closes the event sequence of a deploy attempt.
    pub open spec fn terminal(self) -> bool {
        self == DeployStatus::Completed || self == DeployStatus::Failed
    }

    pub fn is_terminal(self) -> (b: bool)
        ensures
            b == self.terminal(),
    {
        match self {
            DeployStatus::Completed | DeployStatus::Failed => true,
            _ => false,
        }
    }

    /// The event type under which a deploy event of this status is published.
    pub open spec fn event_type(self) -> EventType {
        match self {
            DeployStatus::Started => EventType::DeployStarted,
            DeployStatus::Progressing => EventType::DeployProgress,
            DeployStatus::Completed => EventType::DeployCompleted,
            DeployStatus::Failed => EventType::DeployFailed,
        }
    }
}

/// What the sender says about a command. `retry_attempt` is advisory: the
/// agent never reads it to decide anything.
#[derive(Debug)]
pub struct CommandMetadata {
    pub user_id: Option<String>,
    pub project_id: Option<String>,
    pub retry_attempt: u32,
}

pub struct CommandMetadataView {
    pub user_id: Option<Seq<char>>,
    pub project_id: Option<Seq<char>>,
    pub retry_attempt: u32,
}

impl View for CommandMetadata {
    type V = CommandMetadataView;

    open spec fn view(&self) -> CommandMetadataView {
        CommandMetadataView {
            user_id: self.user_id.deep_view(),
            project_id: self.project_id.deep_view(),
            retry_attempt: self.retry_attempt,
        }
    }
}

/// One unit of work received from the bus. `timestamp` counts milliseconds
/// since the Unix epoch.
#[derive(Debug)]
pub struct CommandEnvelope {
    pub command_id: String,
    pub command_type: CommandType,
    pub payload: Vec<u8>,
    pub correlation_id: String,
    pub causation_id: Option<String>,
    pub timestamp: i64,
    pub metadata: CommandMetadata,
}

pub struct CommandEnvelopeView {
    pub command_id: Seq<char>,
    pub command_type: CommandType,
    pub payload: Seq<u8>,
    pub correlation_id: Seq<char>,
    pub causation_id: Option<Seq<char>>,
    pub timestamp: i64,
    pub metadata: CommandMetadataView,
}

impl View for CommandEnvelope {
    type V = CommandEnvelopeView;

    open spec fn view(&self) -> CommandEnvelopeView {
        CommandEnvelopeView {
            command_id: self.command_id@,
            command_type: self.command_type,
            payload: self.payload@,
            correlation_id: self.correlation_id@,
            causation_id: self.causation_id.deep_view(),
            timestamp: self.timestamp,
            metadata: self.metadata@,
        }
    }
}

/// One outcome record emitted by the agent. `timestamp` counts milliseconds
/// since the Unix epoch.
#[derive(Debug)]
pub struct EventEnvelope {
    pub event_id: String,
    pub event_type: EventType,
    pub payload: Vec<u8>,
    pub correlation_id: String,
    pub causation_id: String,
    pub timestamp: i64,
    pub agent_id: String,
}

pub struct EventEnvelopeView {
    pub event_id: Seq<char>,
    pub event_type: EventType,
    pub payload: Seq<u8>,
    pub correlation_id: Seq<char>,
    pub causation_id: Seq<char>,
    pub timestamp: i64,
    pub agent_id: Seq<char>,
}

impl View for EventEnvelope {
    type V = EventEnvelopeView;

    open spec fn view(&self) -> EventEnvelopeView {
        EventEnvelopeView {
            event_id: self.event_id@,
            event_type: self.event_type,
            payload: self.payload@,
            correlation_id: self.correlation_id@,
            causation_id: self.causation_id@,
            timestamp: self.timestamp,
            agent_id: self.agent_id@,
        }
    }
}

/// No two entries of an environment share a variable name.
pub open spec fn names_unique(env: Seq<(Seq<char>, Seq<char>)>) -> bool {
    forall|i: int, j: int| 0 <= i < j < env.len() ==> (#[trigger] env[i]).0 != (#[trigger] env[j]).0
}

/// The payload of a deploy command: the project, its stack descriptor and
/// its environment, one `(name, value)` entry per variable in the order in
/// which the entries are to be rendered.
#[derive(Debug)]
pub struct DeployCommand {
    pub project_id: String,
    pub docker_stack_yml: String,
    pub env_vars: Vec<(String, String)>,
}

pub struct DeployCommandView {
    pub project_id: Seq<char>,
    pub docker_stack_yml: Seq<char>,
    pub env_vars: Seq<(Seq<char>, Seq<char>)>,
}

impl DeployCommandView {
    /// A deploy command is well formed when its environment maps each name once.
    pub open spec fn wf(self) -> bool {
        names_unique(self.env_vars)
    }
}

impl View for DeployCommand {
    type V = DeployCommandView;

    open spec fn view(&self) -> DeployCommandView {
        DeployCommandView {
            project_id: self.project_id@,
            docker_stack_yml: self.docker_stack_yml@,
            env_vars: self.env_vars.deep_view(),
        }
    }
}

impl DeployCommand {
    /// Whether the environment names each variable once.
    pub fn is_well_formed(&self) -> (ok: bool)
        ensures
            ok == self@.wf(),
    {
        let n = self.env_vars.len();
        let ghost env = self.env_vars.deep_view();
        let mut j: usize = 0;
        while j < n
            invariant
                n == self.env_vars.len(),
                env == self.env_vars.deep_view(),
                j <= n,
                forall|a: int, b: int| 0 <= a < b < j ==> (#[trigger] env[a]).0 != (#[trigger] env[b]).0,
            decreases n - j,
        {
            let mut i: usize = 0;
            while i < j
                invariant
                    n == self.env_vars.len(),
                    env == self.env_vars.deep_view(),
                    i <= j < n,
                    forall|a: int| 0 <= a < i ==> (#[trigger] env[a]).0 != env[j as int].0,
                decreases j - i,
            {
                if self.env_vars[i].0 == self.env_vars[j].0 {
                    assert(env[i as int].0 == env[j as int].0);
                    return false;
                }
                i += 1;
            }
            j += 1;
        }
        true
    }
}

#[verifier::external_type_specification]
#[verifier::external_body]
pub struct ExJsonValue(serde_json::Value);

/// The payload of a deploy-related event. `details` is carried through to
/// the consumer unread.
#[derive(Debug)]
pub struct DeployEvent {
    pub project_id: String,
    pub status: DeployStatus,
    pub message: String,
    pub details: Option<serde_json::Value>,
}

pub struct DeployEventView {
    pub project_id: Seq<char>,
    pub status: DeployStatus,
    pub message: Seq<char>,
    pub details: Option<serde_json::Value>,
}

impl View for DeployEvent {
    type V = DeployEventView;

    open spec fn view(&self) -> DeployEventView {
        DeployEventView {
            project_id: self.project_id@,
            status: self.status,
            message: self.message@,
            details: self.details,
        }
    }
}

} // verus!
