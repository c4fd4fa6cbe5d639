//! The event publisher: builds the outcome records that the agent emits on
//! its event topic.

use vstd::prelude::*;
use rdkafka::config::ClientConfig;
use crate::client_config::{
    apply_security,
    client_config_entries,
    client_config_new,
    client_config_set,
    join,
    joined,
    no_entries,
    secured,
};
use crate::clock::now_millis;
use crate::config::Config;
use crate::docker::{ServiceStatus, ServiceStatusView};
use crate::ident::{fresh_id, ID_LEN};
use crate::text::concat2;
use crate::types::{
    DeployEvent,
    DeployEventView,
    DeployStatus,
    EventEnvelope,
    EventEnvelopeView,
    EventType,
};

verus! {

/// The topic on which the agent named `agent_id` emits its events.
pub open spec fn events_topic_of(agent_id: Seq<char>) -> Seq<char> {
    "runner.events."@ + agent_id
}

/// The client parameters of the publisher for a bus configuration.
pub open spec fn producer_entries(
    brokers: Seq<Seq<char>>,
    enable_ssl: bool,
    ssl_ca_location: Option<Seq<char>>,
) -> Map<Seq<char>, Seq<char>> {
    secured(
        no_entries().insert("bootstrap.servers"@, joined(brokers, ","@)).insert(
            "message.timeout.ms"@,
            "30000"@,
        ).insert("queue.buffering.max.messages"@, "100000"@).insert(
            "queue.buffering.max.kbytes"@,
            "1048576"@,
        ).insert("batch.num.messages"@, "10000"@),
        enable_ssl,
        ssl_ca_location,
    )
}

/// What an event says, before it is serialised into an envelope's payload.
#[derive(Debug)]
pub enum EventBody {
    /// Progress or outcome of a deploy.
    Deploy(DeployEvent),
    /// The services of a stack.
    Services(Vec<ServiceStatus>),
    /// Whether the container engine answers.
    Health(bool),
    /// A command ended well and has nothing more to say.
    Done,
    /// A command failed, with the text of the failure.
    Failure(String),
}

pub enum EventBodyView {
    Deploy(DeployEventView),
    Services(Seq<ServiceStatusView>),
    Health(bool),
    Done,
    Failure(Seq<char>),
}

impl View for EventBody {
    type V = EventBodyView;

    open spec fn view(&self) -> EventBodyView {
        match self {
            EventBody::Deploy(event) => EventBodyView::Deploy(event@),
            EventBody::Services(statuses) => EventBodyView::Services(statuses.deep_view()),
            EventBody::Health(healthy) => EventBodyView::Health(*healthy),
            EventBody::Done => EventBodyView::Done,
            EventBody::Failure(text) => EventBodyView::Failure(text@),
        }
    }
}

/// An event on its way out: its type, what it says, and the ids that tie it
/// to the command that caused it.
#[derive(Debug)]
pub struct OutboundEvent {
    pub event_type: EventType,
    pub body: EventBody,
    pub correlation_id: String,
    pub causation_id: String,
}

pub struct OutboundEventView {
    pub event_type: EventType,
    pub body: EventBodyView,
    pub correlation_id: Seq<char>,
    pub causation_id: Seq<char>,
}

impl View for OutboundEvent {
    type V = OutboundEventView;

    open spec fn view(&self) -> OutboundEventView {
        OutboundEventView {
            event_type: self.event_type,
            body: self.body@,
            correlation_id: self.correlation_id@,
            causation_id: self.causation_id@,
        }
    }
}

impl DeepView for OutboundEvent {
    type V = OutboundEventView;

    open spec fn deep_view(&self) -> OutboundEventView {
        self@
    }
}

/// The deploy event of the given status for a project, as it leaves the agent.
pub open spec fn deploy_event_of(
    project_id: Seq<char>,
    status: DeployStatus,
    message: Seq<char>,
    correlation_id: Seq<char>,
    causation_id: Seq<char>,
) -> OutboundEventView {
    OutboundEventView {
        event_type: status.event_type(),
        body: EventBodyView::Deploy(
            DeployEventView { project_id, status, message, details: None },
        ),
        correlation_id,
        causation_id,
    }
}

/// Maps a deploy status to the event type under which it is published.
pub fn deploy_event_type(status: DeployStatus) -> (event_type: EventType)
    ensures
        event_type == status.event_type(),
{
    match status {
        DeployStatus::Started => EventType::DeployStarted,
        DeployStatus::Progressing => EventType::DeployProgress,
        DeployStatus::Completed => EventType::DeployCompleted,
        DeployStatus::Failed => EventType::DeployFailed,
    }
}

/// Builds the deploy event of the given status. Its correlation id is the
/// command's, and its causation id names the command that caused it.
pub fn deploy_event_for(
    project_id: String,
    status: DeployStatus,
    message: String,
    correlation_id: String,
    causation_id: String,
) -> (event: OutboundEvent)
    ensures
        event@ == deploy_event_of(
            project_id@,
            status,
            message@,
            correlation_id@,
            causation_id@,
        ),
{
    OutboundEvent {
        event_type: deploy_event_type(status),
        body: EventBody::Deploy(DeployEvent { project_id, status, message, details: None }),
        correlation_id,
        causation_id,
    }
}

/// The publisher of one agent.
pub struct KafkaProducer {
    settings: ClientConfig,
    agent_id: String,
}

impl KafkaProducer {
    /// The identity under which the publisher emits.
    pub closed spec fn agent_id(&self) -> Seq<char> {
        self.agent_id@
    }

    /// The parameters of the publisher's bus client.
    pub closed spec fn entries(&self) -> Map<Seq<char>, Seq<char>> {
        client_config_entries(self.settings)
    }

    /// The publisher of the agent registered as `agent_id`, with the bus
    /// client parameters that the configuration asks for.
    pub fn new(config: &Config, agent_id: &str) -> (producer: KafkaProducer)
        ensures
            producer.agent_id() == agent_id@,
            producer.entries() == producer_entries(
                config.kafka.brokers.deep_view(),
                config.kafka.enable_ssl,
                config.kafka.ssl_ca_location.deep_view(),
            ),
    {
        let brokers = join(&config.kafka.brokers, ",");
        let mut settings = client_config_new();
        client_config_set(&mut settings, "bootstrap.servers", brokers.as_str());
        client_config_set(&mut settings, "message.timeout.ms", "30000");
        client_config_set(&mut settings, "queue.buffering.max.messages", "100000");
        client_config_set(&mut settings, "queue.buffering.max.kbytes", "1048576");
        client_config_set(&mut settings, "batch.num.messages", "10000");
        apply_security(&mut settings, &config.kafka);
        KafkaProducer { settings, agent_id: String::from_str(agent_id) }
    }

    /// The parameters with which the bus client of this publisher is made.
    pub fn client_config(&self) -> (settings: &ClientConfig)
        ensures
            client_config_entries(*settings) == self.entries(),
    {
        &self.settings
    }

    /// The topic on which this publisher emits.
    pub fn topic(&self) -> (name: String)
        ensures
            name@ == events_topic_of(self.agent_id()),
    {
        concat2("runner.events.", self.agent_id.as_str())
    }

    /// The envelope of an event with the given id and time, stamped with
    /// this publisher's agent.
    pub fn envelope(
        &self,
        event_id: String,
        timestamp: i64,
        event_type: EventType,
        payload: Vec<u8>,
        correlation_id: String,
        causation_id: String,
    ) -> (envelope: EventEnvelope)
        ensures
            envelope@ == (EventEnvelopeView {
                event_id: event_id@,
                event_type,
                payload: payload@,
                correlation_id: correlation_id@,
                causation_id: causation_id@,
                timestamp,
                agent_id: self.agent_id(),
            }),
    {
        EventEnvelope {
            event_id,
            event_type,
            payload,
            correlation_id,
            causation_id,
            timestamp,
            agent_id: self.agent_id.clone(),
        }
    }

    /// Builds the deploy event of the given status. Its correlation id is the
    /// command's, and its causation id names the command that caused it.
    pub fn publish_deploy_event(
        &self,
        project_id: String,
        status: DeployStatus,
        message: String,
        correlation_id: String,
        causation_id: String,
    ) -> (event: OutboundEvent)
        ensures
            event@ == deploy_event_of(
                project_id@,
                status,
                message@,
                correlation_id@,
                causation_id@,
            ),
    {
        deploy_event_for(project_id, status, message, correlation_id, causation_id)
    }

    /// Wraps a payload into the envelope of a new event: a fresh event id,
    /// the current time and this publisher's agent, with the type, payload
    /// and ids as given. The envelope is sent on [`KafkaProducer::topic`]
    /// under the event id as its key.
    pub fn publish_event(
        &self,
        event_type: EventType,
        payload: Vec<u8>,
        correlation_id: String,
        causation_id: String,
    ) -> (envelope: EventEnvelope)
        ensures
            envelope@ == (EventEnvelopeView {
                event_id: envelope@.event_id,
                event_type,
                payload: payload@,
                correlation_id: correlation_id@,
                causation_id: causation_id@,
                timestamp: envelope@.timestamp,
                agent_id: self.agent_id(),
            }),
            envelope@.event_id.len() == ID_LEN,
    {
        self.envelope(
            fresh_id(),
            now_millis(),
            event_type,
            payload,
            correlation_id,
            causation_id,
        )
    }
}

} // verus!
