//! The command dispatcher: consumes the agent's command topic one message
//! at a time, routes each command to its handler and reports the outcome.
//!
//! [`KafkaConsumer`] takes the decisions; it follows the state machine of
//! [`crate::dispatch_model`] step by step. Whoever runs it performs each
//! [`Action`] and hands back the matching [`Event`].

use vstd::prelude::*;
use rdkafka::config::ClientConfig;
use crate::client_config::{
    apply_security,
    client_config_entries,
    client_config_new,
    client_config_set,
    join,
    joined,
    no_entries,
    secured,
};
use crate::config::Config;
use crate::dispatch_model::{
    bump,
    ActionView,
    DispatcherView,
    EventView,
    JobView,
    Metrics,
    PhaseView,
    TaskView,
    WorkOutputView,
    WorkView,
    BUS_ERROR_PAUSE_MS,
};
use crate::dispatch_model;
use crate::docker::{
    CommandOutput,
    DeployPlan,
    DockerManager,
    EngineCommand,
    ServiceInfo,
};
use crate::error::{AgentError, ErrorView};
use crate::producer::{deploy_event_for, EventBody, EventBodyView, OutboundEvent};
use crate::retry::{RetryPolicy, RetryRun};
use crate::text::concat2;
use crate::types::{CommandEnvelope, CommandType, DeployCommand, DeployStatus, EventType};

verus! {

/// The topic from which the agent named `agent_id` takes its commands.
pub open spec fn commands_topic_of(agent_id: Seq<char>) -> Seq<char> {
    "runner.commands."@ + agent_id
}

/// The client parameters of the dispatcher for a bus configuration.
pub open spec fn consumer_entries(
    brokers: Seq<Seq<char>>,
    consumer_group: Seq<char>,
    enable_ssl: bool,
    ssl_ca_location: Option<Seq<char>>,
) -> Map<Seq<char>, Seq<char>> {
    secured(
        no_entries().insert("bootstrap.servers"@, joined(brokers, ","@)).insert(
            "group.id"@,
            consumer_group,
        ).insert("enable.auto.commit"@, "true"@).insert("auto.offset.reset"@, "earliest"@).insert(
            "session.timeout.ms"@,
            "30000"@,
        ).insert("enable.partition.eof"@, "false"@),
        enable_ssl,
        ssl_ca_location,
    )
}

/// What a command asks of the agent, with what its handler needs.
#[derive(Debug)]
pub enum Task {
    Deploy(DeployCommand),
    /// Report the services of this project's stack.
    Status(String),
    /// Remove this project's stack.
    Stop(String),
    Health,
    /// A command handled by a collaborator, with its payload.
    External(CommandType, Vec<u8>),
}

impl View for Task {
    type V = TaskView;

    open spec fn view(&self) -> TaskView {
        match self {
            Task::Deploy(command) => TaskView::Deploy(command@),
            Task::Status(project_id) => TaskView::Status(project_id@),
            Task::Stop(project_id) => TaskView::Stop(project_id@),
            Task::Health => TaskView::Health,
            Task::External(kind, payload) => TaskView::External(*kind, payload@),
        }
    }
}

/// A command in flight: its ids and its task.
#[derive(Debug)]
pub struct Job {
    pub command_id: String,
    pub correlation_id: String,
    pub task: Task,
}

impl View for Job {
    type V = JobView;

    open spec fn view(&self) -> JobView {
        JobView {
            command_id: self.command_id@,
            correlation_id: self.correlation_id@,
            task: self.task@,
        }
    }
}

/// Work that the dispatcher asks for on behalf of a handler.
#[derive(Debug)]
pub enum Work {
    /// Write the artifact and run the command of this plan.
    Deploy(DeployPlan),
    /// Run this command, which removes a stack.
    Remove(EngineCommand),
    /// List the services that the engine knows.
    ListServices,
    /// Ping the engine.
    Ping,
    /// Hand the command of this kind and payload to its collaborator.
    Delegate(CommandType, Vec<u8>),
}

impl View for Work {
    type V = WorkView;

    open spec fn view(&self) -> WorkView {
        match self {
            Work::Deploy(plan) => WorkView::Deploy(plan@),
            Work::Remove(command) => WorkView::Remove(command@),
            Work::ListServices => WorkView::ListServices,
            Work::Ping => WorkView::Ping,
            Work::Delegate(kind, payload) => WorkView::Delegate(*kind, payload@),
        }
    }
}

/// What came of a piece of work that could be carried out.
#[derive(Debug)]
pub enum WorkOutput {
    /// An engine command ran and ended like this.
    Engine(CommandOutput),
    /// The services that the engine lists.
    Services(Vec<ServiceInfo>),
    /// The engine answered the ping.
    Pong,
    /// The collaborator handled the command.
    Done,
}

impl View for WorkOutput {
    type V = WorkOutputView;

    open spec fn view(&self) -> WorkOutputView {
        match self {
            WorkOutput::Engine(output) => WorkOutputView::Engine(output.success, output.stderr@),
            WorkOutput::Services(listed) => WorkOutputView::Services(listed.deep_view()),
            WorkOutput::Pong => WorkOutputView::Pong,
            WorkOutput::Done => WorkOutputView::Done,
        }
    }
}

/// What happened outside, as the dispatcher is told of it.
#[derive(Debug)]
pub enum Event {
    /// The bus delivered a message; `None` where it has no payload.
    Message(Option<Vec<u8>>),
    /// The bus reported an error.
    BusError(String),
    /// The stream of messages ended.
    StreamEnded,
    /// The result of decoding a payload into a command envelope, with the
    /// decoder's complaint where it failed.
    Envelope(Result<CommandEnvelope, String>),
    /// The result of decoding a payload into a deploy command.
    DeployPayload(Result<DeployCommand, String>),
    /// Whether the event asked for was published.
    Published(Result<(), AgentError>),
    /// What came of the work asked for.
    Worked(Result<WorkOutput, AgentError>),
    /// The pause asked for is over.
    Woke,
}

/// The outcome of work, in the model's terms.
pub open spec fn outcome_view(outcome: Result<WorkOutput, AgentError>) -> Result<
    WorkOutputView,
    ErrorView,
> {
    match outcome {
        Ok(output) => Ok(output@),
        Err(error) => Err(error@),
    }
}

impl View for Event {
    type V = EventView;

    open spec fn view(&self) -> EventView {
        match self {
            Event::Message(payload) => EventView::Message(
                match payload {
                    Some(bytes) => Some(bytes@),
                    None => None,
                },
            ),
            Event::BusError(text) => EventView::BusError(text@),
            Event::StreamEnded => EventView::StreamEnded,
            Event::Envelope(decoded) => EventView::Envelope(
                match decoded {
                    Ok(envelope) => Ok(envelope@),
                    Err(complaint) => Err(complaint@),
                },
            ),
            Event::DeployPayload(decoded) => EventView::DeployPayload(
                match decoded {
                    Ok(command) => Ok(command@),
                    Err(complaint) => Err(complaint@),
                },
            ),
            Event::Published(sent) => EventView::Published(sent is Ok),
            Event::Worked(outcome) => EventView::Worked(outcome_view(*outcome)),
            Event::Woke => EventView::Woke,
        }
    }
}

/// What the dispatcher asks for next.
#[derive(Debug)]
pub enum Action {
    /// Await the next message of the command topic.
    Pull,
    /// Leave the consumption loop.
    Stop,
    /// Decode these bytes into a command envelope.
    DecodeEnvelope(Vec<u8>),
    /// Decode these bytes into a deploy command.
    DecodeDeploy(Vec<u8>),
    /// Publish this event.
    Publish(OutboundEvent),
    /// Carry out this work.
    Work(Work),
    /// Pause for so many milliseconds.
    Sleep(u64),
    /// The event did not answer what was asked last; it was ignored.
    Unexpected,
}

impl View for Action {
    type V = ActionView;

    open spec fn view(&self) -> ActionView {
        match self {
            Action::Pull => ActionView::Pull,
            Action::Stop => ActionView::Stop,
            Action::DecodeEnvelope(bytes) => ActionView::DecodeEnvelope(bytes@),
            Action::DecodeDeploy(bytes) => ActionView::DecodeDeploy(bytes@),
            Action::Publish(event) => ActionView::Publish(event@),
            Action::Work(work) => ActionView::Work(work@),
            Action::Sleep(ms) => ActionView::Sleep(*ms),
            Action::Unexpected => ActionView::Unexpected,
        }
    }
}

enum Phase {
    Idle,
    Stopped,
    Recovering,
    DecodingEnvelope,
    DecodingDeploy(String, String),
    Announcing(Job),
    Working(Job, RetryRun),
    Pausing(Job, RetryRun),
    Reporting,
}

impl View for Phase {
    type V = PhaseView;

    closed spec fn view(&self) -> PhaseView {
        match self {
            Phase::Idle => PhaseView::Idle,
            Phase::Stopped => PhaseView::Stopped,
            Phase::Recovering => PhaseView::Recovering,
            Phase::DecodingEnvelope => PhaseView::DecodingEnvelope,
            Phase::DecodingDeploy(command_id, correlation_id) => PhaseView::DecodingDeploy(
                command_id@,
                correlation_id@,
            ),
            Phase::Announcing(job) => PhaseView::Announcing(job@),
            Phase::Working(job, run) => PhaseView::Working(job@, run@),
            Phase::Pausing(job, run) => PhaseView::Pausing(job@, run@),
            Phase::Reporting => PhaseView::Reporting,
        }
    }
}

/// The result of a handler, in the model's terms.
pub open spec fn verdict_view(verdict: Result<EventBody, AgentError>) -> Result<
    EventBodyView,
    ErrorView,
> {
    match verdict {
        Ok(body) => Ok(body@),
        Err(error) => Err(error@),
    }
}

fn count(n: u64) -> (m: u64)
    ensures
        m == bump(n),
{
    if n < u64::MAX {
        n + 1
    } else {
        n
    }
}

fn copy_bytes(bytes: &Vec<u8>) -> (copy: Vec<u8>)
    ensures
        copy@ == bytes@,
{
    let mut copy: Vec<u8> = Vec::new();
    let mut i: usize = 0;
    while i < bytes.len()
        invariant
            i <= bytes.len(),
            copy@ == bytes@.take(i as int),
        decreases bytes.len() - i,
    {
        copy.push(bytes[i]);
        assert(bytes@.take(i + 1) =~= bytes@.take(i as int).push(bytes@[i as int]));
        i += 1;
    }
    assert(bytes@.take(bytes.len() as int) =~= bytes@);
    copy
}

/// The work that a task's handler asks for.
fn work_for(docker: &DockerManager, task: &Task) -> (work: Work)
    ensures
        work@ == dispatch_model::work_of(task@),
{
    match task {
        Task::Deploy(command) => Work::Deploy(
            docker.deploy_stack(
                command.project_id.as_str(),
                command.docker_stack_yml.as_str(),
                &command.env_vars,
            ),
        ),
        Task::Status(_) => Work::ListServices,
        Task::Stop(project_id) => Work::Remove(docker.remove_stack(project_id.as_str())),
        Task::Health => Work::Ping,
        Task::External(kind, payload) => Work::Delegate(*kind, copy_bytes(payload)),
    }
}

fn mismatch() -> (error: AgentError)
    ensures
        error@ == dispatch_model::mismatch(),
{
    AgentError::InvalidState(String::from_str("Unexpected handler output"))
}

fn closed_by(result: Result<(), AgentError>) -> (verdict: Result<EventBody, AgentError>)
    ensures
        verdict_view(verdict) == dispatch_model::error_of(crate::docker::outcome_view(result)),
{
    match result {
        Ok(_) => Ok(EventBody::Done),
        Err(error) => Err(error),
    }
}

/// What a task's handler makes of the outcome of its work.
fn judge(docker: &DockerManager, task: &Task, outcome: Result<WorkOutput, AgentError>) -> (verdict:
    Result<EventBody, AgentError>)
    ensures
        verdict_view(verdict) == dispatch_model::judge(task@, outcome_view(outcome)),
{
    match task {
        Task::Health => match outcome {
            Ok(WorkOutput::Pong) => Ok(EventBody::Health(true)),
            Ok(_) => Err(mismatch()),
            Err(_) => Ok(EventBody::Health(false)),
        },
        Task::Deploy(_) => match outcome {
            Ok(WorkOutput::Engine(output)) => closed_by(docker.deploy_result(&output)),
            Ok(_) => Err(mismatch()),
            Err(error) => Err(error),
        },
        Task::Stop(_) => match outcome {
            Ok(WorkOutput::Engine(output)) => closed_by(docker.remove_result(&output)),
            Ok(_) => Err(mismatch()),
            Err(error) => Err(error),
        },
        Task::Status(project_id) => match outcome {
            Ok(WorkOutput::Services(listed)) => Ok(
                EventBody::Services(docker.get_stack_status(project_id.as_str(), &listed)),
            ),
            Ok(_) => Err(mismatch()),
            Err(error) => Err(error),
        },
        Task::External(_, _) => match outcome {
            Ok(WorkOutput::Done) => Ok(EventBody::Done),
            Ok(_) => Err(mismatch()),
            Err(error) => Err(error),
        },
    }
}

fn deploy_event(job: &Job, project_id: &String, status: DeployStatus, message: String) -> (event:
    OutboundEvent)
    ensures
        event@ == crate::producer::deploy_event_of(
            project_id@,
            status,
            message@,
            job@.correlation_id,
            job@.command_id,
        ),
{
    deploy_event_for(
        project_id.clone(),
        status,
        message,
        job.correlation_id.clone(),
        job.command_id.clone(),
    )
}

fn plain_event(job: &Job, event_type: EventType, body: EventBody) -> (event: OutboundEvent)
    ensures
        event@ == (crate::producer::OutboundEventView {
            event_type,
            body: body@,
            correlation_id: job@.correlation_id,
            causation_id: job@.command_id,
        }),
{
    OutboundEvent {
        event_type,
        body,
        correlation_id: job.correlation_id.clone(),
        causation_id: job.command_id.clone(),
    }
}

fn opening_event(job: &Job) -> (event: Option<OutboundEvent>)
    ensures
        event.deep_view() == dispatch_model::opening_event(job@),
{
    match &job.task {
        Task::Deploy(command) => Some(
            deploy_event(
                job,
                &command.project_id,
                DeployStatus::Started,
                String::from_str("Deployment started"),
            ),
        ),
        Task::External(CommandType::Rollback, _) => Some(
            plain_event(job, EventType::RollbackStarted, EventBody::Done),
        ),
        _ => None,
    }
}

fn success_event(job: &Job, body: EventBody) -> (event: OutboundEvent)
    ensures
        event@ == dispatch_model::success_event(job@, body@),
{
    match &job.task {
        Task::Deploy(command) => deploy_event(
            job,
            &command.project_id,
            DeployStatus::Completed,
            String::from_str("Deployment completed"),
        ),
        Task::External(CommandType::Rollback, _) => plain_event(
            job,
            EventType::RollbackCompleted,
            body,
        ),
        _ => plain_event(job, EventType::StatusReport, body),
    }
}

fn failure_event(job: &Job, error: &AgentError) -> (event: OutboundEvent)
    ensures
        event@ == dispatch_model::failure_event(job@, error@),
{
    match &job.task {
        Task::Deploy(command) => deploy_event(
            job,
            &command.project_id,
            DeployStatus::Failed,
            error.message(),
        ),
        Task::External(CommandType::Rollback, _) => plain_event(
            job,
            EventType::RollbackFailed,
            EventBody::Failure(error.message()),
        ),
        _ => plain_event(job, EventType::ErrorReport, EventBody::Failure(error.message())),
    }
}

/// The dispatcher of one agent.
pub struct KafkaConsumer {
    settings: ClientConfig,
    agent_id: String,
    shutdown: bool,
    phase: Phase,
    metrics: Metrics,
    policy: RetryPolicy,
    docker: DockerManager,
}

impl View for KafkaConsumer {
    type V = DispatcherView;

    closed spec fn view(&self) -> DispatcherView {
        DispatcherView {
            agent_id: self.agent_id@,
            shutdown: self.shutdown,
            phase: self.phase@,
            metrics: self.metrics,
            policy: self.policy,
        }
    }
}

impl KafkaConsumer {
    /// The parameters of the dispatcher's bus client.
    pub closed spec fn entries(&self) -> Map<Seq<char>, Seq<char>> {
        client_config_entries(self.settings)
    }

    /// The dispatcher of the agent registered as `agent_id`: at rest, not
    /// shut down, all counts at zero, retrying handlers as often as the
    /// configuration allows attempts against the control plane.
    pub fn new(config: &Config, agent_id: &str) -> (consumer: KafkaConsumer)
        ensures
            consumer@ == (DispatcherView {
                agent_id: agent_id@,
                shutdown: false,
                phase: PhaseView::Idle,
                metrics: Metrics {
                    commands_processed: 0,
                    commands_failed: 0,
                    messages_dropped: 0,
                    events_published: 0,
                },
                policy: consumer@.policy,
            }),
            consumer@.policy.spec_max_retries() == config.control_plane.retry_attempts,
            consumer@.policy.spec_initial_delay() == crate::retry::DEFAULT_INITIAL_DELAY_MS,
            consumer@.policy.spec_max_delay() == crate::retry::DEFAULT_MAX_DELAY_MS,
            consumer.entries() == consumer_entries(
                config.kafka.brokers.deep_view(),
                config.kafka.consumer_group@,
                config.kafka.enable_ssl,
                config.kafka.ssl_ca_location.deep_view(),
            ),
    {
        let brokers = join(&config.kafka.brokers, ",");
        let mut settings = client_config_new();
        client_config_set(&mut settings, "bootstrap.servers", brokers.as_str());
        client_config_set(&mut settings, "group.id", config.kafka.consumer_group.as_str());
        client_config_set(&mut settings, "enable.auto.commit", "true");
        client_config_set(&mut settings, "auto.offset.reset", "earliest");
        client_config_set(&mut settings, "session.timeout.ms", "30000");
        client_config_set(&mut settings, "enable.partition.eof", "false");
        apply_security(&mut settings, &config.kafka);
        KafkaConsumer {
            settings,
            agent_id: String::from_str(agent_id),
            shutdown: false,
            phase: Phase::Idle,
            metrics: Metrics {
                commands_processed: 0,
                commands_failed: 0,
                messages_dropped: 0,
                events_published: 0,
            },
            policy: RetryPolicy::new(config.control_plane.retry_attempts as usize),
            docker: DockerManager::new(config),
        }
    }

    /// The parameters with which the bus client of this dispatcher is made.
    pub fn client_config(&self) -> (settings: &ClientConfig)
        ensures
            client_config_entries(*settings) == self.entries(),
    {
        &self.settings
    }

    /// The topic from which this dispatcher takes its commands.
    pub fn topic(&self) -> (name: String)
        ensures
            name@ == commands_topic_of(self@.agent_id),
    {
        concat2("runner.commands.", self.agent_id.as_str())
    }

    /// Whether shutdown was asked for.
    pub fn is_shutdown(&self) -> (flag: bool)
        ensures
            flag == self@.shutdown,
    {
        self.shutdown
    }

    /// The counts of commands processed and failed, of messages dropped and
    /// of events published.
    pub fn metrics(&self) -> (snapshot: Metrics)
        ensures
            snapshot == self@.metrics,
    {
        self.metrics
    }

    /// Whether the dispatcher has left its loop for good.
    pub fn is_stopped(&self) -> (stopped: bool)
        ensures
            stopped == (self@.phase is Stopped),
    {
        match self.phase {
            Phase::Stopped => true,
            _ => false,
        }
    }

    /// Whether no message is being processed.
    pub fn is_resting(&self) -> (resting: bool)
        ensures
            resting == self@.phase.resting(),
    {
        match self.phase {
            Phase::Stopped | Phase::Idle => true,
            _ => false,
        }
    }

    /// Asks the dispatcher to shut down. It takes no further message; the
    /// one in hand is processed to its end.
    pub fn shutdown(&mut self) -> (res: Result<(), AgentError>)
        ensures
            res is Ok,
            final(self)@ == (DispatcherView { shutdown: true, ..old(self)@ }),
            final(self).entries() == old(self).entries(),
    {
        self.shutdown = true;
        Ok(())
    }

    /// Enters the loop: asks for the first message, or stops at once where
    /// shutdown was asked for or the dispatcher is not at rest to begin with.
    pub fn start(&mut self) -> (action: Action)
        ensures
            old(self)@.phase is Idle ==> (final(self)@, action@) == old(self)@.resume(),
            !(old(self)@.phase is Idle) ==> final(self)@ == old(self)@ && action@
                == ActionView::Unexpected,
            final(self).entries() == old(self).entries(),
    {
        match self.phase {
            Phase::Idle => self.resume(),
            _ => Action::Unexpected,
        }
    }

    fn resume(&mut self) -> (action: Action)
        ensures
            (final(self)@, action@) == old(self)@.resume(),
            final(self).entries() == old(self).entries(),
    {
        if self.shutdown {
            self.phase = Phase::Stopped;
            Action::Stop
        } else {
            self.phase = Phase::Idle;
            Action::Pull
        }
    }

    fn dropped(&mut self) -> (action: Action)
        ensures
            (final(self)@, action@) == old(self)@.counting(old(self)@.metrics.dropped()).resume(),
            final(self).entries() == old(self).entries(),
    {
        self.metrics.messages_dropped = count(self.metrics.messages_dropped);
        self.resume()
    }

    fn published(&mut self, sent: bool)
        ensures
            final(self)@ == old(self)@.counting(old(self)@.metrics.published(sent)),
            final(self).entries() == old(self).entries(),
    {
        if sent {
            self.metrics.events_published = count(self.metrics.events_published);
        }
    }

    fn work(&mut self, job: Job) -> (action: Action)
        ensures
            (final(self)@, action@) == old(self)@.work(job@),
            final(self).entries() == old(self).entries(),
    {
        let work = work_for(&self.docker, &job.task);
        self.phase = Phase::Working(job, self.policy.begin());
        Action::Work(work)
    }

    fn take_up(&mut self, job: Job) -> (action: Action)
        ensures
            (final(self)@, action@) == old(self)@.take_up(job@),
            final(self).entries() == old(self).entries(),
    {
        match opening_event(&job) {
            Some(event) => {
                self.phase = Phase::Announcing(job);
                Action::Publish(event)
            },
            None => self.work(job),
        }
    }

    fn refuse(&mut self, envelope: CommandEnvelope) -> (action: Action)
        ensures
            (final(self)@, action@) == old(self)@.refuse(envelope@),
            final(self).entries() == old(self).entries(),
    {
        let error = AgentError::InvalidState(String::from_str("Command names no project"));
        self.metrics.commands_failed = count(self.metrics.commands_failed);
        self.phase = Phase::Reporting;
        Action::Publish(
            OutboundEvent {
                event_type: EventType::ErrorReport,
                body: EventBody::Failure(error.message()),
                correlation_id: envelope.correlation_id,
                causation_id: envelope.command_id,
            },
        )
    }

    fn route(&mut self, envelope: CommandEnvelope) -> (action: Action)
        ensures
            (final(self)@, action@) == old(self)@.route(envelope@),
            final(self).entries() == old(self).entries(),
    {
        match envelope.command_type {
            CommandType::Deploy => {
                self.phase = Phase::DecodingDeploy(envelope.command_id, envelope.correlation_id);
                Action::DecodeDeploy(envelope.payload)
            },
            CommandType::GetStatus => {
                if envelope.metadata.project_id.is_some() {
                    let project_id = envelope.metadata.project_id.unwrap();
                    self.take_up(
                        Job {
                            command_id: envelope.command_id,
                            correlation_id: envelope.correlation_id,
                            task: Task::Status(project_id),
                        },
                    )
                } else {
                    self.refuse(envelope)
                }
            },
            CommandType::Stop => {
                if envelope.metadata.project_id.is_some() {
                    let project_id = envelope.metadata.project_id.unwrap();
                    self.take_up(
                        Job {
                            command_id: envelope.command_id,
                            correlation_id: envelope.correlation_id,
                            task: Task::Stop(project_id),
                        },
                    )
                } else {
                    self.refuse(envelope)
                }
            },
            CommandType::HealthCheck => self.take_up(
                Job {
                    command_id: envelope.command_id,
                    correlation_id: envelope.correlation_id,
                    task: Task::Health,
                },
            ),
            kind => self.take_up(
                Job {
                    command_id: envelope.command_id,
                    correlation_id: envelope.correlation_id,
                    task: Task::External(kind, envelope.payload),
                },
            ),
        }
    }

    fn settle(&mut self, job: Job, run: RetryRun, outcome: Result<WorkOutput, AgentError>) -> (action:
        Action)
        ensures
            final(self)@ == old(self)@.settle(job@, run@, outcome_view(outcome)).0,
            action@.refines(old(self)@.settle(job@, run@, outcome_view(outcome)).1),
            final(self).entries() == old(self).entries(),
    {
        match judge(&self.docker, &job.task, outcome) {
            Ok(body) => {
                self.metrics.commands_processed = count(self.metrics.commands_processed);
                self.phase = Phase::Reporting;
                Action::Publish(success_event(&job, body))
            },
            Err(error) => {
                let mut run = run;
                if error.is_transient() && run.retries_left() > 0 {
                    let pause = match run.next_delay() {
                        Some(ms) => ms,
                        None => 0,
                    };
                    self.phase = Phase::Pausing(job, run);
                    Action::Sleep(pause)
                } else {
                    self.metrics.commands_failed = count(self.metrics.commands_failed);
                    self.phase = Phase::Reporting;
                    Action::Publish(failure_event(&job, &error))
                }
            },
        }
    }

    /// Takes one event and answers with the next action, as the state
    /// machine says. The one freedom is the pause before a handler is
    /// tried again, which is jittered: it is no longer than the machine's,
    /// and may be shorter. Every other action, the pause after an error of
    /// the bus included, is the machine's exactly.
    pub fn step(&mut self, event: Event) -> (action: Action)
        ensures
            final(self)@ == old(self)@.next(event@).0,
            action@.refines(old(self)@.next(event@).1),
            !(old(self)@.phase is Working) ==> action@ == old(self)@.next(event@).1,
            final(self).entries() == old(self).entries(),
    {
        let mut phase = Phase::Idle;
        core::mem::swap(&mut self.phase, &mut phase);
        match phase {
            Phase::Stopped => {
                self.phase = Phase::Stopped;
                Action::Stop
            },
            Phase::Idle => match event {
                Event::Message(None) => self.dropped(),
                Event::Message(Some(payload)) => {
                    self.phase = Phase::DecodingEnvelope;
                    Action::DecodeEnvelope(payload)
                },
                Event::BusError(_) => {
                    self.phase = Phase::Recovering;
                    Action::Sleep(BUS_ERROR_PAUSE_MS)
                },
                Event::StreamEnded => {
                    self.phase = Phase::Stopped;
                    Action::Stop
                },
                _ => Action::Unexpected,
            },
            Phase::Recovering => match event {
                Event::Woke => self.resume(),
                _ => {
                    self.phase = Phase::Recovering;
                    Action::Unexpected
                },
            },
            Phase::DecodingEnvelope => match event {
                Event::Envelope(Ok(envelope)) => self.route(envelope),
                Event::Envelope(Err(_)) => self.dropped(),
                _ => {
                    self.phase = Phase::DecodingEnvelope;
                    Action::Unexpected
                },
            },
            Phase::DecodingDeploy(command_id, correlation_id) => match event {
                Event::DeployPayload(Ok(command)) => {
                    if command.is_well_formed() {
                        self.take_up(Job { command_id, correlation_id, task: Task::Deploy(command) })
                    } else {
                        self.dropped()
                    }
                },
                Event::DeployPayload(Err(_)) => self.dropped(),
                _ => {
                    self.phase = Phase::DecodingDeploy(command_id, correlation_id);
                    Action::Unexpected
                },
            },
            Phase::Announcing(job) => match event {
                Event::Published(sent) => {
                    self.published(sent.is_ok());
                    self.work(job)
                },
                _ => {
                    self.phase = Phase::Announcing(job);
                    Action::Unexpected
                },
            },
            Phase::Working(job, run) => match event {
                Event::Worked(outcome) => self.settle(job, run, outcome),
                _ => {
                    self.phase = Phase::Working(job, run);
                    Action::Unexpected
                },
            },
            Phase::Pausing(job, run) => match event {
                Event::Woke => {
                    let work = work_for(&self.docker, &job.task);
                    self.phase = Phase::Working(job, run);
                    Action::Work(work)
                },
                _ => {
                    self.phase = Phase::Pausing(job, run);
                    Action::Unexpected
                },
            },
            Phase::Reporting => match event {
                Event::Published(sent) => {
                    self.published(sent.is_ok());
                    self.resume()
                },
                _ => {
                    self.phase = Phase::Reporting;
                    Action::Unexpected
                },
            },
        }
    }

    /// Takes the payload of a message that the bus delivered.
    pub fn process_message(&mut self, payload: Option<Vec<u8>>) -> (action: Action)
        ensures
            final(self)@ == old(self)@.next(Event::Message(payload)@).0,
            action@ == old(self)@.next(Event::Message(payload)@).1,
            final(self).entries() == old(self).entries(),
    {
        self.step(Event::Message(payload))
    }

    /// Takes the result of decoding the payload of a deploy command.
    pub fn handle_deploy_command(&mut self, decoded: Result<DeployCommand, String>) -> (action:
        Action)
        ensures
            final(self)@ == old(self)@.next(Event::DeployPayload(decoded)@).0,
            action@ == old(self)@.next(Event::DeployPayload(decoded)@).1,
            final(self).entries() == old(self).entries(),
    {
        self.step(Event::DeployPayload(decoded))
    }
}

} // verus!
