//! The command dispatcher as a state machine over mathematical values: what
//! it expects, what it asks for, and how each answer moves it on.
//!
//! The dispatcher never waits and never touches the bus or the engine. It
//! is handed one [`EventView`] at a time and answers with one
//! [`ActionView`]; whoever runs it carries the action out and hands back
//! what came of it.

use vstd::prelude::*;
use crate::docker::{
    deploy_plan_of,
    deploy_verdict,
    remove_command_of,
    remove_verdict,
    stack_statuses,
    DeployPlanView,
    EngineCommandView,
    ServiceInfoView,
};
use crate::error::{ErrorKind, ErrorView};
use crate::producer::{deploy_event_of, EventBodyView, OutboundEventView};
use crate::retry::{RetryPolicy, RetryRunView};
use crate::types::{CommandEnvelopeView, CommandType, DeployCommandView, DeployStatus, EventType};

verus! {

/// Counts kept by the dispatcher. Each count stops at the largest `u64`.
#[derive(Debug, Clone, Copy, PartialEq, Eq, Structural)]
pub struct Metrics {
    /// Commands whose handler succeeded.
    pub commands_processed: u64,
    /// Commands whose handler failed for good.
    pub commands_failed: u64,
    /// Messages dropped because they could not be decoded.
    pub messages_dropped: u64,
    /// Events that were published.
    pub events_published: u64,
}

/// `n` and one more, stopping at the largest `u64`.
pub open spec fn bump(n: u64) -> u64 {
    if n < u64::MAX {
        (n + 1) as u64
    } else {
        n
    }
}

impl Metrics {
    pub open spec fn processed(self) -> Metrics {
        Metrics { commands_processed: bump(self.commands_processed), ..self }
    }

    pub open spec fn failed(self) -> Metrics {
        Metrics { commands_failed: bump(self.commands_failed), ..self }
    }

    pub open spec fn dropped(self) -> Metrics {
        Metrics { messages_dropped: bump(self.messages_dropped), ..self }
    }

    /// The counts after an attempt to publish that ended well or not.
    pub open spec fn published(self, sent: bool) -> Metrics {
        if sent {
            Metrics { events_published: bump(self.events_published), ..self }
        } else {
            self
        }
    }
}

/// What a command asks of the agent, with what its handler needs.
pub enum TaskView {
    Deploy(DeployCommandView),
    /// Report the services of this project's stack.
    Status(Seq<char>),
    /// Remove this project's stack.
    Stop(Seq<char>),
    Health,
    /// A command handled by a collaborator, with its payload.
    External(CommandType, Seq<u8>),
}

/// A command in flight: its ids and its task.
pub struct JobView {
    pub command_id: Seq<char>,
    pub correlation_id: Seq<char>,
    pub task: TaskView,
}

/// Work that the dispatcher asks for on behalf of a handler.
pub enum WorkView {
    Deploy(DeployPlanView),
    Remove(EngineCommandView),
    ListServices,
    Ping,
    Delegate(CommandType, Seq<u8>),
}

/// What came of a piece of work that could be carried out.
pub enum WorkOutputView {
    /// An engine command ran and ended with this exit and diagnostic.
    Engine(bool, Seq<char>),
    Services(Seq<ServiceInfoView>),
    Pong,
    Done,
}

pub enum EventView {
    /// The bus delivered a message; `None` where it has no payload.
    Message(Option<Seq<u8>>),
    BusError(Seq<char>),
    StreamEnded,
    /// The result of decoding a payload into a command envelope.
    Envelope(Result<CommandEnvelopeView, Seq<char>>),
    /// The result of decoding a payload into a deploy command.
    DeployPayload(Result<DeployCommandView, Seq<char>>),
    /// Whether the event asked for was published.
    Published(bool),
    Worked(Result<WorkOutputView, ErrorView>),
    /// A pause is over.
    Woke,
}

pub enum ActionView {
    /// Await the next message of the command topic.
    Pull,
    /// Leave the consumption loop.
    Stop,
    DecodeEnvelope(Seq<u8>),
    DecodeDeploy(Seq<u8>),
    Publish(OutboundEventView),
    Work(WorkView),
    /// Pause for so many milliseconds.
    Sleep(u64),
    /// The event did not answer what was asked last; it was ignored.
    Unexpected,
}

impl ActionView {
    /// `self` is the planned action, or a pause no longer than the planned one.
    pub open spec fn refines(self, planned: ActionView) -> bool {
        match (self, planned) {
            (ActionView::Sleep(actual), ActionView::Sleep(ceiling)) => actual <= ceiling,
            _ => self == planned,
        }
    }
}

pub enum PhaseView {
    /// Between messages: a pull is outstanding or about to be asked for.
    Idle,
    Stopped,
    /// After an error of the bus, pausing before the next pull.
    Recovering,
    DecodingEnvelope,
    DecodingDeploy(Seq<char>, Seq<char>),
    /// The opening event of a job is being published.
    Announcing(JobView),
    /// The job's handler is at work.
    Working(JobView, RetryRunView),
    /// Pausing before the handler is tried again.
    Pausing(JobView, RetryRunView),
    /// The closing event of a job is being published.
    Reporting,
}

impl PhaseView {
    /// No message is being processed.
    pub open spec fn resting(self) -> bool {
        self is Idle || self is Stopped
    }
}

pub struct DispatcherView {
    pub agent_id: Seq<char>,
    pub shutdown: bool,
    pub phase: PhaseView,
    pub metrics: Metrics,
    pub policy: RetryPolicy,
}

/// The pause after an error of the bus, in milliseconds.
pub const BUS_ERROR_PAUSE_MS: u64 = 1000;

/// The work that a task's handler asks for.
pub open spec fn work_of(task: TaskView) -> WorkView {
    match task {
        TaskView::Deploy(command) => WorkView::Deploy(
            deploy_plan_of(command.project_id, command.docker_stack_yml, command.env_vars),
        ),
        TaskView::Status(_) => WorkView::ListServices,
        TaskView::Stop(project_id) => WorkView::Remove(remove_command_of(project_id)),
        TaskView::Health => WorkView::Ping,
        TaskView::External(kind, payload) => WorkView::Delegate(kind, payload),
    }
}

/// The error of a handler that was handed the outcome of other work than
/// it asked for.
pub open spec fn mismatch() -> ErrorView {
    ErrorView { kind: ErrorKind::InvalidState, detail: "Unexpected handler output"@ }
}

/// The error of a command that needs a project and names none.
pub open spec fn no_project() -> ErrorView {
    ErrorView { kind: ErrorKind::InvalidState, detail: "Command names no project"@ }
}

pub open spec fn error_of(verdict: Result<(), (ErrorKind, Seq<char>)>) -> Result<
    EventBodyView,
    ErrorView,
> {
    match verdict {
        Ok(_) => Ok(EventBodyView::Done),
        Err((kind, detail)) => Err(ErrorView { kind, detail }),
    }
}

/// What a task's handler makes of the outcome of its work: what the
/// closing event says, or the failure.
pub open spec fn judge(task: TaskView, outcome: Result<WorkOutputView, ErrorView>) -> Result<
    EventBodyView,
    ErrorView,
> {
    match task {
        TaskView::Health => match outcome {
            Ok(WorkOutputView::Pong) => Ok(EventBodyView::Health(true)),
            Ok(_) => Err(mismatch()),
            Err(_) => Ok(EventBodyView::Health(false)),
        },
        TaskView::Deploy(_) => match outcome {
            Ok(WorkOutputView::Engine(success, stderr)) => error_of(
                deploy_verdict(success, stderr),
            ),
            Ok(_) => Err(mismatch()),
            Err(e) => Err(e),
        },
        TaskView::Stop(_) => match outcome {
            Ok(WorkOutputView::Engine(success, stderr)) => error_of(
                remove_verdict(success, stderr),
            ),
            Ok(_) => Err(mismatch()),
            Err(e) => Err(e),
        },
        TaskView::Status(project_id) => match outcome {
            Ok(WorkOutputView::Services(listed)) => Ok(
                EventBodyView::Services(stack_statuses(project_id, listed)),
            ),
            Ok(_) => Err(mismatch()),
            Err(e) => Err(e),
        },
        TaskView::External(_, _) => match outcome {
            Ok(WorkOutputView::Done) => Ok(EventBodyView::Done),
            Ok(_) => Err(mismatch()),
            Err(e) => Err(e),
        },
    }
}

/// The event that opens a job, for the tasks that have one.
pub open spec fn opening_event(job: JobView) -> Option<OutboundEventView> {
    match job.task {
        TaskView::Deploy(command) => Some(
            deploy_event_of(
                command.project_id,
                DeployStatus::Started,
                "Deployment started"@,
                job.correlation_id,
                job.command_id,
            ),
        ),
        TaskView::External(CommandType::Rollback, _) => Some(
            OutboundEventView {
                event_type: EventType::RollbackStarted,
                body: EventBodyView::Done,
                correlation_id: job.correlation_id,
                causation_id: job.command_id,
            },
        ),
        _ => None,
    }
}

/// The event that closes a job whose handler succeeded.
pub open spec fn success_event(job: JobView, body: EventBodyView) -> OutboundEventView {
    match job.task {
        TaskView::Deploy(command) => deploy_event_of(
            command.project_id,
            DeployStatus::Completed,
            "Deployment completed"@,
            job.correlation_id,
            job.command_id,
        ),
        TaskView::External(CommandType::Rollback, _) => OutboundEventView {
            event_type: EventType::RollbackCompleted,
            body,
            correlation_id: job.correlation_id,
            causation_id: job.command_id,
        },
        _ => OutboundEventView {
            event_type: EventType::StatusReport,
            body,
            correlation_id: job.correlation_id,
            causation_id: job.command_id,
        },
    }
}

/// The event that closes a job whose handler failed, carrying the text of
/// the failure.
pub open spec fn failure_event(job: JobView, error: ErrorView) -> OutboundEventView {
    match job.task {
        TaskView::Deploy(command) => deploy_event_of(
            command.project_id,
            DeployStatus::Failed,
            error.message(),
            job.correlation_id,
            job.command_id,
        ),
        TaskView::External(CommandType::Rollback, _) => OutboundEventView {
            event_type: EventType::RollbackFailed,
            body: EventBodyView::Failure(error.message()),
            correlation_id: job.correlation_id,
            causation_id: job.command_id,
        },
        _ => OutboundEventView {
            event_type: EventType::ErrorReport,
            body: EventBodyView::Failure(error.message()),
            correlation_id: job.correlation_id,
            causation_id: job.command_id,
        },
    }
}

/// The event that tells of a command refused before any handler ran.
pub open spec fn refusal_event(envelope: CommandEnvelopeView, error: ErrorView) -> OutboundEventView {
    OutboundEventView {
        event_type: EventType::ErrorReport,
        body: EventBodyView::Failure(error.message()),
        correlation_id: envelope.correlation_id,
        causation_id: envelope.command_id,
    }
}

/// The job that carries out `task` for the command in `envelope`.
pub open spec fn job_for(envelope: CommandEnvelopeView, task: TaskView) -> JobView {
    JobView { command_id: envelope.command_id, correlation_id: envelope.correlation_id, task }
}

impl DispatcherView {
    pub open spec fn in_phase(self, phase: PhaseView) -> DispatcherView {
        DispatcherView { phase, ..self }
    }

    pub open spec fn counting(self, metrics: Metrics) -> DispatcherView {
        DispatcherView { metrics, ..self }
    }

    /// Done with a message: pull the next one, unless shutdown was asked for.
    pub open spec fn resume(self) -> (DispatcherView, ActionView) {
        if self.shutdown {
            (self.in_phase(PhaseView::Stopped), ActionView::Stop)
        } else {
            (self.in_phase(PhaseView::Idle), ActionView::Pull)
        }
    }

    /// The event is not what the phase waits for.
    pub open spec fn ignore(self) -> (DispatcherView, ActionView) {
        (self, ActionView::Unexpected)
    }

    /// Starts the handler of a job.
    pub open spec fn work(self, job: JobView) -> (DispatcherView, ActionView) {
        (
            self.in_phase(PhaseView::Working(job, self.policy.fresh_run())),
            ActionView::Work(work_of(job.task)),
        )
    }

    /// Takes up a job: publishes its opening event where it has one, and
    /// starts its handler otherwise.
    pub open spec fn take_up(self, job: JobView) -> (DispatcherView, ActionView) {
        match opening_event(job) {
            Some(event) => (self.in_phase(PhaseView::Announcing(job)), ActionView::Publish(event)),
            None => self.work(job),
        }
    }

    /// Routes a decoded command to its handler.
    pub open spec fn route(self, envelope: CommandEnvelopeView) -> (DispatcherView, ActionView) {
        match envelope.command_type {
            CommandType::Deploy => (
                self.in_phase(
                    PhaseView::DecodingDeploy(envelope.command_id, envelope.correlation_id),
                ),
                ActionView::DecodeDeploy(envelope.payload),
            ),
            CommandType::GetStatus => match envelope.metadata.project_id {
                Some(project_id) => self.take_up(job_for(envelope, TaskView::Status(project_id))),
                None => self.refuse(envelope),
            },
            CommandType::Stop => match envelope.metadata.project_id {
                Some(project_id) => self.take_up(job_for(envelope, TaskView::Stop(project_id))),
                None => self.refuse(envelope),
            },
            CommandType::HealthCheck => self.take_up(job_for(envelope, TaskView::Health)),
            kind => self.take_up(job_for(envelope, TaskView::External(kind, envelope.payload))),
        }
    }

    /// Refuses a command that names no project though its handler needs one.
    pub open spec fn refuse(self, envelope: CommandEnvelopeView) -> (DispatcherView, ActionView) {
        (
            self.counting(self.metrics.failed()).in_phase(PhaseView::Reporting),
            ActionView::Publish(refusal_event(envelope, no_project())),
        )
    }

    /// Closes a job on the outcome of its handler's work, or pauses before
    /// another attempt where the failure is transient and a retry is left.
    pub open spec fn settle(
        self,
        job: JobView,
        run: RetryRunView,
        outcome: Result<WorkOutputView, ErrorView>,
    ) -> (DispatcherView, ActionView) {
        match judge(job.task, outcome) {
            Ok(body) => (
                self.counting(self.metrics.processed()).in_phase(PhaseView::Reporting),
                ActionView::Publish(success_event(job, body)),
            ),
            Err(error) => if error.kind.transient() && run.retries_left > 0 {
                (
                    self.in_phase(PhaseView::Pausing(job, run.after_pause())),
                    ActionView::Sleep(run.ceiling()),
                )
            } else {
                (
                    self.counting(self.metrics.failed()).in_phase(PhaseView::Reporting),
                    ActionView::Publish(failure_event(job, error)),
                )
            },
        }
    }

    /// The dispatcher after `event`, and the action it asks for.
    pub open spec fn next(self, event: EventView) -> (DispatcherView, ActionView) {
        match self.phase {
            PhaseView::Stopped => (self, ActionView::Stop),
            PhaseView::Idle => match event {
                EventView::Message(None) => self.counting(self.metrics.dropped()).resume(),
                EventView::Message(Some(payload)) => (
                    self.in_phase(PhaseView::DecodingEnvelope),
                    ActionView::DecodeEnvelope(payload),
                ),
                EventView::BusError(_) => (
                    self.in_phase(PhaseView::Recovering),
                    ActionView::Sleep(BUS_ERROR_PAUSE_MS),
                ),
                EventView::StreamEnded => (self.in_phase(PhaseView::Stopped), ActionView::Stop),
                _ => self.ignore(),
            },
            PhaseView::Recovering => match event {
                EventView::Woke => self.resume(),
                _ => self.ignore(),
            },
            PhaseView::DecodingEnvelope => match event {
                EventView::Envelope(Ok(envelope)) => self.route(envelope),
                EventView::Envelope(Err(_)) => self.counting(self.metrics.dropped()).resume(),
                _ => self.ignore(),
            },
            PhaseView::DecodingDeploy(command_id, correlation_id) => match event {
                EventView::DeployPayload(Ok(command)) => if command.wf() {
                    self.take_up(
                        JobView { command_id, correlation_id, task: TaskView::Deploy(command) },
                    )
                } else {
                    self.counting(self.metrics.dropped()).resume()
                },
                EventView::DeployPayload(Err(_)) => self.counting(
                    self.metrics.dropped(),
                ).resume(),
                _ => self.ignore(),
            },
            PhaseView::Announcing(job) => match event {
                EventView::Published(sent) => self.counting(self.metrics.published(sent)).work(
                    job,
                ),
                _ => self.ignore(),
            },
            PhaseView::Working(job, run) => match event {
                EventView::Worked(outcome) => self.settle(job, run, outcome),
                _ => self.ignore(),
            },
            PhaseView::Pausing(job, run) => match event {
                EventView::Woke => (
                    self.in_phase(PhaseView::Working(job, run)),
                    ActionView::Work(work_of(job.task)),
                ),
                _ => self.ignore(),
            },
            PhaseView::Reporting => match event {
                EventView::Published(sent) => self.counting(self.metrics.published(sent)).resume(),
                _ => self.ignore(),
            },
        }
    }
}

/// The events that an action publishes: one for a `Publish`, none otherwise.
pub open spec fn published_by(action: ActionView) -> Seq<OutboundEventView> {
    match action {
        ActionView::Publish(event) => seq![event],
        _ => Seq::<OutboundEventView>::empty(),
    }
}

/// An action that refines the planned one publishes what the plan
/// publishes: the jitter of a pause changes no event.
pub proof fn law_refinement_publishes_the_same(actual: ActionView, planned: ActionView)
    requires
        actual.refines(planned),
    ensures
        published_by(actual) == published_by(planned),
{
}

/// The dispatcher run on `events`, one after the other, until it comes to
/// rest or the events run out: where it then stands, and the events it
/// published on the way, in order.
pub open spec fn episode(start: DispatcherView, events: Seq<EventView>) -> (
    DispatcherView,
    Seq<OutboundEventView>,
)
    decreases events.len(),
{
    if events.len() == 0 {
        (start, Seq::<OutboundEventView>::empty())
    } else {
        let (after, action) = start.next(events[0]);
        if after.phase.resting() {
            (after, published_by(action))
        } else {
            let (end, later) = episode(after, events.drop_first());
            (end, published_by(action) + later)
        }
    }
}

/// `event` closes the deploy of `project_id`: it is a deploy event of a
/// terminal status, published under the matching type, with the given ids.
pub open spec fn closes_deploy(
    event: OutboundEventView,
    project_id: Seq<char>,
    correlation_id: Seq<char>,
    causation_id: Seq<char>,
) -> bool {
    &&& event.correlation_id == correlation_id
    &&& event.causation_id == causation_id
    &&& event.body matches EventBodyView::Deploy(said)
    &&& said.project_id == project_id
    &&& said.status.terminal()
    &&& event.event_type == said.status.event_type()
}

/// The dispatcher is busy with the deploy `job` and has published its
/// opening event, and its closing one is still to come.
pub open spec fn deploying(phase: PhaseView, job: JobView) -> bool {
    job.task is Deploy && match phase {
        PhaseView::Announcing(j) => j == job,
        PhaseView::Working(j, _) => j == job,
        PhaseView::Pausing(j, _) => j == job,
        _ => false,
    }
}

proof fn lemma_reporting_publishes_nothing(start: DispatcherView, events: Seq<EventView>)
    requires
        start.phase is Reporting,
        episode(start, events).0.phase.resting(),
    ensures
        episode(start, events).1 == Seq::<OutboundEventView>::empty(),
    decreases events.len(),
{
    if events.len() > 0 {
        let (after, action) = start.next(events[0]);
        if !after.phase.resting() {
            assert(after == start);
            lemma_reporting_publishes_nothing(after, events.drop_first());
            assert(published_by(action) + episode(after, events.drop_first()).1
                =~= Seq::<OutboundEventView>::empty());
        }
    }
}

proof fn lemma_deploy_closes_once(start: DispatcherView, job: JobView, events: Seq<EventView>)
    requires
        deploying(start.phase, job),
        episode(start, events).0.phase.resting(),
    ensures
        episode(start, events).1.len() == 1,
        closes_deploy(
            episode(start, events).1[0],
            job.task->Deploy_0.project_id,
            job.correlation_id,
            job.command_id,
        ),
    decreases events.len(),
{
    if events.len() > 0 {
        let (after, action) = start.next(events[0]);
        let rest = events.drop_first();
        assert(!after.phase.resting());
        if after.phase is Reporting {
            lemma_reporting_publishes_nothing(after, rest);
            assert(published_by(action) + episode(after, rest).1 =~= published_by(action));
        } else {
            assert(deploying(after.phase, job));
            lemma_deploy_closes_once(after, job, rest);
            assert(published_by(action) + episode(after, rest).1 =~= episode(after, rest).1);
        }
    }
}

/// Processing a deploy command whose payload decodes to a well-formed
/// deploy command publishes exactly two events by the time the dispatcher
/// comes to rest: first the Started event, then one terminal event
/// (Completed or Failed). Both carry the command's correlation id and name
/// the command as their cause. This holds whatever the outcomes of
/// publishing, of the engine and of the pauses are, and however many
/// events arrive that the dispatcher did not ask for.
pub proof fn law_deploy_event_sequence(
    start: DispatcherView,
    envelope: CommandEnvelopeView,
    command: DeployCommandView,
    events: Seq<EventView>,
)
    requires
        start.phase is DecodingEnvelope,
        envelope.command_type == CommandType::Deploy,
        command.wf(),
        events.len() >= 2,
        events[0] == EventView::Envelope(Ok(envelope)),
        events[1] == EventView::DeployPayload(Ok(command)),
        episode(start, events).0.phase.resting(),
    ensures
        episode(start, events).1.len() == 2,
        episode(start, events).1[0] == deploy_event_of(
            command.project_id,
            DeployStatus::Started,
            "Deployment started"@,
            envelope.correlation_id,
            envelope.command_id,
        ),
        closes_deploy(
            episode(start, events).1[1],
            command.project_id,
            envelope.correlation_id,
            envelope.command_id,
        ),
{
    let (decoding, first) = start.next(events[0]);
    let tail = events.drop_first();
    assert(tail[0] == events[1]);
    let (announcing, second) = decoding.next(tail[0]);
    let job = JobView {
        command_id: envelope.command_id,
        correlation_id: envelope.correlation_id,
        task: TaskView::Deploy(command),
    };
    assert(deploying(announcing.phase, job));
    let rest = tail.drop_first();
    assert(episode(start, events).0 == episode(decoding, tail).0);
    assert(episode(decoding, tail).0 == episode(announcing, rest).0);
    lemma_deploy_closes_once(announcing, job, rest);
    assert(episode(decoding, tail).1 =~= published_by(second) + episode(announcing, rest).1);
    assert(episode(start, events).1 =~= published_by(first) + episode(decoding, tail).1);
}

/// The command that the dispatcher has in hand while it takes `event`: its
/// command id and its correlation id. `None` between commands.
pub open spec fn command_in_hand(state: DispatcherView, event: EventView) -> Option<
    (Seq<char>, Seq<char>),
> {
    match state.phase {
        PhaseView::DecodingEnvelope => match event {
            EventView::Envelope(Ok(envelope)) => Some(
                (envelope.command_id, envelope.correlation_id),
            ),
            _ => None,
        },
        PhaseView::DecodingDeploy(command_id, correlation_id) => Some(
            (command_id, correlation_id),
        ),
        PhaseView::Announcing(job) => Some((job.command_id, job.correlation_id)),
        PhaseView::Working(job, _) => Some((job.command_id, job.correlation_id)),
        PhaseView::Pausing(job, _) => Some((job.command_id, job.correlation_id)),
        _ => None,
    }
}

/// The command that a phase works on, where it holds one.
pub open spec fn command_of(phase: PhaseView) -> Option<(Seq<char>, Seq<char>)> {
    match phase {
        PhaseView::DecodingDeploy(command_id, correlation_id) => Some(
            (command_id, correlation_id),
        ),
        PhaseView::Announcing(job) => Some((job.command_id, job.correlation_id)),
        PhaseView::Working(job, _) => Some((job.command_id, job.correlation_id)),
        PhaseView::Pausing(job, _) => Some((job.command_id, job.correlation_id)),
        _ => None,
    }
}

/// Every event that the dispatcher publishes, for a command of any kind,
/// carries the correlation id of the command in hand and names that
/// command as its cause. And while a command is in hand, its ids travel
/// unchanged from phase to phase.
pub proof fn law_events_name_their_command(state: DispatcherView, event: EventView)
    ensures
        state.next(event).1 matches ActionView::Publish(published) ==> command_in_hand(
            state,
            event,
        ) == Some((published.causation_id, published.correlation_id)),
        command_of(state.next(event).0.phase) is Some ==> command_of(state.next(event).0.phase)
            == command_in_hand(state, event),
{
}

/// A listing of services that failed is a failure of the status command,
/// with the error as it came. It is never read as a stack without
/// services; only a listing that succeeded can give an empty report.
pub proof fn law_failed_listing_is_a_failure(project_id: Seq<char>, error: ErrorView)
    ensures
        judge(TaskView::Status(project_id), Err(error)) == Err::<EventBodyView, ErrorView>(error),
        judge(
            TaskView::Status(project_id),
            Ok(WorkOutputView::Services(Seq::<ServiceInfoView>::empty())),
        ) == Ok::<EventBodyView, ErrorView>(
            EventBodyView::Services(Seq::<crate::docker::ServiceStatusView>::empty()),
        ),
{
    assert(stack_statuses(project_id, Seq::<ServiceInfoView>::empty())
        =~= Seq::<crate::docker::ServiceStatusView>::empty());
}

/// A message that cannot be decoded is dropped: the dispatcher asks for
/// the next message and stands as it stood before the message came, but
/// for the count of dropped messages. What follows is therefore processed
/// as if the malformed message had never arrived.
pub proof fn law_malformed_message_is_skipped(
    start: DispatcherView,
    payload: Seq<u8>,
    reason: Seq<char>,
)
    requires
        start.phase is Idle,
        !start.shutdown,
    ensures
        start.next(EventView::Message(Some(payload))).1 == ActionView::DecodeEnvelope(payload),
        start.next(EventView::Message(Some(payload))).0.next(
            EventView::Envelope(Err(reason)),
        ) == (start.counting(start.metrics.dropped()), ActionView::Pull),
        start.next(EventView::Message(None)) == (
            start.counting(start.metrics.dropped()),
            ActionView::Pull,
        ),
{
}

/// A deploy command whose payload cannot be decoded is dropped in the
/// same way, and publishes nothing.
pub proof fn law_malformed_deploy_is_skipped(
    start: DispatcherView,
    envelope: CommandEnvelopeView,
    reason: Seq<char>,
)
    requires
        start.phase is DecodingEnvelope,
        !start.shutdown,
        envelope.command_type == CommandType::Deploy,
    ensures
        start.next(EventView::Envelope(Ok(envelope))).1 == ActionView::DecodeDeploy(
            envelope.payload,
        ),
        start.next(EventView::Envelope(Ok(envelope))).0.next(
            EventView::DeployPayload(Err(reason)),
        ) == (
            start.counting(start.metrics.dropped()).in_phase(PhaseView::Idle),
            ActionView::Pull,
        ),
{
}

/// Once shutdown is asked for it stays asked for, and the dispatcher never
/// again asks for a message. The message in hand is processed to its end;
/// when the dispatcher then comes to rest, it has stopped.
pub proof fn law_shutdown_stops_pulling(start: DispatcherView, event: EventView)
    requires
        start.shutdown,
    ensures
        start.next(event).0.shutdown,
        start.next(event).1 != ActionView::Pull,
        !start.phase.resting() && start.next(event).0.phase.resting() ==> start.next(
            event,
        ).0.phase is Stopped && start.next(event).1 == ActionView::Stop,
{
}

/// The dispatcher does not set or clear the shutdown request by itself,
/// and it keeps its identity and its retry policy.
pub proof fn law_step_keeps_identity(start: DispatcherView, event: EventView)
    ensures
        start.next(event).0.shutdown == start.shutdown,
        start.next(event).0.agent_id == start.agent_id,
        start.next(event).0.policy == start.policy,
{
}

} // verus!
