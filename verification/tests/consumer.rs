use runner_agent::config::Config;
use runner_agent::consumer::{Action, Event, KafkaConsumer, Work, WorkOutput};
use runner_agent::docker::{CommandOutput, ServiceInfo};
use runner_agent::error::AgentError;
use runner_agent::producer::{EventBody, OutboundEvent};
use runner_agent::types::{
    CommandEnvelope, CommandMetadata, CommandType, DeployCommand, DeployStatus, EventType,
};

fn config() -> Config {
    let mut config = Config::with_consumer_group("group-1".to_string());
    config.kafka.brokers = vec!["k1:9092".to_string(), "k2:9092".to_string()];
    config
}

fn consumer() -> KafkaConsumer {
    KafkaConsumer::new(&config(), "agent-1")
}

fn envelope(id: &str, kind: CommandType, project: Option<&str>, correlation: &str) -> CommandEnvelope {
    CommandEnvelope {
        command_id: id.to_string(),
        command_type: kind,
        payload: b"payload".to_vec(),
        correlation_id: correlation.to_string(),
        causation_id: None,
        timestamp: 1_700_000_000_000,
        metadata: CommandMetadata {
            user_id: None,
            project_id: project.map(|p| p.to_string()),
            retry_attempt: 0,
        },
    }
}

fn deploy_command() -> DeployCommand {
    DeployCommand {
        project_id: "p1".to_string(),
        docker_stack_yml: "services: {}".to_string(),
        env_vars: vec![("A".to_string(), "1".to_string())],
    }
}

fn engine_ok() -> Event {
    Event::Worked(Ok(WorkOutput::Engine(CommandOutput { success: true, stderr: String::new() })))
}

fn engine_failed(stderr: &str) -> Event {
    Event::Worked(Ok(WorkOutput::Engine(CommandOutput {
        success: false,
        stderr: stderr.to_string(),
    })))
}

fn published(action: Action) -> OutboundEvent {
    match action {
        Action::Publish(event) => event,
        other => panic!("expected a publish, got {:?}", other),
    }
}

fn deploy_body(event: &OutboundEvent) -> (String, DeployStatus, String) {
    match &event.body {
        EventBody::Deploy(said) => (said.project_id.clone(), said.status, said.message.clone()),
        other => panic!("expected a deploy event, got {:?}", other),
    }
}

fn begin(consumer: &mut KafkaConsumer, command: CommandEnvelope) -> Action {
    assert!(matches!(consumer.start(), Action::Pull));
    assert!(matches!(
        consumer.process_message(Some(b"raw".to_vec())),
        Action::DecodeEnvelope(bytes) if bytes == b"raw".to_vec()
    ));
    consumer.step(Event::Envelope(Ok(command)))
}

#[test]
fn commands_topic_is_derived_from_the_agent() {
    assert_eq!(consumer().topic(), "runner.commands.agent-1");
}

#[test]
fn consumer_settings_follow_the_configuration() {
    let consumer = consumer();
    let settings = consumer.client_config();
    assert_eq!(settings.get("bootstrap.servers"), Some("k1:9092,k2:9092"));
    assert_eq!(settings.get("group.id"), Some("group-1"));
    assert_eq!(settings.get("enable.auto.commit"), Some("true"));
    assert_eq!(settings.get("auto.offset.reset"), Some("earliest"));
    assert_eq!(settings.get("session.timeout.ms"), Some("30000"));
    assert_eq!(settings.get("enable.partition.eof"), Some("false"));
    assert_eq!(settings.get("security.protocol"), None);
    assert_eq!(settings.config_map().len(), 6);
}

#[test]
fn consumer_settings_turn_on_transport_security() {
    let mut with_ssl = config();
    with_ssl.kafka.enable_ssl = true;
    with_ssl.kafka.ssl_ca_location = Some("/etc/ssl/ca.pem".to_string());
    let consumer = KafkaConsumer::new(&with_ssl, "agent-1");
    assert_eq!(consumer.client_config().get("security.protocol"), Some("ssl"));
    assert_eq!(consumer.client_config().get("ssl.ca.location"), Some("/etc/ssl/ca.pem"));
}

#[test]
fn new_consumer_rests_with_zero_counts() {
    let consumer = consumer();
    assert!(consumer.is_resting());
    assert!(!consumer.is_stopped());
    assert!(!consumer.is_shutdown());
    let metrics = consumer.metrics();
    assert_eq!(metrics.commands_processed, 0);
    assert_eq!(metrics.commands_failed, 0);
    assert_eq!(metrics.messages_dropped, 0);
    assert_eq!(metrics.events_published, 0);
}

#[test]
fn deploy_command_emits_started_then_completed() {
    let mut consumer = consumer();
    let action = begin(&mut consumer, envelope("c1", CommandType::Deploy, None, "r1"));
    assert!(matches!(action, Action::DecodeDeploy(bytes) if bytes == b"payload".to_vec()));

    let started = published(consumer.handle_deploy_command(Ok(deploy_command())));
    assert_eq!(started.event_type, EventType::DeployStarted);
    assert_eq!(started.correlation_id, "r1");
    assert_eq!(started.causation_id, "c1");
    assert_eq!(
        deploy_body(&started),
        ("p1".to_string(), DeployStatus::Started, "Deployment started".to_string())
    );

    let plan = match consumer.step(Event::Published(Ok(()))) {
        Action::Work(Work::Deploy(plan)) => plan,
        other => panic!("expected a deploy, got {:?}", other),
    };
    assert_eq!(plan.project_path, "/opt/axion/projects/p1");
    assert_eq!(plan.stack_file, "/opt/axion/projects/p1/docker-stack.yml");
    assert_eq!(plan.stack_yml, "services: {}");
    assert_eq!(plan.env_file, "/opt/axion/projects/p1/.env");
    assert_eq!(plan.env_content, "A=1");
    assert_eq!(plan.command.args.last(), Some(&"axion-p1".to_string()));

    let completed = published(consumer.step(engine_ok()));
    assert_eq!(completed.event_type, EventType::DeployCompleted);
    assert_eq!(completed.correlation_id, "r1");
    assert_eq!(completed.causation_id, "c1");
    assert_eq!(
        deploy_body(&completed),
        ("p1".to_string(), DeployStatus::Completed, "Deployment completed".to_string())
    );

    assert!(matches!(consumer.step(Event::Published(Ok(()))), Action::Pull));
    assert!(consumer.is_resting());
    let metrics = consumer.metrics();
    assert_eq!(metrics.commands_processed, 1);
    assert_eq!(metrics.commands_failed, 0);
    assert_eq!(metrics.events_published, 2);
}

#[test]
fn failed_deploy_emits_started_then_failed_with_the_error() {
    let mut consumer = consumer();
    begin(&mut consumer, envelope("c2", CommandType::Deploy, None, "r2"));
    let started = published(consumer.handle_deploy_command(Ok(deploy_command())));
    assert_eq!(started.event_type, EventType::DeployStarted);
    assert!(matches!(consumer.step(Event::Published(Ok(()))), Action::Work(Work::Deploy(_))));

    let failed = published(consumer.step(engine_failed("bad descriptor")));
    assert_eq!(failed.event_type, EventType::DeployFailed);
    assert_eq!(failed.correlation_id, "r2");
    assert_eq!(failed.causation_id, "c2");
    assert_eq!(
        deploy_body(&failed),
        (
            "p1".to_string(),
            DeployStatus::Failed,
            "Command execution error: Failed to deploy stack: bad descriptor".to_string()
        )
    );
    assert!(matches!(consumer.step(Event::Published(Ok(()))), Action::Pull));
    assert_eq!(consumer.metrics().commands_failed, 1);
    assert_eq!(consumer.metrics().commands_processed, 0);
}

#[test]
fn deploy_runs_on_when_the_started_event_cannot_be_published() {
    let mut consumer = consumer();
    begin(&mut consumer, envelope("c1", CommandType::Deploy, None, "r1"));
    published(consumer.handle_deploy_command(Ok(deploy_command())));
    let refused = Event::Published(Err(AgentError::Kafka("queue full".to_string())));
    assert!(matches!(consumer.step(refused), Action::Work(Work::Deploy(_))));
    assert_eq!(consumer.metrics().events_published, 0);
}

#[test]
fn transient_failure_is_retried_within_the_attempts_allowed() {
    let mut consumer = consumer();
    begin(&mut consumer, envelope("c1", CommandType::Deploy, None, "r1"));
    published(consumer.handle_deploy_command(Ok(deploy_command())));
    assert!(matches!(consumer.step(Event::Published(Ok(()))), Action::Work(Work::Deploy(_))));

    let timeout = || Event::Worked(Err(AgentError::Timeout("engine".to_string())));
    assert!(matches!(consumer.step(timeout()), Action::Sleep(ms) if ms <= 100));
    assert!(matches!(consumer.step(Event::Woke), Action::Work(Work::Deploy(_))));
    assert!(matches!(consumer.step(timeout()), Action::Sleep(ms) if ms <= 10000));
    assert!(matches!(consumer.step(Event::Woke), Action::Work(Work::Deploy(_))));

    let failed = published(consumer.step(timeout()));
    assert_eq!(failed.event_type, EventType::DeployFailed);
    assert_eq!(deploy_body(&failed).2, "Timeout: engine");
    assert_eq!(consumer.metrics().commands_failed, 1);
}

#[test]
fn transient_failure_followed_by_success_completes() {
    let mut consumer = consumer();
    begin(&mut consumer, envelope("c1", CommandType::Deploy, None, "r1"));
    published(consumer.handle_deploy_command(Ok(deploy_command())));
    consumer.step(Event::Published(Ok(())));
    let transport = Event::Worked(Err(AgentError::GrpcTransport("reset".to_string())));
    assert!(matches!(consumer.step(transport), Action::Sleep(_)));
    assert!(matches!(consumer.step(Event::Woke), Action::Work(Work::Deploy(_))));
    let completed = published(consumer.step(engine_ok()));
    assert_eq!(completed.event_type, EventType::DeployCompleted);
    assert_eq!(consumer.metrics().commands_processed, 1);
}

#[test]
fn failure_that_is_not_transient_is_not_retried() {
    let mut consumer = consumer();
    begin(&mut consumer, envelope("c1", CommandType::Deploy, None, "r1"));
    published(consumer.handle_deploy_command(Ok(deploy_command())));
    consumer.step(Event::Published(Ok(())));
    let io = Event::Worked(Err(AgentError::Io("disk full".to_string())));
    let failed = published(consumer.step(io));
    assert_eq!(failed.event_type, EventType::DeployFailed);
    assert_eq!(deploy_body(&failed).2, "IO error: disk full");
}

#[test]
fn malformed_message_does_not_stop_the_next_one() {
    let mut consumer = consumer();
    assert!(matches!(consumer.start(), Action::Pull));
    assert!(matches!(
        consumer.process_message(Some(b"not json".to_vec())),
        Action::DecodeEnvelope(_)
    ));
    let complaint = Event::Envelope(Err("expected value at line 1".to_string()));
    assert!(matches!(consumer.step(complaint), Action::Pull));
    assert!(consumer.is_resting());
    assert_eq!(consumer.metrics().messages_dropped, 1);

    assert!(matches!(
        consumer.process_message(Some(b"raw".to_vec())),
        Action::DecodeEnvelope(_)
    ));
    let action = consumer.step(Event::Envelope(Ok(envelope("c1", CommandType::Deploy, None, "r1"))));
    assert!(matches!(action, Action::DecodeDeploy(_)));
    let started = published(consumer.handle_deploy_command(Ok(deploy_command())));
    assert_eq!(started.event_type, EventType::DeployStarted);
}

#[test]
fn message_without_payload_is_dropped() {
    let mut consumer = consumer();
    consumer.start();
    assert!(matches!(consumer.process_message(None), Action::Pull));
    assert_eq!(consumer.metrics().messages_dropped, 1);
}

#[test]
fn malformed_deploy_payload_is_dropped_without_events() {
    let mut consumer = consumer();
    begin(&mut consumer, envelope("c1", CommandType::Deploy, None, "r1"));
    let action = consumer.handle_deploy_command(Err("missing field".to_string()));
    assert!(matches!(action, Action::Pull));
    assert_eq!(consumer.metrics().messages_dropped, 1);
    assert_eq!(consumer.metrics().events_published, 0);
}

#[test]
fn deploy_payload_with_repeated_names_is_dropped() {
    let mut consumer = consumer();
    begin(&mut consumer, envelope("c1", CommandType::Deploy, None, "r1"));
    let mut command = deploy_command();
    command.env_vars.push(("A".to_string(), "2".to_string()));
    assert!(matches!(consumer.handle_deploy_command(Ok(command)), Action::Pull));
    assert_eq!(consumer.metrics().messages_dropped, 1);
}

#[test]
fn shutdown_before_start_pulls_nothing() {
    let mut consumer = consumer();
    assert!(consumer.shutdown().is_ok());
    assert!(consumer.is_shutdown());
    assert!(matches!(consumer.start(), Action::Stop));
    assert!(consumer.is_stopped());
    assert!(matches!(consumer.process_message(Some(b"raw".to_vec())), Action::Stop));
}

#[test]
fn shutdown_lets_the_message_in_hand_finish() {
    let mut consumer = consumer();
    begin(&mut consumer, envelope("c1", CommandType::Deploy, None, "r1"));
    published(consumer.handle_deploy_command(Ok(deploy_command())));
    consumer.shutdown().unwrap();
    assert!(matches!(consumer.step(Event::Published(Ok(()))), Action::Work(Work::Deploy(_))));
    let completed = published(consumer.step(engine_ok()));
    assert_eq!(completed.event_type, EventType::DeployCompleted);
    assert!(matches!(consumer.step(Event::Published(Ok(()))), Action::Stop));
    assert!(consumer.is_stopped());
}

#[test]
fn failed_listing_is_reported_and_never_read_as_empty() {
    let mut consumer = consumer();
    begin(&mut consumer, envelope("c3", CommandType::GetStatus, Some("p1"), "r3"));
    let report = published(
        consumer.step(Event::Worked(Err(AgentError::Docker("daemon gone".to_string())))),
    );
    assert_eq!(report.event_type, EventType::ErrorReport);
    match report.body {
        EventBody::Failure(text) => assert_eq!(text, "Docker error: daemon gone"),
        other => panic!("unexpected body: {:?}", other),
    }
}

#[test]
fn bus_error_pauses_one_second_then_pulls_again() {
    let mut consumer = consumer();
    consumer.start();
    assert!(matches!(
        consumer.step(Event::BusError("broker transport failure".to_string())),
        Action::Sleep(1000)
    ));
    assert!(matches!(consumer.step(Event::Woke), Action::Pull));
}

#[test]
fn end_of_stream_stops_the_loop() {
    let mut consumer = consumer();
    consumer.start();
    assert!(matches!(consumer.step(Event::StreamEnded), Action::Stop));
    assert!(consumer.is_stopped());
}

#[test]
fn status_command_reports_the_services_of_the_stack() {
    let mut consumer = consumer();
    let action = begin(&mut consumer, envelope("c3", CommandType::GetStatus, Some("p1"), "r3"));
    assert!(matches!(action, Action::Work(Work::ListServices)));
    let listed = vec![
        ServiceInfo {
            name: Some("axion-p1_web".to_string()),
            published_ports: Some(2),
            running_tasks: Some(1),
            desired_tasks: Some(2),
        },
        ServiceInfo {
            name: Some("axion-p2_web".to_string()),
            published_ports: Some(1),
            running_tasks: Some(1),
            desired_tasks: Some(1),
        },
    ];
    let report = published(consumer.step(Event::Worked(Ok(WorkOutput::Services(listed)))));
    assert_eq!(report.event_type, EventType::StatusReport);
    assert_eq!(report.correlation_id, "r3");
    assert_eq!(report.causation_id, "c3");
    match report.body {
        EventBody::Services(statuses) => {
            assert_eq!(statuses.len(), 1);
            assert_eq!(statuses[0].name, "axion-p1_web");
            assert_eq!(statuses[0].replicas, 2);
            assert_eq!(statuses[0].status, "degraded");
        }
        other => panic!("unexpected body: {:?}", other),
    }
}

#[test]
fn status_command_without_project_is_refused() {
    let mut consumer = consumer();
    let refusal = published(begin(&mut consumer, envelope("c3", CommandType::GetStatus, None, "r3")));
    assert_eq!(refusal.event_type, EventType::ErrorReport);
    assert_eq!(refusal.correlation_id, "r3");
    assert_eq!(refusal.causation_id, "c3");
    match refusal.body {
        EventBody::Failure(text) => assert_eq!(text, "Invalid state: Command names no project"),
        other => panic!("unexpected body: {:?}", other),
    }
    assert_eq!(consumer.metrics().commands_failed, 1);
    assert!(matches!(consumer.step(Event::Published(Ok(()))), Action::Pull));
}

#[test]
fn stop_command_removes_the_stack() {
    let mut consumer = consumer();
    let action = begin(&mut consumer, envelope("c4", CommandType::Stop, Some("p1"), "r4"));
    match action {
        Action::Work(Work::Remove(command)) => {
            assert_eq!(
                command.args,
                vec!["stack".to_string(), "rm".to_string(), "axion-p1".to_string()]
            );
        }
        other => panic!("expected a removal, got {:?}", other),
    }
    let report = published(consumer.step(engine_failed("Nothing found in stack: axion-p1")));
    assert_eq!(report.event_type, EventType::StatusReport);
    assert!(matches!(report.body, EventBody::Done));
}

#[test]
fn health_command_reports_failure_as_unhealthy() {
    let mut consumer = consumer();
    let action = begin(&mut consumer, envelope("c5", CommandType::HealthCheck, None, "r5"));
    assert!(matches!(action, Action::Work(Work::Ping)));
    let report = published(
        consumer.step(Event::Worked(Err(AgentError::Docker("no socket".to_string())))),
    );
    assert_eq!(report.event_type, EventType::StatusReport);
    assert!(matches!(report.body, EventBody::Health(false)));
    assert_eq!(consumer.metrics().commands_processed, 1);
}

#[test]
fn health_command_reports_an_answered_ping_as_healthy() {
    let mut consumer = consumer();
    begin(&mut consumer, envelope("c5", CommandType::HealthCheck, None, "r5"));
    let report = published(consumer.step(Event::Worked(Ok(WorkOutput::Pong))));
    assert!(matches!(report.body, EventBody::Health(true)));
}

#[test]
fn rollback_is_delegated_between_its_own_events() {
    let mut consumer = consumer();
    let started = published(begin(&mut consumer, envelope("c6", CommandType::Rollback, None, "r6")));
    assert_eq!(started.event_type, EventType::RollbackStarted);
    assert_eq!(started.causation_id, "c6");
    match consumer.step(Event::Published(Ok(()))) {
        Action::Work(Work::Delegate(kind, payload)) => {
            assert_eq!(kind, CommandType::Rollback);
            assert_eq!(payload, b"payload".to_vec());
        }
        other => panic!("expected a delegation, got {:?}", other),
    }
    let failed = published(
        consumer.step(Event::Worked(Err(AgentError::Unknown("no snapshot".to_string())))),
    );
    assert_eq!(failed.event_type, EventType::RollbackFailed);
    match failed.body {
        EventBody::Failure(text) => assert_eq!(text, "Unknown error: no snapshot"),
        other => panic!("unexpected body: {:?}", other),
    }
}

#[test]
fn scale_and_update_are_delegated() {
    for kind in [CommandType::Scale, CommandType::Update] {
        let mut consumer = consumer();
        match begin(&mut consumer, envelope("c7", kind, None, "r7")) {
            Action::Work(Work::Delegate(delegated, _)) => assert_eq!(delegated, kind),
            other => panic!("expected a delegation, got {:?}", other),
        }
        let report = published(consumer.step(Event::Worked(Ok(WorkOutput::Done))));
        assert_eq!(report.event_type, EventType::StatusReport);
        assert!(matches!(report.body, EventBody::Done));
    }
}

#[test]
fn output_of_other_work_fails_the_command() {
    let mut consumer = consumer();
    begin(&mut consumer, envelope("c3", CommandType::GetStatus, Some("p1"), "r3"));
    let report = published(consumer.step(Event::Worked(Ok(WorkOutput::Pong))));
    assert_eq!(report.event_type, EventType::ErrorReport);
    match report.body {
        EventBody::Failure(text) => assert_eq!(text, "Invalid state: Unexpected handler output"),
        other => panic!("unexpected body: {:?}", other),
    }
}

#[test]
fn event_that_was_not_asked_for_is_ignored() {
    let mut consumer = consumer();
    begin(&mut consumer, envelope("c1", CommandType::Deploy, None, "r1"));
    assert!(matches!(consumer.step(Event::Woke), Action::Unexpected));
    assert!(matches!(consumer.step(engine_ok()), Action::Unexpected));
    let started = published(consumer.handle_deploy_command(Ok(deploy_command())));
    assert_eq!(started.event_type, EventType::DeployStarted);
}

#[test]
fn start_while_busy_is_ignored() {
    let mut consumer = consumer();
    begin(&mut consumer, envelope("c1", CommandType::Deploy, None, "r1"));
    assert!(matches!(consumer.start(), Action::Unexpected));
    assert!(!consumer.is_resting());
}

#[test]
fn identical_deploy_commands_ask_for_identical_work() {
    let mut consumer = consumer();
    let mut plans = Vec::new();
    for _ in 0..2 {
        assert!(matches!(
            consumer.process_message(Some(b"raw".to_vec())),
            Action::DecodeEnvelope(_)
        ));
        consumer.step(Event::Envelope(Ok(envelope("c1", CommandType::Deploy, None, "r1"))));
        published(consumer.handle_deploy_command(Ok(deploy_command())));
        match consumer.step(Event::Published(Ok(()))) {
            Action::Work(Work::Deploy(plan)) => plans.push(plan),
            other => panic!("expected a deploy, got {:?}", other),
        }
        published(consumer.step(engine_ok()));
        assert!(matches!(consumer.step(Event::Published(Ok(()))), Action::Pull));
    }
    assert_eq!(plans[0].stack_file, plans[1].stack_file);
    assert_eq!(plans[0].stack_yml, plans[1].stack_yml);
    assert_eq!(plans[0].env_file, plans[1].env_file);
    assert_eq!(plans[0].env_content, plans[1].env_content);
    assert_eq!(plans[0].command.args, plans[1].command.args);
    assert_eq!(consumer.metrics().commands_processed, 2);
}
