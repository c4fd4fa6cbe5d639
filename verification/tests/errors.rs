use runner_agent::error::{AgentError, ErrorKind};

#[test]
fn message_puts_the_class_before_the_detail() {
    let cases = vec![
        (AgentError::Config("x".to_string()), "Configuration error: x"),
        (AgentError::Grpc("x".to_string()), "gRPC error: x"),
        (AgentError::GrpcTransport("x".to_string()), "gRPC transport error: x"),
        (AgentError::Kafka("x".to_string()), "Kafka error: x"),
        (AgentError::Docker("x".to_string()), "Docker error: x"),
        (AgentError::Serialization("x".to_string()), "Serialization error: x"),
        (AgentError::Io("x".to_string()), "IO error: x"),
        (AgentError::CommandExecution("x".to_string()), "Command execution error: x"),
        (AgentError::HealthCheck("x".to_string()), "Health check failed: x"),
        (AgentError::Update("x".to_string()), "Update error: x"),
        (AgentError::Authentication("x".to_string()), "Authentication error: x"),
        (AgentError::InvalidState("x".to_string()), "Invalid state: x"),
        (AgentError::Timeout("x".to_string()), "Timeout: x"),
        (AgentError::Unknown("x".to_string()), "Unknown error: x"),
    ];
    for (error, expected) in cases {
        assert_eq!(error.message(), expected);
    }
}

#[test]
fn transport_and_timeout_failures_are_transient() {
    assert!(AgentError::GrpcTransport("down".to_string()).is_transient());
    assert!(AgentError::Kafka("broker gone".to_string()).is_transient());
    assert!(AgentError::Timeout("slow".to_string()).is_transient());
}

#[test]
fn other_failures_are_not_transient() {
    let kinds = vec![
        ErrorKind::Config,
        ErrorKind::Grpc,
        ErrorKind::Docker,
        ErrorKind::Serialization,
        ErrorKind::Io,
        ErrorKind::CommandExecution,
        ErrorKind::HealthCheck,
        ErrorKind::Update,
        ErrorKind::Authentication,
        ErrorKind::InvalidState,
        ErrorKind::Unknown,
    ];
    for kind in kinds {
        assert!(!kind.is_transient());
        assert!(!AgentError::of(kind, "x".to_string()).is_transient());
    }
}

#[test]
fn of_builds_the_error_of_the_given_class() {
    let error = AgentError::of(ErrorKind::Timeout, "after 30 s".to_string());
    assert!(matches!(error, AgentError::Timeout(_)));
    assert_eq!(error.kind(), ErrorKind::Timeout);
    assert_eq!(error.detail(), "after 30 s");
}

#[test]
fn clone_keeps_class_and_detail() {
    let error = AgentError::Docker("no daemon".to_string());
    let copy = error.clone();
    assert_eq!(copy.kind(), ErrorKind::Docker);
    assert_eq!(copy.detail(), "no daemon");
}
