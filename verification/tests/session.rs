use runner_agent::config::Config;
use runner_agent::error::{AgentError, ErrorKind};
use runner_agent::grpc::{GrpcClient, HeartbeatAction};

fn config() -> Config {
    Config::with_consumer_group("g".to_string())
}

#[test]
fn connect_gives_the_endpoint_settings() {
    let settings = GrpcClient::new(&config()).connect().unwrap();
    assert_eq!(settings.url, "https://control.axion.dev:443");
    assert_eq!(settings.timeout, 30);
    assert_eq!(settings.tcp_keepalive, 30);
    assert_eq!(settings.http2_keep_alive_interval, 30);
    assert_eq!(settings.keep_alive_timeout, 10);
}

#[test]
fn connect_rejects_an_invalid_address() {
    let mut broken = config();
    broken.control_plane.grpc_url = "http://exa mple.com".to_string();
    let error = GrpcClient::new(&broken).connect().unwrap_err();
    assert_eq!(error.kind(), ErrorKind::Config);
    assert_eq!(error.detail(), "Invalid gRPC URL: invalid URI");
}

#[test]
fn endpoint_for_reports_the_complaint() {
    let url = "nowhere".to_string();
    let error = GrpcClient::endpoint_for(&url, 5, Some("invalid format".to_string())).unwrap_err();
    assert_eq!(error.message(), "Configuration error: Invalid gRPC URL: invalid format");
    let settings = GrpcClient::endpoint_for(&url, 5, None).unwrap();
    assert_eq!(settings.url, "nowhere");
    assert_eq!(settings.timeout, 5);
}

#[test]
fn agent_id_is_absent_until_registered() {
    let mut client = GrpcClient::new(&config());
    assert_eq!(client.agent_id(), None);
    assert!(client.register_agent(Ok("agent-1".to_string())).is_ok());
    assert_eq!(client.agent_id(), Some("agent-1".to_string()));
}

#[test]
fn identity_is_set_once() {
    let mut client = GrpcClient::new(&config());
    client.register_agent(Ok("agent-1".to_string())).unwrap();
    let error = client.register_agent(Ok("agent-2".to_string())).unwrap_err();
    assert_eq!(error.message(), "Invalid state: Agent already registered");
    assert_eq!(client.agent_id(), Some("agent-1".to_string()));
}

#[test]
fn failed_registration_is_handed_back_unchanged() {
    let mut client = GrpcClient::new(&config());
    let refused = client
        .register_agent(Err(AgentError::Authentication("token rejected".to_string())))
        .unwrap_err();
    assert_eq!(refused.message(), "Authentication error: token rejected");
    assert_eq!(client.agent_id(), None);
    let unreachable = client
        .register_agent(Err(AgentError::GrpcTransport("connect timeout".to_string())))
        .unwrap_err();
    assert_eq!(unreachable.kind(), ErrorKind::GrpcTransport);
    assert!(client.register_agent(Ok("agent-1".to_string())).is_ok());
}

#[test]
fn registration_is_retried_on_refused_token_and_transport_failure() {
    let retry = |error: AgentError| GrpcClient::should_retry_registration(&error);
    assert!(retry(AgentError::Authentication("x".to_string())));
    assert!(retry(AgentError::GrpcTransport("x".to_string())));
    assert!(retry(AgentError::Timeout("x".to_string())));
    assert!(!retry(AgentError::Config("x".to_string())));
    assert!(!retry(AgentError::InvalidState("x".to_string())));
}

#[test]
fn registration_policy_takes_the_configured_attempts() {
    let mut five = config();
    five.control_plane.retry_attempts = 5;
    let policy = GrpcClient::new(&five).registration_policy();
    assert_eq!(policy.max_retries(), 5);
    assert_eq!(policy.initial_delay(), 100);
    assert_eq!(policy.max_delay(), 30000);
}

#[test]
fn unregister_gives_the_identity_once() {
    let mut client = GrpcClient::new(&config());
    client.register_agent(Ok("agent-1".to_string())).unwrap();
    assert_eq!(client.unregister_agent(), Some("agent-1".to_string()));
    assert_eq!(client.unregister_agent(), None);
    assert_eq!(client.unregister_agent(), None);
}

#[test]
fn identity_stays_after_unregistering() {
    let mut client = GrpcClient::new(&config());
    client.register_agent(Ok("agent-1".to_string())).unwrap();
    client.unregister_agent();
    assert_eq!(client.agent_id(), Some("agent-1".to_string()));
    client.unregister_agent();
    assert_eq!(client.agent_id(), Some("agent-1".to_string()));
    let error = client.register_agent(Ok("agent-2".to_string())).unwrap_err();
    assert_eq!(error.message(), "Invalid state: Session is closed");
    assert_eq!(client.agent_id(), Some("agent-1".to_string()));
}

#[test]
fn unregister_without_registration_gives_nothing() {
    let mut client = GrpcClient::new(&config());
    assert_eq!(client.unregister_agent(), None);
    assert_eq!(client.agent_id(), None);
    assert!(client.register_agent(Ok("agent-1".to_string())).is_err());
    assert_eq!(client.agent_id(), None);
}

#[test]
fn unregistering_succeeds_however_the_call_ends() {
    let client = GrpcClient::new(&config());
    assert!(client.unregistered(None).is_ok());
    assert!(client.unregistered(Some(Ok(()))).is_ok());
    let failed = Err(AgentError::GrpcTransport("connection reset".to_string()));
    assert!(client.unregistered(Some(failed)).is_ok());
}

#[test]
fn closed_session_sends_no_heartbeat() {
    let mut client = GrpcClient::new(&config());
    client.register_agent(Ok("agent-1".to_string())).unwrap();
    client.unregister_agent();
    assert!(matches!(client.send_heartbeat(false), HeartbeatAction::Skip));
}

#[test]
fn heartbeat_is_sent_only_for_a_registered_agent() {
    let mut client = GrpcClient::new(&config());
    assert!(matches!(client.send_heartbeat(false), HeartbeatAction::Skip));
    client.register_agent(Ok("agent-1".to_string())).unwrap();
    match client.send_heartbeat(false) {
        HeartbeatAction::Send(id) => assert_eq!(id, "agent-1"),
        other => panic!("unexpected action: {:?}", other),
    }
}

#[test]
fn heartbeat_stops_on_shutdown() {
    let mut client = GrpcClient::new(&config());
    assert!(matches!(client.send_heartbeat(true), HeartbeatAction::Stop));
    client.register_agent(Ok("agent-1".to_string())).unwrap();
    assert!(matches!(client.send_heartbeat(true), HeartbeatAction::Stop));
}

#[test]
fn heartbeat_interval_and_deadline_follow_the_configuration() {
    let client = GrpcClient::new(&config());
    assert_eq!(client.start_heartbeat(), 30);
    assert_eq!(client.heartbeat_deadline(), 30);
    let mut quick = config();
    quick.health.check_interval = 5;
    assert_eq!(GrpcClient::new(&quick).start_heartbeat(), 5);
    assert_eq!(GrpcClient::new(&quick).heartbeat_deadline(), 5);
    let mut patient = config();
    patient.control_plane.timeout = 3;
    assert_eq!(GrpcClient::new(&patient).heartbeat_deadline(), 3);
}

#[test]
fn session_forwards_no_metrics_and_offers_no_update() {
    let client = GrpcClient::new(&config());
    assert!(client.send_metrics(vec![1, 2, 3]).is_ok());
    assert!(matches!(client.check_for_updates(), Ok(None)));
}
