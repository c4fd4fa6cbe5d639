//! The agent's configuration and its validation rules.

use vstd::prelude::*;
use crate::error::{AgentError, ErrorKind};
use crate::ident::{fresh_id, ID_LEN};
use crate::text::concat2;

verus! {

/// The version the agent reports of itself.
pub const AGENT_VERSION: &'static str = "0.1.0";

#[derive(Debug, Clone)]
pub struct Config {
    pub agent: AgentConfig,
    pub control_plane: ControlPlaneConfig,
    pub kafka: KafkaConfig,
    pub telemetry: TelemetryConfig,
    pub health: HealthConfig,
    pub update: UpdateConfig,
    pub logging: LoggingConfig,
    pub security: SecurityConfig,
    pub local: LocalConfig,
}

#[derive(Debug, Clone)]
pub struct AgentConfig {
    pub token: String,
    pub version: String,
    pub update_channel: String,
    pub auto_update_enabled: bool,
}

#[derive(Debug, Clone)]
pub struct ControlPlaneConfig {
    pub grpc_url: String,
    pub timeout: u64,
    pub retry_attempts: u32,
}

#[derive(Debug, Clone)]
pub struct KafkaConfig {
    pub brokers: Vec<String>,
    pub consumer_group: String,
    pub enable_ssl: bool,
    pub ssl_ca_location: Option<String>,
}

#[derive(Debug, Clone)]
pub struct TelemetryConfig {
    pub enabled: bool,
    pub interval_seconds: u64,
    pub batch_size: usize,
    pub send_timeout: u64,
}

#[derive(Debug, Clone)]
pub struct HealthConfig {
    pub check_interval: u64,
    pub timeout: u64,
    pub failure_threshold: u32,
    pub port: u16,
}

#[derive(Debug, Clone)]
pub struct UpdateConfig {
    pub check_interval: u64,
    pub download_timeout: u64,
    pub install_timeout: u64,
    pub rollback_on_failure: bool,
    pub max_backups: u32,
}

#[derive(Debug, Clone)]
pub struct LoggingConfig {
    pub level: String,
    pub format: String,
    /// Path of the log file.
    pub file: String,
    pub max_size_mb: u64,
    pub max_files: u32,
}

#[derive(Debug, Clone)]
pub struct SecurityConfig {
    pub tls_verify: bool,
    /// Path of the certificate authority bundle, if one is configured.
    pub tls_ca_location: Option<String>,
    pub min_tls_version: String,
}

#[derive(Debug, Clone)]
pub struct LocalConfig {
    pub enabled: bool,
    /// Path of the local control socket.
    pub ipc_socket_path: Option<String>,
    pub grpc_local_port: Option<u16>,
}

/// `path` starts with a tilde.
pub open spec fn starts_with_tilde(path: Seq<char>) -> bool {
    path.len() > 0 && path[0] == '~'
}

/// `tail` is a final segment of `s`.
pub open spec fn is_suffix(tail: Seq<char>, s: Seq<char>) -> bool {
    tail.len() <= s.len() && s.subrange(s.len() - tail.len(), s.len() as int) == tail
}

/// Calls `shellexpand::tilde`, which replaces a leading tilde by the home
/// directory. A path without a leading tilde comes back as it is. Of a
/// path with one, what follows the tilde is kept at the end; what stands
/// before it depends on the machine (the home directory, or the tilde
/// itself where none is known or a user name follows).
#[verifier::external_body]
fn expand_tilde(path: &str) -> (expanded: String)
    ensures
        !starts_with_tilde(path@) ==> expanded@ == path@,
        starts_with_tilde(path@) ==> is_suffix(path@.skip(1), expanded@),
{
    shellexpand::tilde(path).into_owned()
}

/// The first rule that a configuration breaks, in the order in which the
/// rules are checked; `None` where it breaks none.
pub open spec fn first_violation(token: Seq<char>, grpc_url: Seq<char>, brokers: nat) -> Option<
    Seq<char>,
> {
    if token.len() == 0 {
        Some("Agent token cannot be empty"@)
    } else if grpc_url.len() == 0 {
        Some("Control Plane gRPC URL cannot be empty"@)
    } else if brokers == 0 {
        Some("Kafka brokers cannot be empty"@)
    } else {
        None
    }
}

impl Config {
    /// The rule this configuration breaks first, if any.
    pub open spec fn violation(&self) -> Option<Seq<char>> {
        first_violation(
            self.agent.token@,
            self.control_plane.grpc_url@,
            self.kafka.brokers@.len(),
        )
    }

    /// Checks that the token, the control plane address and the broker list
    /// are present. The first missing one is reported as a configuration error.
    pub fn validate(&self) -> (res: Result<(), AgentError>)
        ensures
            res is Ok <==> self.violation() is None,
            res matches Err(e) ==> self.violation() == Some(e@.detail) && e@.kind
                == ErrorKind::Config,
    {
        if self.agent.token.as_str().is_empty() {
            return Err(AgentError::Config(String::from_str("Agent token cannot be empty")));
        }
        if self.control_plane.grpc_url.as_str().is_empty() {
            return Err(
                AgentError::Config(String::from_str("Control Plane gRPC URL cannot be empty")),
            );
        }
        if self.kafka.brokers.len() == 0 {
            return Err(AgentError::Config(String::from_str("Kafka brokers cannot be empty")));
        }
        Ok(())
    }

    /// The paths at which a configuration file is looked for, in order of
    /// preference: the system-wide file, the file in the user's home
    /// directory, and the file in the working directory.
    pub fn search_paths() -> (paths: Vec<String>)
        ensures
            paths@.len() == 3,
            paths@[0]@ == "/etc/axion/agent.toml"@,
            is_suffix("/.axion/agent.toml"@, paths@[1]@),
            paths@[2]@ == "./agent.toml"@,
    {
        proof {
            reveal_strlit("/etc/axion/agent.toml");
            reveal_strlit("~/.axion/agent.toml");
            reveal_strlit("/.axion/agent.toml");
            reveal_strlit("./agent.toml");
            assert("~/.axion/agent.toml"@.skip(1) =~= "/.axion/agent.toml"@);
        }
        let mut paths: Vec<String> = Vec::new();
        paths.push(expand_tilde("/etc/axion/agent.toml"));
        paths.push(expand_tilde("~/.axion/agent.toml"));
        paths.push(expand_tilde("./agent.toml"));
        paths
    }

    /// Picks the configuration file to load: the first of the search paths
    /// that exists, given which of them do.
    pub fn first_existing(found: &Vec<bool>) -> (pick: Option<usize>)
        ensures
            pick matches Some(i) ==> i < found@.len() && found@[i as int] && forall|j: int|
                0 <= j < i ==> !found@[j],
            pick is None ==> forall|j: int| 0 <= j < found@.len() ==> !found@[j],
    {
        let mut i: usize = 0;
        while i < found.len()
            invariant
                i <= found.len(),
                forall|j: int| 0 <= j < i ==> !found@[j],
            decreases found.len() - i,
        {
            if found[i] {
                return Some(i);
            }
            i += 1;
        }
        None
    }

    /// Every setting has its default value, and the consumer group is `group`.
    pub open spec fn is_default_with_group(&self, group: Seq<char>) -> bool {
        &&& self.agent.token@ == Seq::<char>::empty()
        &&& self.agent.version@ == AGENT_VERSION@
        &&& self.agent.update_channel@ == "stable"@
        &&& self.agent.auto_update_enabled
        &&& self.control_plane.grpc_url@ == "https://control.axion.dev:443"@
        &&& self.control_plane.timeout == 30
        &&& self.control_plane.retry_attempts == 3
        &&& self.kafka.brokers@.len() == 1
        &&& self.kafka.brokers@[0]@ == "localhost:9092"@
        &&& self.kafka.consumer_group@ == group
        &&& !self.kafka.enable_ssl
        &&& self.kafka.ssl_ca_location is None
        &&& self.telemetry.enabled
        &&& self.telemetry.interval_seconds == 10
        &&& self.telemetry.batch_size == 100
        &&& self.telemetry.send_timeout == 5
        &&& self.health.check_interval == 30
        &&& self.health.timeout == 10
        &&& self.health.failure_threshold == 3
        &&& self.health.port == 8080
        &&& self.update.check_interval == 3600
        &&& self.update.download_timeout == 300
        &&& self.update.install_timeout == 60
        &&& self.update.rollback_on_failure
        &&& self.update.max_backups == 5
        &&& self.logging.level@ == "info"@
        &&& self.logging.format@ == "json"@
        &&& self.logging.file@ == "/var/log/axion/agent.log"@
        &&& self.logging.max_size_mb == 100
        &&& self.logging.max_files == 5
        &&& self.security.tls_verify
        &&& self.security.tls_ca_location is None
        &&& self.security.min_tls_version@ == "1.2"@
        &&& !self.local.enabled
        &&& self.local.ipc_socket_path matches Some(p) && p@ == "/tmp/axion-runner-agent.sock"@
        &&& self.local.grpc_local_port == Some(50051u16)
    }

    /// The default configuration for a consumer group named `group`.
    pub fn with_consumer_group(group: String) -> (config: Config)
        ensures
            config.is_default_with_group(group@),
    {
        let mut brokers: Vec<String> = Vec::new();
        brokers.push(String::from_str("localhost:9092"));
        Config {
            agent: AgentConfig {
                token: String::new(),
                version: String::from_str(AGENT_VERSION),
                update_channel: String::from_str("stable"),
                auto_update_enabled: true,
            },
            control_plane: ControlPlaneConfig {
                grpc_url: String::from_str("https://control.axion.dev:443"),
                timeout: 30,
                retry_attempts: 3,
            },
            kafka: KafkaConfig {
                brokers,
                consumer_group: group,
                enable_ssl: false,
                ssl_ca_location: None,
            },
            telemetry: TelemetryConfig {
                enabled: true,
                interval_seconds: 10,
                batch_size: 100,
                send_timeout: 5,
            },
            health: HealthConfig {
                check_interval: 30,
                timeout: 10,
                failure_threshold: 3,
                port: 8080,
            },
            update: UpdateConfig {
                check_interval: 3600,
                download_timeout: 300,
                install_timeout: 60,
                rollback_on_failure: true,
                max_backups: 5,
            },
            logging: LoggingConfig {
                level: String::from_str("info"),
                format: String::from_str("json"),
                file: String::from_str("/var/log/axion/agent.log"),
                max_size_mb: 100,
                max_files: 5,
            },
            security: SecurityConfig {
                tls_verify: true,
                tls_ca_location: None,
                min_tls_version: String::from_str("1.2"),
            },
            local: LocalConfig {
                enabled: false,
                ipc_socket_path: Some(String::from_str("/tmp/axion-runner-agent.sock")),
                grpc_local_port: Some(50051),
            },
        }
    }
}

impl Default for Config {
    /// The default configuration. Its consumer group is `runner-agent-`
    /// followed by a fresh identifier, so that two agents started with
    /// defaults do not share a group.
    fn default() -> (config: Config)
        ensures
            config.is_default_with_group(config.kafka.consumer_group@),
            config.kafka.consumer_group@.len() == "runner-agent-"@.len() + ID_LEN,
            config.kafka.consumer_group@.subrange(0, "runner-agent-"@.len() as int)
                == "runner-agent-"@,
    {
        let id = fresh_id();
        let group = concat2("runner-agent-", id.as_str());
        assert(group@.subrange(0, "runner-agent-"@.len() as int) =~= "runner-agent-"@);
        Config::with_consumer_group(group)
    }
}

} // verus!
