use runner_agent::config::Config;
use runner_agent::docker::{render_env, running_state, CommandOutput, DockerManager, ServiceInfo};
use runner_agent::error::AgentError;

fn manager() -> DockerManager {
    DockerManager::new(&Config::with_consumer_group("g".to_string()))
}

fn pair(name: &str, value: &str) -> (String, String) {
    (name.to_string(), value.to_string())
}

fn service(name: Option<&str>, published_ports: Option<usize>) -> ServiceInfo {
    ServiceInfo {
        name: name.map(|n| n.to_string()),
        published_ports,
        running_tasks: Some(1),
        desired_tasks: Some(1),
    }
}

fn service_with_tasks(name: &str, running: Option<u64>, desired: Option<u64>) -> ServiceInfo {
    ServiceInfo {
        name: Some(name.to_string()),
        published_ports: None,
        running_tasks: running,
        desired_tasks: desired,
    }
}

#[test]
fn stack_name_is_prefix_and_project() {
    assert_eq!(DockerManager::stack_name("p1"), "axion-p1");
    assert_eq!(DockerManager::stack_name(""), "axion-");
}

#[test]
fn render_env_writes_one_line_per_entry() {
    assert_eq!(render_env(&Vec::new()), "");
    assert_eq!(render_env(&vec![pair("A", "1")]), "A=1");
    assert_eq!(
        render_env(&vec![pair("A", "1"), pair("B", "two"), pair("C", "")]),
        "A=1\nB=two\nC="
    );
}

#[test]
fn deploy_plan_names_artifact_and_command() {
    let plan = manager().deploy_stack("p1", "version: '3'\n", &vec![pair("A", "1")]);
    assert_eq!(plan.project_path, "/opt/axion/projects/p1");
    assert_eq!(plan.stack_file, "/opt/axion/projects/p1/docker-stack.yml");
    assert_eq!(plan.stack_yml, "version: '3'\n");
    assert_eq!(plan.env_file, "/opt/axion/projects/p1/.env");
    assert_eq!(plan.env_content, "A=1");
    assert_eq!(plan.command.program, "docker");
    assert_eq!(
        plan.command.args,
        vec![
            "stack".to_string(),
            "deploy".to_string(),
            "-c".to_string(),
            "/opt/axion/projects/p1/docker-stack.yml".to_string(),
            "axion-p1".to_string(),
        ]
    );
    assert_eq!(plan.command.working_dir, Some("/opt/axion/projects/p1".to_string()));
}

#[test]
fn redeploy_of_the_same_command_gives_the_same_plan() {
    let env = vec![pair("A", "1"), pair("B", "2")];
    let first = manager().deploy_stack("p1", "services: {}", &env);
    let second = manager().deploy_stack("p1", "services: {}", &env);
    assert_eq!(first.stack_file, second.stack_file);
    assert_eq!(first.stack_yml, second.stack_yml);
    assert_eq!(first.env_file, second.env_file);
    assert_eq!(first.env_content, second.env_content);
    assert_eq!(first.command.args, second.command.args);
}

#[test]
fn later_deploy_writes_to_the_same_files() {
    let earlier = manager().deploy_stack("p1", "old", &vec![pair("A", "1")]);
    let later = manager().deploy_stack("p1", "new", &vec![pair("A", "2")]);
    assert_eq!(earlier.stack_file, later.stack_file);
    assert_eq!(earlier.env_file, later.env_file);
    assert_eq!(earlier.command.args, later.command.args);
    assert_eq!(later.stack_yml, "new");
    assert_eq!(later.env_content, "A=2");
}

#[test]
fn deploy_succeeds_when_the_command_succeeds() {
    let output = CommandOutput { success: true, stderr: "warning: something".to_string() };
    assert!(manager().deploy_result(&output).is_ok());
}

#[test]
fn deploy_failure_keeps_the_engine_diagnostic() {
    let output = CommandOutput { success: false, stderr: "invalid compose file".to_string() };
    match manager().deploy_result(&output) {
        Err(AgentError::CommandExecution(message)) => {
            assert_eq!(message, "Failed to deploy stack: invalid compose file")
        }
        other => panic!("unexpected result: {:?}", other),
    }
}

#[test]
fn remove_plan_names_the_stack() {
    let command = manager().remove_stack("p1");
    assert_eq!(command.program, "docker");
    assert_eq!(
        command.args,
        vec!["stack".to_string(), "rm".to_string(), "axion-p1".to_string()]
    );
    assert_eq!(command.working_dir, None);
}

#[test]
fn remove_succeeds_when_the_command_succeeds() {
    let output = CommandOutput { success: true, stderr: String::new() };
    assert!(manager().remove_result(&output).is_ok());
}

#[test]
fn remove_of_absent_stack_succeeds() {
    let nothing = CommandOutput {
        success: false,
        stderr: "Nothing found in stack: axion-p1".to_string(),
    };
    assert!(manager().remove_result(&nothing).is_ok());
    let not_found = CommandOutput {
        success: false,
        stderr: "Error response from daemon: stack axion-p1 not found".to_string(),
    };
    assert!(manager().remove_result(&not_found).is_ok());
}

#[test]
fn remove_failure_keeps_the_engine_diagnostic() {
    let output = CommandOutput { success: false, stderr: "permission denied".to_string() };
    match manager().remove_result(&output) {
        Err(AgentError::CommandExecution(message)) => {
            assert_eq!(message, "Failed to remove stack: permission denied")
        }
        other => panic!("unexpected result: {:?}", other),
    }
}

#[test]
fn status_of_unknown_project_is_empty() {
    let listed = vec![
        service(Some("axion-p1_web"), Some(2)),
        service(Some("other_db"), None),
    ];
    let statuses = manager().get_stack_status("unknown-project", &listed);
    assert!(statuses.is_empty());
    assert!(manager().get_stack_status("unknown-project", &Vec::new()).is_empty());
}

#[test]
fn status_lists_the_services_of_the_stack_in_order() {
    let listed = vec![
        service(Some("axion-p1_web"), Some(2)),
        service(Some("axion-p10_web"), Some(1)),
        service(None, Some(3)),
        service(Some("axion-p1"), Some(1)),
        service(Some("axion-p1_db"), None),
        service(Some("xaxion-p1_db"), Some(4)),
    ];
    let statuses = manager().get_stack_status("p1", &listed);
    assert_eq!(statuses.len(), 2);
    assert_eq!(statuses[0].name, "axion-p1_web");
    assert_eq!(statuses[0].replicas, 2);
    assert_eq!(statuses[0].status, "running");
    assert_eq!(statuses[1].name, "axion-p1_db");
    assert_eq!(statuses[1].replicas, 0);
    assert_eq!(statuses[1].status, "running");
}

#[test]
fn health_check_is_false_on_any_failure() {
    assert!(manager().health_check(&Ok(())));
    assert!(!manager().health_check(&Err(AgentError::Docker("no socket".to_string()))));
    assert!(!manager().health_check(&Err(AgentError::Timeout("ping".to_string()))));
}

#[test]
fn running_state_follows_the_task_counts() {
    assert_eq!(running_state(None, None), "unknown");
    assert_eq!(running_state(None, Some(3)), "unknown");
    assert_eq!(running_state(Some(0), Some(3)), "stopped");
    assert_eq!(running_state(Some(0), Some(0)), "stopped");
    assert_eq!(running_state(Some(0), None), "stopped");
    assert_eq!(running_state(Some(1), Some(3)), "degraded");
    assert_eq!(running_state(Some(3), Some(3)), "running");
    assert_eq!(running_state(Some(4), Some(3)), "running");
    assert_eq!(running_state(Some(2), None), "running");
}

#[test]
fn status_reports_the_state_that_the_engine_gives() {
    let listed = vec![
        service_with_tasks("axion-p1_web", Some(2), Some(2)),
        service_with_tasks("axion-p1_db", Some(1), Some(3)),
        service_with_tasks("axion-p1_cache", Some(0), Some(1)),
        service_with_tasks("axion-p1_job", None, None),
    ];
    let statuses = manager().get_stack_status("p1", &listed);
    let states: Vec<&str> = statuses.iter().map(|s| s.status.as_str()).collect();
    assert_eq!(states, vec!["running", "degraded", "stopped", "unknown"]);
}
