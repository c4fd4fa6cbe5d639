//! Container-stack lifecycle: what to write and run for a deploy or a
//! removal, how to read the engine's answer, and which services belong to a
//! project's stack.
//!
//! Nothing here touches the engine or the disk. [`DockerManager`] plans the
//! work and judges its outcome; the caller carries the plan out.

use vstd::prelude::*;
use crate::config::Config;
use crate::error::{AgentError, ErrorKind};
use crate::text::{concat2, concat3, contains, is_prefix, occurs_in, starts_with};

verus! {

/// The name of a project's stack: a fixed prefix and the project's id.
pub open spec fn stack_name_of(project_id: Seq<char>) -> Seq<char> {
    "axion-"@ + project_id
}

/// The directory that holds a project's stack artifact.
pub open spec fn project_path_of(project_id: Seq<char>) -> Seq<char> {
    "/opt/axion/projects/"@ + project_id
}

/// The file that holds a project's stack descriptor.
pub open spec fn stack_file_of(project_id: Seq<char>) -> Seq<char> {
    project_path_of(project_id) + "/docker-stack.yml"@
}

/// The file that holds a project's environment.
pub open spec fn env_file_of(project_id: Seq<char>) -> Seq<char> {
    project_path_of(project_id) + "/.env"@
}

/// One line of an environment file.
pub open spec fn env_line(entry: (Seq<char>, Seq<char>)) -> Seq<char> {
    entry.0 + "="@ + entry.1
}

/// The text of an environment file: one `NAME=value` line per entry, in
/// order, with a newline between lines and none at the end.
pub open spec fn env_text(env: Seq<(Seq<char>, Seq<char>)>) -> Seq<char>
    decreases env.len(),
{
    if env.len() == 0 {
        Seq::<char>::empty()
    } else if env.len() == 1 {
        env_line(env[0])
    } else {
        env_text(env.drop_last()) + "\n"@ + env_line(env.last())
    }
}

/// Renders an environment as the text of an environment file.
pub fn render_env(env_vars: &Vec<(String, String)>) -> (text: String)
    ensures
        text@ == env_text(env_vars.deep_view()),
{
    let ghost env = env_vars.deep_view();
    let mut text = String::new();
    let mut i: usize = 0;
    while i < env_vars.len()
        invariant
            env == env_vars.deep_view(),
            i <= env_vars.len(),
            text@ == env_text(env.take(i as int)),
        decreases env_vars.len() - i,
    {
        let ghost before = env.take(i as int);
        let ghost after = env.take(i + 1);
        if i > 0 {
            text.append("\n");
        }
        text.append(env_vars[i].0.as_str());
        text.append("=");
        text.append(env_vars[i].1.as_str());
        proof {
            assert(after.drop_last() =~= before);
            assert(after.last() == env[i as int]);
            assert(env[i as int] == (env_vars[i as int].0@, env_vars[i as int].1@));
            if i == 0 {
                assert(after[0] == env[0]);
                assert(text@ =~= env_line(env[0]));
            } else {
                assert(text@ =~= env_text(before) + "\n"@ + env_line(env[i as int]));
            }
        }
        i += 1;
    }
    proof {
        assert(env.take(i as int) =~= env);
    }
    text
}

/// A program to run with its arguments, in a working directory where one is
/// given.
#[derive(Debug)]
pub struct EngineCommand {
    pub program: String,
    pub args: Vec<String>,
    pub working_dir: Option<String>,
}

pub struct EngineCommandView {
    pub program: Seq<char>,
    pub args: Seq<Seq<char>>,
    pub working_dir: Option<Seq<char>>,
}

impl View for EngineCommand {
    type V = EngineCommandView;

    open spec fn view(&self) -> EngineCommandView {
        EngineCommandView {
            program: self.program@,
            args: self.args.deep_view(),
            working_dir: self.working_dir.deep_view(),
        }
    }
}

/// The command that applies a project's stack from its descriptor file.
pub open spec fn deploy_command_of(project_id: Seq<char>) -> EngineCommandView {
    EngineCommandView {
        program: "docker"@,
        args: seq![
            "stack"@,
            "deploy"@,
            "-c"@,
            stack_file_of(project_id),
            stack_name_of(project_id),
        ],
        working_dir: Some(project_path_of(project_id)),
    }
}

/// The command that removes a project's stack.
pub open spec fn remove_command_of(project_id: Seq<char>) -> EngineCommandView {
    EngineCommandView {
        program: "docker"@,
        args: seq!["stack"@, "rm"@, stack_name_of(project_id)],
        working_dir: None,
    }
}

/// Everything a deploy does outside this library, in order: make the
/// project directory, write the two files (replacing earlier versions), run
/// the command.
#[derive(Debug)]
pub struct DeployPlan {
    pub project_path: String,
    pub stack_file: String,
    pub stack_yml: String,
    pub env_file: String,
    pub env_content: String,
    pub command: EngineCommand,
}

pub struct DeployPlanView {
    pub project_path: Seq<char>,
    pub stack_file: Seq<char>,
    pub stack_yml: Seq<char>,
    pub env_file: Seq<char>,
    pub env_content: Seq<char>,
    pub command: EngineCommandView,
}

impl View for DeployPlan {
    type V = DeployPlanView;

    open spec fn view(&self) -> DeployPlanView {
        DeployPlanView {
            project_path: self.project_path@,
            stack_file: self.stack_file@,
            stack_yml: self.stack_yml@,
            env_file: self.env_file@,
            env_content: self.env_content@,
            command: self.command@,
        }
    }
}

/// The plan that deploys `docker_stack_yml` with `env` for a project.
pub open spec fn deploy_plan_of(
    project_id: Seq<char>,
    docker_stack_yml: Seq<char>,
    env: Seq<(Seq<char>, Seq<char>)>,
) -> DeployPlanView {
    DeployPlanView {
        project_path: project_path_of(project_id),
        stack_file: stack_file_of(project_id),
        stack_yml: docker_stack_yml,
        env_file: env_file_of(project_id),
        env_content: env_text(env),
        command: deploy_command_of(project_id),
    }
}

/// The files of the artifact store, by path, after the files of `plan`
/// were written: the descriptor and the environment file replace what was
/// at their paths, and every other file stays.
pub open spec fn files_after(disk: Map<Seq<char>, Seq<char>>, plan: DeployPlanView) -> Map<
    Seq<char>,
    Seq<char>,
> {
    disk.insert(plan.stack_file, plan.stack_yml).insert(plan.env_file, plan.env_content)
}

/// Deploying the same command again changes nothing on disk, and asks the
/// engine for the same thing: the same command under the same stack name.
pub proof fn law_redeploy_is_idempotent(
    disk: Map<Seq<char>, Seq<char>>,
    project_id: Seq<char>,
    docker_stack_yml: Seq<char>,
    env: Seq<(Seq<char>, Seq<char>)>,
)
    ensures
        files_after(
            files_after(disk, deploy_plan_of(project_id, docker_stack_yml, env)),
            deploy_plan_of(project_id, docker_stack_yml, env),
        ) == files_after(disk, deploy_plan_of(project_id, docker_stack_yml, env)),
{
    let plan = deploy_plan_of(project_id, docker_stack_yml, env);
    assert(files_after(files_after(disk, plan), plan) =~= files_after(disk, plan));
}

/// Of two deploys of one project, the later one alone decides what the
/// project's artifact holds; and both address the engine with the same
/// command, so that the stack is applied under one name.
pub proof fn law_latest_deploy_wins(
    disk: Map<Seq<char>, Seq<char>>,
    project_id: Seq<char>,
    earlier_yml: Seq<char>,
    earlier_env: Seq<(Seq<char>, Seq<char>)>,
    later_yml: Seq<char>,
    later_env: Seq<(Seq<char>, Seq<char>)>,
)
    ensures
        files_after(
            files_after(disk, deploy_plan_of(project_id, earlier_yml, earlier_env)),
            deploy_plan_of(project_id, later_yml, later_env),
        ) == files_after(disk, deploy_plan_of(project_id, later_yml, later_env)),
        deploy_plan_of(project_id, earlier_yml, earlier_env).command == deploy_plan_of(
            project_id,
            later_yml,
            later_env,
        ).command,
{
    let earlier = deploy_plan_of(project_id, earlier_yml, earlier_env);
    let later = deploy_plan_of(project_id, later_yml, later_env);
    assert(files_after(files_after(disk, earlier), later) =~= files_after(disk, later));
}

/// How an engine command ended: whether it exited with success, and what it
/// wrote to its error stream.
#[derive(Debug)]
pub struct CommandOutput {
    pub success: bool,
    pub stderr: String,
}

/// The engine's diagnostic says that the stack it was asked about is absent.
pub open spec fn reports_absent(stderr: Seq<char>) -> bool {
    occurs_in("not found"@, stderr) || occurs_in("Nothing found in stack"@, stderr)
}

/// The result of a deploy whose command ended as given.
pub open spec fn deploy_verdict(success: bool, stderr: Seq<char>) -> Result<(), (ErrorKind, Seq<char>)> {
    if success {
        Ok(())
    } else {
        Err((ErrorKind::CommandExecution, "Failed to deploy stack: "@ + stderr))
    }
}

/// The result of a removal whose command ended as given. Removing a stack
/// that is already absent succeeds.
pub open spec fn remove_verdict(success: bool, stderr: Seq<char>) -> Result<(), (ErrorKind, Seq<char>)> {
    if success || reports_absent(stderr) {
        Ok(())
    } else {
        Err((ErrorKind::CommandExecution, "Failed to remove stack: "@ + stderr))
    }
}

/// Removing a stack that the engine reports absent succeeds, however the
/// engine's command exited.
pub proof fn law_absent_stack_removal_succeeds(success: bool, stderr: Seq<char>)
    requires
        reports_absent(stderr),
    ensures
        remove_verdict(success, stderr) is Ok,
{
}

/// A result with the error taken by its class and text.
pub open spec fn outcome_view(res: Result<(), AgentError>) -> Result<(), (ErrorKind, Seq<char>)> {
    match res {
        Ok(_) => Ok(()),
        Err(e) => Err((e@.kind, e@.detail)),
    }
}

/// What the engine reports of one service: its name, where it has a
/// specification with a name; the number of ports its endpoint publishes,
/// where it has an endpoint with a port list; and the numbers of its tasks
/// that are running and that are wanted, where the engine gives them.
#[derive(Debug)]
pub struct ServiceInfo {
    pub name: Option<String>,
    pub published_ports: Option<usize>,
    pub running_tasks: Option<u64>,
    pub desired_tasks: Option<u64>,
}

pub struct ServiceInfoView {
    pub name: Option<Seq<char>>,
    pub published_ports: Option<usize>,
    pub running_tasks: Option<u64>,
    pub desired_tasks: Option<u64>,
}

impl View for ServiceInfo {
    type V = ServiceInfoView;

    open spec fn view(&self) -> ServiceInfoView {
        ServiceInfoView {
            name: self.name.deep_view(),
            published_ports: self.published_ports,
            running_tasks: self.running_tasks,
            desired_tasks: self.desired_tasks,
        }
    }
}

/// The coarse state of a service, from the task counts that the engine
/// reports: `unknown` where it reports no running count, `stopped` where
/// no task runs, `degraded` where fewer tasks run than are wanted, and
/// `running` otherwise.
pub open spec fn running_state_of(running_tasks: Option<u64>, desired_tasks: Option<u64>) -> Seq<
    char,
> {
    match running_tasks {
        None => "unknown"@,
        Some(running) => if running == 0 {
            "stopped"@
        } else if desired_tasks matches Some(desired) && running < desired {
            "degraded"@
        } else {
            "running"@
        },
    }
}

/// The coarse state of a service with the given task counts.
pub fn running_state(running_tasks: Option<u64>, desired_tasks: Option<u64>) -> (state:
    &'static str)
    ensures
        state@ == running_state_of(running_tasks, desired_tasks),
{
    match running_tasks {
        None => "unknown",
        Some(running) => {
            if running == 0 {
                "stopped"
            } else {
                match desired_tasks {
                    Some(desired) => {
                        if running < desired {
                            "degraded"
                        } else {
                            "running"
                        }
                    },
                    None => "running",
                }
            }
        },
    }
}

impl DeepView for ServiceInfo {
    type V = ServiceInfoView;

    open spec fn deep_view(&self) -> ServiceInfoView {
        self@
    }
}

/// The state of one service of a stack.
#[derive(Debug)]
pub struct ServiceStatus {
    pub name: String,
    pub replicas: u32,
    pub status: String,
}

pub struct ServiceStatusView {
    pub name: Seq<char>,
    pub replicas: u32,
    pub status: Seq<char>,
}

impl View for ServiceStatus {
    type V = ServiceStatusView;

    open spec fn view(&self) -> ServiceStatusView {
        ServiceStatusView { name: self.name@, replicas: self.replicas, status: self.status@ }
    }
}

impl DeepView for ServiceStatus {
    type V = ServiceStatusView;

    open spec fn deep_view(&self) -> ServiceStatusView {
        self@
    }
}

/// A service belongs to a project's stack when its name starts with the
/// stack's name and an underscore.
pub open spec fn belongs_to(project_id: Seq<char>, service: ServiceInfoView) -> bool {
    service.name matches Some(name) && is_prefix(stack_name_of(project_id) + "_"@, name)
}

/// The status reported for a service that belongs to a stack: its name,
/// the number of ports it publishes, and its state as the engine's task
/// counts give it.
pub open spec fn status_of(service: ServiceInfoView) -> ServiceStatusView {
    ServiceStatusView {
        name: service.name.unwrap(),
        replicas: match service.published_ports {
            Some(n) => n as u32,
            None => 0,
        },
        status: running_state_of(service.running_tasks, service.desired_tasks),
    }
}

/// The statuses of the services that belong to a project's stack, in the
/// order in which the engine lists them.
pub open spec fn stack_statuses(project_id: Seq<char>, services: Seq<ServiceInfoView>) -> Seq<
    ServiceStatusView,
>
    decreases services.len(),
{
    if services.len() == 0 {
        Seq::<ServiceStatusView>::empty()
    } else {
        let earlier = stack_statuses(project_id, services.drop_last());
        if belongs_to(project_id, services.last()) {
            earlier.push(status_of(services.last()))
        } else {
            earlier
        }
    }
}

/// The orchestrator of container stacks.
#[derive(Debug)]
pub struct DockerManager {
    _private: (),
}

impl DockerManager {
    pub fn new(_config: &Config) -> (manager: DockerManager) {
        DockerManager { _private: () }
    }

    /// The name of a project's stack.
    pub fn stack_name(project_id: &str) -> (name: String)
        ensures
            name@ == stack_name_of(project_id@),
    {
        concat2("axion-", project_id)
    }

    /// Plans a deploy: the artifact to write for the project, replacing any
    /// earlier one, and the command that applies the stack under the
    /// project's stack name.
    pub fn deploy_stack(
        &self,
        project_id: &str,
        docker_stack_yml: &str,
        env_vars: &Vec<(String, String)>,
    ) -> (plan: DeployPlan)
        ensures
            plan@ == deploy_plan_of(project_id@, docker_stack_yml@, env_vars.deep_view()),
    {
        let project_path = concat2("/opt/axion/projects/", project_id);
        let stack_file = concat2(project_path.as_str(), "/docker-stack.yml");
        let env_file = concat2(project_path.as_str(), "/.env");
        let env_content = render_env(env_vars);
        let mut args: Vec<String> = Vec::new();
        args.push(String::from_str("stack"));
        args.push(String::from_str("deploy"));
        args.push(String::from_str("-c"));
        args.push(stack_file.clone());
        args.push(Self::stack_name(project_id));
        let command = EngineCommand {
            program: String::from_str("docker"),
            args,
            working_dir: Some(project_path.clone()),
        };
        proof {
            assert(command.args.deep_view() =~= deploy_command_of(project_id@).args);
        }
        DeployPlan {
            project_path,
            stack_file,
            stack_yml: String::from_str(docker_stack_yml),
            env_file,
            env_content,
            command,
        }
    }

    /// Judges a deploy by how its command ended: a command that did not
    /// exit with success fails the deploy, and the engine's diagnostic is
    /// kept in the error.
    pub fn deploy_result(&self, output: &CommandOutput) -> (res: Result<(), AgentError>)
        ensures
            outcome_view(res) == deploy_verdict(output.success, output.stderr@),
    {
        if output.success {
            Ok(())
        } else {
            Err(
                AgentError::CommandExecution(
                    concat2("Failed to deploy stack: ", output.stderr.as_str()),
                ),
            )
        }
    }

    /// The statuses of the services of a project's stack, picked from what
    /// the engine lists. Empty where the stack does not exist.
    pub fn get_stack_status(&self, project_id: &str, services: &Vec<ServiceInfo>) -> (statuses:
        Vec<ServiceStatus>)
        ensures
            statuses.deep_view() == stack_statuses(project_id@, services.deep_view()),
    {
        let prefix = concat3("axion-", project_id, "_");
        let ghost listed = services.deep_view();
        let mut statuses: Vec<ServiceStatus> = Vec::new();
        let mut i: usize = 0;
        while i < services.len()
            invariant
                listed == services.deep_view(),
                prefix@ == stack_name_of(project_id@) + "_"@,
                i <= services.len(),
                statuses.deep_view() == stack_statuses(project_id@, listed.take(i as int)),
            decreases services.len() - i,
        {
            let ghost before = statuses.deep_view();
            proof {
                assert(listed.take(i + 1).drop_last() =~= listed.take(i as int));
                assert(listed.take(i + 1).last() == services[i as int]@);
            }
            match &services[i].name {
                Some(name) => {
                    if starts_with(name.as_str(), prefix.as_str()) {
                        let replicas = match services[i].published_ports {
                            Some(n) => #[verifier::truncate] (n as u32),
                            None => 0,
                        };
                        statuses.push(
                            ServiceStatus {
                                name: name.clone(),
                                replicas,
                                status: String::from_str(
                                    running_state(
                                        services[i].running_tasks,
                                        services[i].desired_tasks,
                                    ),
                                ),
                            },
                        );
                        proof {
                            assert(statuses.deep_view() =~= before.push(
                                status_of(services[i as int]@),
                            ));
                        }
                    }
                },
                None => {},
            }
            i += 1;
        }
        proof {
            assert(listed.take(i as int) =~= listed);
        }
        statuses
    }

    /// Plans the removal of a project's stack.
    pub fn remove_stack(&self, project_id: &str) -> (command: EngineCommand)
        ensures
            command@ == remove_command_of(project_id@),
    {
        let mut args: Vec<String> = Vec::new();
        args.push(String::from_str("stack"));
        args.push(String::from_str("rm"));
        args.push(Self::stack_name(project_id));
        let command = EngineCommand { program: String::from_str("docker"), args, working_dir: None };
        proof {
            assert(command.args.deep_view() =~= remove_command_of(project_id@).args);
        }
        command
    }

    /// Judges a removal by how its command ended. A stack that the engine
    /// reports absent counts as removed; any other failure keeps the
    /// engine's diagnostic in the error.
    pub fn remove_result(&self, output: &CommandOutput) -> (res: Result<(), AgentError>)
        ensures
            outcome_view(res) == remove_verdict(output.success, output.stderr@),
    {
        if output.success {
            return Ok(());
        }
        if contains(output.stderr.as_str(), "not found") {
            return Ok(());
        }
        if contains(output.stderr.as_str(), "Nothing found in stack") {
            return Ok(());
        }
        Err(
            AgentError::CommandExecution(
                concat2("Failed to remove stack: ", output.stderr.as_str()),
            ),
        )
    }

    /// Whether the engine answered a ping. Any failure to reach it is
    /// reported as `false`, never as an error.
    pub fn health_check(&self, ping: &Result<(), AgentError>) -> (healthy: bool)
        ensures
            healthy == (ping is Ok),
    {
        ping.is_ok()
    }
}

} // verus!
