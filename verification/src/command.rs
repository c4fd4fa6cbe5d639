//! Execution of local commands on behalf of the control plane.

use vstd::prelude::*;
use crate::error::AgentError;

verus! {

/// Runs local commands. No command is carried out yet: every request is
/// acknowledged with the same text.
#[derive(Debug, Clone, Copy, PartialEq, Eq, Structural)]
pub struct CommandExecutor;

impl CommandExecutor {
    pub fn new() -> (executor: CommandExecutor) {
        CommandExecutor
    }

    /// Acknowledges the command.
    pub fn execute(&self, _command: &str, _args: Vec<String>) -> (res: Result<String, AgentError>)
        ensures
            res matches Ok(text) && text@ == "Command executed"@,
    {
        Ok(String::from_str("Command executed"))
    }
}

} // verus!
