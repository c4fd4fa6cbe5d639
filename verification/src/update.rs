//! Self-update of the agent.

use vstd::prelude::*;
use crate::error::AgentError;

verus! {

/// Looks after the agent's own version. No update channel is attached, so
/// no update is ever found and the other steps have nothing to do.
#[derive(Debug, Clone, Copy, PartialEq, Eq, Structural)]
pub struct UpdateManager;

impl UpdateManager {
    pub fn new() -> (manager: UpdateManager) {
        UpdateManager
    }

    /// The version to update to, where there is one. With no update channel
    /// attached there is none.
    pub fn check_for_updates(&self) -> (res: Result<Option<String>, AgentError>)
        ensures
            res == Ok::<Option<String>, AgentError>(None),
    {
        Ok(None)
    }

    pub fn download_update(&self, _version: &str) -> (res: Result<(), AgentError>)
        ensures
            res is Ok,
    {
        Ok(())
    }

    pub fn install_update(&self) -> (res: Result<(), AgentError>)
        ensures
            res is Ok,
    {
        Ok(())
    }

    pub fn rollback(&self) -> (res: Result<(), AgentError>)
        ensures
            res is Ok,
    {
        Ok(())
    }
}

} // verus!
