//! The local control socket for a companion desktop client.

use vstd::prelude::*;
use crate::config::Config;
use crate::error::{AgentError, ErrorKind, ErrorView};

verus! {

/// The permission bits of the control socket: read and write for its
/// owner, nothing for anyone else.
pub const SOCKET_MODE: u32 = 0o600;

/// Where the control socket is bound, and with which permission bits. A
/// socket left at the path by an earlier run is removed first.
#[derive(Debug)]
pub struct SocketPlan {
    pub path: String,
    pub mode: u32,
}

/// The local control socket.
#[derive(Debug)]
pub struct IpcServer {
    socket_path: Option<String>,
}

impl IpcServer {
    pub closed spec fn socket_path(&self) -> Option<Seq<char>> {
        self.socket_path.deep_view()
    }

    /// The control socket at the path of the local configuration.
    pub fn new(config: &Config) -> (server: IpcServer)
        ensures
            server.socket_path() == config.local.ipc_socket_path.deep_view(),
    {
        let socket_path = match &config.local.ipc_socket_path {
            Some(path) => Some(path.clone()),
            None => None,
        };
        IpcServer { socket_path }
    }

    /// Where to bind the socket, or a configuration error where no path
    /// is configured.
    pub fn start(&self) -> (res: Result<SocketPlan, AgentError>)
        ensures
            res is Ok <==> self.socket_path() is Some,
            res matches Ok(plan) ==> Some(plan.path@) == self.socket_path() && plan.mode
                == SOCKET_MODE,
            res matches Err(error) ==> error@ == (ErrorView {
                kind: ErrorKind::Config,
                detail: "IPC socket path not configured"@,
            }),
    {
        match &self.socket_path {
            Some(path) => Ok(SocketPlan { path: path.clone(), mode: SOCKET_MODE }),
            None => Err(AgentError::Config(String::from_str("IPC socket path not configured"))),
        }
    }
}

} // verus!
