//! The `ssh_exec` tool's request and result, and its entry point.

use vstd::prelude::*;

verus! {

/// A command to run on a registered server.
#[derive(Debug, Clone)]
pub struct SshExecRequest {
    pub server_id: String,
    pub command: String,
    pub working_dir: Option<String>,
}

/// What a command produced on the remote side.
#[derive(Debug, Clone)]
pub struct SshExecResult {
    pub exit_code: i32,
    pub stdout: String,
    pub stderr: String,
    pub execution_time_ms: u64,
}

/// The answer to every execution request: no connection is opened and no
/// command runs.
pub open spec fn exec_refusal() -> Seq<char> {
    "L'execution distante n'est pas implementee : ce morph n'ouvre aucune connexion SSH. Aucune commande n'a ete executee."@
}

/// Remote execution is not implemented: the signature is kept so that the
/// interface and the MCP server keep their shape, but the call fails plainly
/// rather than fabricate a result.
pub fn ssh_exec(_req: SshExecRequest) -> (res: Result<SshExecResult, String>)
    ensures
        res matches Err(message) && message@ == exec_refusal(),
{
    Err(
        String::from_str(
            "L'execution distante n'est pas implementee : ce morph n'ouvre aucune connexion SSH. Aucune commande n'a ete executee.",
        ),
    )
}

} // verus!
