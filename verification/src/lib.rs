//! Remote SSH connector for an agent runtime: the decisions behind host-key
//! pinning, credential handling, command execution and the MCP tool surface.

pub mod connect;
pub mod credentials;
pub mod exec;
pub mod hostkey;
pub mod mcp;
pub mod session;
pub mod text;

pub use credentials::{SshAuth, SshTarget};
pub use exec::{ssh_exec, SshExecRequest, SshExecResult};
pub use hostkey::constant_time_eq;
pub use session::ProbeResult;
/// Lets callers build `SshAuth` secrets without depending on zeroize directly.
pub use zeroize::Zeroizing as SecretString;
