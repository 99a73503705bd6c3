//! The decisions of connecting and authenticating: which method a credential
//! calls for, how the server's answer is read, and the text of each failure.

use vstd::prelude::*;
use crate::credentials::SshAuth;
use crate::text::{decimal, push_decimal};

verus! {

/// Seconds without traffic after which a session is dropped.
pub const INACTIVITY_TIMEOUT_SECS: u64 = 60;

/// Seconds allowed for a direct TCP connection and handshake.
pub const CONNECT_TIMEOUT_SECS: u64 = 15;

/// A step of connecting that failed, or the context in which a lower-level
/// error arose.
pub enum ConnectFailure {
    TimedOut { host: String, port: u16 },
    Connecting { host: String, port: u16 },
    ConnectingJumpHost { host: String, port: u16 },
    AuthenticatingJumpHost,
    OpeningTunnel,
    ConnectingThroughJump { host: String, port: u16 },
    LoadingKey { path: String },
    PasswordAuthentication,
    PublicKeyAuthentication,
    AgentNotWired,
    PasswordOnJumpHost,
    Rejected,
}

/// `host:port`.
pub open spec fn endpoint(host: Seq<char>, port: u16) -> Seq<char> {
    host + ":"@ + decimal(port as nat)
}

impl ConnectFailure {
    pub open spec fn text(self) -> Seq<char> {
        match self {
            ConnectFailure::TimedOut { host, port } => "connection to "@ + endpoint(host@, port)
                + " timed out"@,
            ConnectFailure::Connecting { host, port } => "connecting to "@ + endpoint(host@, port),
            ConnectFailure::ConnectingJumpHost { host, port } => "connecting to jump host "@
                + endpoint(host@, port),
            ConnectFailure::AuthenticatingJumpHost => "authenticating to jump host"@,
            ConnectFailure::OpeningTunnel => "opening tunnel through jump host"@,
            ConnectFailure::ConnectingThroughJump { host, port } => "connecting to "@ + endpoint(
                host@,
                port,
            ) + " through jump"@,
            ConnectFailure::LoadingKey { path } => "loading private key "@ + path@,
            ConnectFailure::PasswordAuthentication => "password authentication"@,
            ConnectFailure::PublicKeyAuthentication => "public-key authentication"@,
            ConnectFailure::AgentNotWired => "SSH agent authentication is not wired yet"@,
            ConnectFailure::PasswordOnJumpHost =>
                "password authentication is not supported on a jump host"@,
            ConnectFailure::Rejected => "authentication failed (check credentials)"@,
        }
    }

    /// The message of this failure.
    pub fn message(&self) -> (res: String)
        ensures
            res@ == self.text(),
    {
        match self {
            ConnectFailure::TimedOut { host, port } => {
                let mut out = String::from_str("connection to ");
                push_endpoint(&mut out, host.as_str(), *port);
                out.append(" timed out");
                out
            },
            ConnectFailure::Connecting { host, port } => {
                let mut out = String::from_str("connecting to ");
                push_endpoint(&mut out, host.as_str(), *port);
                out
            },
            ConnectFailure::ConnectingJumpHost { host, port } => {
                let mut out = String::from_str("connecting to jump host ");
                push_endpoint(&mut out, host.as_str(), *port);
                out
            },
            ConnectFailure::AuthenticatingJumpHost => String::from_str(
                "authenticating to jump host",
            ),
            ConnectFailure::OpeningTunnel => String::from_str("opening tunnel through jump host"),
            ConnectFailure::ConnectingThroughJump { host, port } => {
                let mut out = String::from_str("connecting to ");
                push_endpoint(&mut out, host.as_str(), *port);
                out.append(" through jump");
                out
            },
            ConnectFailure::LoadingKey { path } => {
                let mut out = String::from_str("loading private key ");
                out.append(path.as_str());
                out
            },
            ConnectFailure::PasswordAuthentication => String::from_str("password authentication"),
            ConnectFailure::PublicKeyAuthentication => String::from_str(
                "public-key authentication",
            ),
            ConnectFailure::AgentNotWired => String::from_str(
                "SSH agent authentication is not wired yet",
            ),
            ConnectFailure::PasswordOnJumpHost => String::from_str(
                "password authentication is not supported on a jump host",
            ),
            ConnectFailure::Rejected => String::from_str(
                "authentication failed (check credentials)",
            ),
        }
    }
}

fn push_endpoint(out: &mut String, host: &str, port: u16)
    ensures
        final(out)@ == old(out)@ + endpoint(host@, port),
{
    out.append(host);
    out.append(":");
    push_decimal(out, port as u64);
    assert(out@ =~= old(out)@ + endpoint(host@, port));
}

/// How a credential is presented to the server.
#[derive(PartialEq, Eq, Structural)]
pub enum AuthMethod {
    Password,
    PublicKey,
}

/// The method a credential calls for. A jump host takes a key only: a password
/// there is refused, and the agent is not wired anywhere.
pub fn auth_method<S>(auth: &SshAuth<S>, on_jump_host: bool) -> (res: Result<
    AuthMethod,
    ConnectFailure,
>)
    ensures
        match *auth {
            SshAuth::Password(_) => if on_jump_host {
                res == Err::<AuthMethod, ConnectFailure>(ConnectFailure::PasswordOnJumpHost)
            } else {
                res == Ok::<AuthMethod, ConnectFailure>(AuthMethod::Password)
            },
            SshAuth::Key { .. } => res == Ok::<AuthMethod, ConnectFailure>(AuthMethod::PublicKey),
            SshAuth::Agent => res == Err::<AuthMethod, ConnectFailure>(
                ConnectFailure::AgentNotWired,
            ),
        },
{
    match auth {
        SshAuth::Password(_) => {
            if on_jump_host {
                Err(ConnectFailure::PasswordOnJumpHost)
            } else {
                Ok(AuthMethod::Password)
            }
        },
        SshAuth::Key { .. } => Ok(AuthMethod::PublicKey),
        SshAuth::Agent => Err(ConnectFailure::AgentNotWired),
    }
}

/// Reads the server's answer to an authentication attempt.
pub fn authentication_outcome(succeeded: bool) -> (res: Result<(), ConnectFailure>)
    ensures
        succeeded ==> res is Ok,
        !succeeded ==> res == Err::<(), ConnectFailure>(ConnectFailure::Rejected),
{
    if succeeded {
        Ok(())
    } else {
        Err(ConnectFailure::Rejected)
    }
}

#[verifier::external_type_specification]
#[verifier::external_body]
pub struct ExClientConfig(russh::client::Config);

/// The inactivity timeout, in whole seconds, of a client configuration:
/// `None` when idle sessions are never dropped.
pub uninterp spec fn inactivity_timeout_secs(config: std::sync::Arc<russh::client::Config>) -> Option<u64>;

/// Whether every field of a client configuration other than
/// `inactivity_timeout` holds what `Config::default()` gives it.
pub uninterp spec fn defaults_apart_from_inactivity_timeout(
    config: std::sync::Arc<russh::client::Config>,
) -> bool;

/// Builds a `russh::client::Config` from `Config::default()` with its
/// `inactivity_timeout` set to `Duration::from_secs(secs)`: the timeout is
/// `secs` whole seconds and every other field keeps russh's default.
#[verifier::external_body]
fn config_with_inactivity_timeout(secs: u64) -> (res: std::sync::Arc<russh::client::Config>)
    ensures
        inactivity_timeout_secs(res) == Some(secs),
        defaults_apart_from_inactivity_timeout(res),
{
    std::sync::Arc::new(russh::client::Config {
        inactivity_timeout: Some(std::time::Duration::from_secs(secs)),
        ..Default::default()
    })
}

/// The client configuration every connection uses: russh's defaults, with
/// idle sessions dropped after `INACTIVITY_TIMEOUT_SECS`.
pub fn client_config() -> (res: std::sync::Arc<russh::client::Config>)
    ensures
        inactivity_timeout_secs(res) == Some(INACTIVITY_TIMEOUT_SECS),
        defaults_apart_from_inactivity_timeout(res),
{
    config_with_inactivity_timeout(INACTIVITY_TIMEOUT_SECS)
}

} // verus!
