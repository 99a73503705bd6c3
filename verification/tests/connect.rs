use locaryn_plugin_ssh::connect::{
    auth_method, authentication_outcome, client_config, AuthMethod, ConnectFailure, CONNECT_TIMEOUT_SECS,
    INACTIVITY_TIMEOUT_SECS,
};
use locaryn_plugin_ssh::{SecretString, SshAuth};

#[test]
fn timeouts() {
    assert_eq!(INACTIVITY_TIMEOUT_SECS, 60);
    assert_eq!(CONNECT_TIMEOUT_SECS, 15);
}

#[test]
fn failure_messages_name_the_endpoint() {
    let t = ConnectFailure::TimedOut { host: "10.0.0.5".to_string(), port: 22 };
    assert_eq!(t.message(), "connection to 10.0.0.5:22 timed out");
    let c = ConnectFailure::Connecting { host: "example.org".to_string(), port: 2222 };
    assert_eq!(c.message(), "connecting to example.org:2222");
    let j = ConnectFailure::ConnectingJumpHost { host: "bastion".to_string(), port: 0 };
    assert_eq!(j.message(), "connecting to jump host bastion:0");
    let tj = ConnectFailure::ConnectingThroughJump { host: "db".to_string(), port: 65535 };
    assert_eq!(tj.message(), "connecting to db:65535 through jump");
    let k = ConnectFailure::LoadingKey { path: "/home/a/.ssh/id".to_string() };
    assert_eq!(k.message(), "loading private key /home/a/.ssh/id");
}

#[test]
fn fixed_failure_messages() {
    assert_eq!(ConnectFailure::AuthenticatingJumpHost.message(), "authenticating to jump host");
    assert_eq!(ConnectFailure::OpeningTunnel.message(), "opening tunnel through jump host");
    assert_eq!(ConnectFailure::PasswordAuthentication.message(), "password authentication");
    assert_eq!(ConnectFailure::PublicKeyAuthentication.message(), "public-key authentication");
    assert_eq!(
        ConnectFailure::AgentNotWired.message(),
        "SSH agent authentication is not wired yet"
    );
    assert_eq!(
        ConnectFailure::PasswordOnJumpHost.message(),
        "password authentication is not supported on a jump host"
    );
    assert_eq!(
        ConnectFailure::Rejected.message(),
        "authentication failed (check credentials)"
    );
}

#[test]
fn credential_selects_method() {
    let pw: SshAuth = SshAuth::Password(SecretString::new("pw".to_string()));
    assert!(matches!(auth_method(&pw, false), Ok(AuthMethod::Password)));
    let key: SshAuth = SshAuth::Key { path: "/k".to_string(), passphrase: None };
    assert!(matches!(auth_method(&key, false), Ok(AuthMethod::PublicKey)));
    assert!(matches!(auth_method(&key, true), Ok(AuthMethod::PublicKey)));
}

#[test]
fn jump_host_refuses_password() {
    let pw: SshAuth = SshAuth::Password(SecretString::new("pw".to_string()));
    assert!(matches!(auth_method(&pw, true), Err(ConnectFailure::PasswordOnJumpHost)));
}

#[test]
fn agent_is_not_wired() {
    let agent: SshAuth = SshAuth::Agent;
    assert!(matches!(auth_method(&agent, false), Err(ConnectFailure::AgentNotWired)));
    assert!(matches!(auth_method(&agent, true), Err(ConnectFailure::AgentNotWired)));
}

#[test]
fn server_answer_is_read() {
    assert!(authentication_outcome(true).is_ok());
    assert!(matches!(authentication_outcome(false), Err(ConnectFailure::Rejected)));
}

#[test]
fn client_config_drops_idle_sessions() {
    let config = client_config();
    assert_eq!(config.inactivity_timeout, Some(std::time::Duration::from_secs(60)));
}

#[test]
fn client_config_keeps_russh_defaults() {
    let config = client_config();
    let defaults = russh::client::Config::default();
    assert_eq!(config.window_size, defaults.window_size);
    assert_eq!(config.maximum_packet_size, defaults.maximum_packet_size);
    assert_eq!(config.channel_buffer_size, defaults.channel_buffer_size);
    assert_eq!(config.keepalive_interval, defaults.keepalive_interval);
    assert_eq!(config.keepalive_max, defaults.keepalive_max);
    assert_eq!(config.anonymous, defaults.anonymous);
    assert_eq!(config.nodelay, defaults.nodelay);
    assert_eq!(format!("{:?}", config.client_id), format!("{:?}", defaults.client_id));
    assert_eq!(format!("{:?}", config.limits), format!("{:?}", defaults.limits));
    assert_eq!(format!("{:?}", config.preferred), format!("{:?}", defaults.preferred));
    assert_eq!(format!("{:?}", config.gex), format!("{:?}", defaults.gex));
}
