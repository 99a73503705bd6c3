use locaryn_plugin_ssh::session::{probe_checks, ChannelEvent, CommandOutput, ProbeCheck};
use locaryn_plugin_ssh::ProbeResult;

#[test]
fn output_gathers_both_streams_in_order() {
    let mut out = CommandOutput::new();
    assert!(out.on_event(ChannelEvent::Data(b"hello ".to_vec())));
    assert!(out.on_event(ChannelEvent::ExtendedData(b"warn ".to_vec())));
    assert!(out.on_event(ChannelEvent::Other));
    assert!(out.on_event(ChannelEvent::Data(b"world".to_vec())));
    assert!(out.on_event(ChannelEvent::ExitStatus(3)));
    assert!(out.on_event(ChannelEvent::Eof));
    assert!(!out.on_event(ChannelEvent::Close));
    assert_eq!(out.finish(), ("hello warn world".to_string(), 3));
}

#[test]
fn exit_status_after_end_of_file_counts() {
    let mut out = CommandOutput::new();
    assert!(out.on_event(ChannelEvent::Data(b"root\n".to_vec())));
    assert!(out.on_event(ChannelEvent::Eof));
    assert!(out.on_event(ChannelEvent::ExitStatus(0)));
    assert!(!out.on_event(ChannelEvent::Close));
    assert_eq!(out.finish(), ("root\n".to_string(), 0));
}

#[test]
fn exit_code_defaults_to_minus_one() {
    let mut out = CommandOutput::new();
    assert_eq!(out.exit_code(), -1);
    assert!(!out.on_event(ChannelEvent::Close));
    assert_eq!(out.finish(), (String::new(), -1));
}

#[test]
fn large_exit_status_wraps() {
    let mut out = CommandOutput::new();
    out.on_event(ChannelEvent::ExitStatus(u32::MAX));
    assert_eq!(out.exit_code(), -1);
    out.on_event(ChannelEvent::ExitStatus(255));
    assert_eq!(out.exit_code(), 255);
}

#[test]
fn nothing_counts_after_end_of_stream() {
    let mut out = CommandOutput::new();
    out.on_event(ChannelEvent::Data(b"a".to_vec()));
    assert!(!out.on_event(ChannelEvent::Close));
    assert!(!out.on_event(ChannelEvent::Data(b"b".to_vec())));
    assert!(!out.on_event(ChannelEvent::ExitStatus(9)));
    assert_eq!(out.finish(), ("a".to_string(), -1));
}

#[test]
fn invalid_utf8_is_replaced() {
    let mut out = CommandOutput::new();
    out.on_event(ChannelEvent::Data(vec![b'o', 0xff, b'k']));
    assert_eq!(out.finish().0, "o\u{fffd}k");
}

#[test]
fn probe_runs_five_fixed_commands() {
    let cmds: Vec<&str> = probe_checks().iter().map(|c| c.command()).collect();
    assert_eq!(
        cmds,
        vec![
            "whoami",
            "uname -a 2>/dev/null || (head -n1 /etc/os-release 2>/dev/null)",
            "sudo -n true 2>/dev/null && echo yes || echo no",
            "ls -la \"$HOME\" >/dev/null 2>&1 && echo ok || echo no",
            "t=\"$HOME/.syncho_probe.$$\"; printf probe > \"$t\" && w=ok || w=no; rm -f \"$t\" || w=no; echo \"$w\"",
        ]
    );
}

#[test]
fn probe_starts_reachable_and_empty() {
    let r = ProbeResult::reachable_with_key("ssh-ed25519".to_string(), "SHA256:x".to_string());
    assert!(r.reachable);
    assert_eq!(r.host_key_algo, "ssh-ed25519");
    assert_eq!(r.host_key_sha256, "SHA256:x");
    assert!(r.whoami.is_none() && r.os.is_none());
    assert!(!r.can_read && !r.can_write && !r.is_sudoer);
    let d = ProbeResult::default();
    assert!(!d.reachable && d.host_key_algo.is_empty());
}

#[test]
fn probe_records_identity_and_system_on_success_only() {
    let mut r = ProbeResult::reachable_with_key(String::new(), String::new());
    r.record(ProbeCheck::Identity, Some(("  deploy\n".to_string(), 0)));
    assert_eq!(r.whoami.as_deref(), Some("deploy"));
    r.record(ProbeCheck::System, Some(("Linux web 6.1\n".to_string(), 1)));
    assert_eq!(r.os, None);
    r.record(ProbeCheck::System, Some(("   \n".to_string(), 0)));
    assert_eq!(r.os, None);
    r.record(ProbeCheck::System, None);
    assert_eq!(r.os, None);
    r.record(ProbeCheck::System, Some(("Linux web 6.1\n".to_string(), 0)));
    assert_eq!(r.os.as_deref(), Some("Linux web 6.1"));
    assert_eq!(r.whoami.as_deref(), Some("deploy"));
}

#[test]
fn probe_flags_read_answer_words() {
    let mut r = ProbeResult::reachable_with_key(String::new(), String::new());
    r.record(ProbeCheck::Sudo, Some(("yes\n".to_string(), 1)));
    assert!(r.is_sudoer);
    r.record(ProbeCheck::ReadHome, Some(("ok\n".to_string(), 0)));
    assert!(r.can_read);
    r.record(ProbeCheck::WriteHome, Some(("no\n".to_string(), 0)));
    assert!(!r.can_write);
    r.record(ProbeCheck::WriteHome, None);
    assert!(!r.can_write);
    r.record(ProbeCheck::Sudo, Some(("Yes\n".to_string(), 0)));
    assert!(!r.is_sudoer);
    assert!(r.can_read);
}
