use locaryn_plugin_ssh::constant_time_eq;
use locaryn_plugin_ssh::hostkey::{accept_host_key, inspect_host_key};

const ED25519_KEY: &str =
    "ssh-ed25519 AAAAC3NzaC1lZDI1NTE5AAAAILM+rvN+ot98qgEN796jTiQfZfG1KaT0PtFDJ/XFSqti user@example.com";
const ED25519_FINGERPRINT: &str = "SHA256:UCUiLr7Pjs9wFFJMDByLgc3NrtdU344OgUM45wZPcIQ";

#[test]
fn constant_time_eq_equal_bytes() {
    assert!(constant_time_eq(b"SHA256:abc", b"SHA256:abc"));
    assert!(constant_time_eq(b"", b""));
}

#[test]
fn constant_time_eq_differing_bytes() {
    assert!(!constant_time_eq(b"SHA256:abc", b"SHA256:abd"));
    assert!(!constant_time_eq(b"xbc", b"abc"));
}

#[test]
fn constant_time_eq_differing_lengths() {
    assert!(!constant_time_eq(b"abc", b"abcd"));
    assert!(!constant_time_eq(b"", b"a"));
}

#[test]
fn pinned_key_must_match() {
    assert!(accept_host_key(Some("SHA256:abc"), "SHA256:abc"));
    assert!(!accept_host_key(Some("SHA256:abc"), "SHA256:abC"));
    assert!(!accept_host_key(Some("SHA256:abc"), "SHA256:ab"));
}

#[test]
fn first_contact_accepts_any_key() {
    assert!(accept_host_key(None, "SHA256:whatever"));
    assert!(accept_host_key(None, ""));
}

fn ed25519_blob() -> Vec<u8> {
    russh::keys::PublicKey::from_openssh(ED25519_KEY).unwrap().to_bytes().unwrap()
}

#[test]
fn inspect_captures_fingerprint_and_algorithm() {
    let check = inspect_host_key(&ed25519_blob(), None);
    assert_eq!(check.fingerprint, ED25519_FINGERPRINT);
    assert_eq!(check.algorithm, "ssh-ed25519");
    assert!(check.accepted);
}

#[test]
fn inspect_enforces_pin() {
    let blob = ed25519_blob();
    assert!(inspect_host_key(&blob, Some(ED25519_FINGERPRINT)).accepted);
    let other = inspect_host_key(&blob, Some("SHA256:Nh0Me49Zh9fDw/VYUfq43IJmI1T+XrjiYONPND8GzaM"));
    assert!(!other.accepted);
    assert_eq!(other.fingerprint, ED25519_FINGERPRINT);
    assert_eq!(other.algorithm, "ssh-ed25519");
}

#[test]
fn inspect_refuses_bytes_that_are_no_key() {
    let check = inspect_host_key(b"not a key", None);
    assert!(!check.accepted);
    assert!(check.fingerprint.is_empty() && check.algorithm.is_empty());
    let mut blob = ed25519_blob();
    blob.push(0);
    assert!(!inspect_host_key(&blob, None).accepted);
}
