//! Connection targets and their credentials. Secrets live in `Zeroizing`
//! buffers and never reach the rendered description of a target.

use vstd::prelude::*;
use zeroize::Zeroizing;
use crate::text::{debug_quoted, debug_str, decimal, push_decimal};

verus! {

/// How to authenticate to a host.
pub enum SshAuth<S = Zeroizing<String>> {
    Password(S),
    Key {
        /// Path to an on-disk OpenSSH private key.
        path: String,
        passphrase: Option<S>,
    },
    /// SSH agent (not yet wired; reserved).
    Agent,
}

/// A connection target, optionally reached through a jump host.
pub struct SshTarget<S = Zeroizing<String>> {
    pub host: String,
    pub port: u16,
    pub username: String,
    pub auth: SshAuth<S>,
    pub jump: Option<Box<SshTarget<S>>>,
}

/// The description of a credential: the variant, the key path, whether a
/// passphrase is set; never the password or the passphrase themselves.
pub open spec fn auth_description<S>(auth: SshAuth<S>) -> Seq<char> {
    match auth {
        SshAuth::Password(_) => "Password(masqué)"@,
        SshAuth::Key { path, passphrase } => "Key { path: "@ + debug_quoted(path@)
            + ", passphrase: "@ + (if passphrase is Some {
            "Some(\"masquée\")"@
        } else {
            "None"@
        }) + " }"@,
        SshAuth::Agent => "Agent"@,
    }
}

/// The description of a target, in the layout of a derived `Debug`, with the
/// credential described by `auth_description`.
pub open spec fn target_description<S>(target: SshTarget<S>) -> Seq<char>
    decreases target,
{
    "SshTarget { host: "@ + debug_quoted(target.host@) + ", port: "@ + decimal(
        target.port as nat,
    ) + ", username: "@ + debug_quoted(target.username@) + ", auth: "@ + auth_description(
        target.auth,
    ) + ", jump: "@ + match target.jump {
        Some(j) => "Some("@ + target_description(*j) + ")"@,
        None => "None"@,
    } + " }"@
}

/// Two credentials of the same kind that differ at most in their secrets.
pub open spec fn same_but_secrets<S>(a: SshAuth<S>, b: SshAuth<S>) -> bool {
    match (a, b) {
        (SshAuth::Password(_), SshAuth::Password(_)) => true,
        (SshAuth::Key { path: p1, passphrase: s1 }, SshAuth::Key { path: p2, passphrase: s2 }) => {
            p1@ == p2@ && (s1 is Some) == (s2 is Some)
        },
        (SshAuth::Agent, SshAuth::Agent) => true,
        _ => false,
    }
}

/// Two targets, with their jump chains, that differ at most in secrets.
pub open spec fn same_targets_but_secrets<S>(a: SshTarget<S>, b: SshTarget<S>) -> bool
    decreases a,
{
    &&& a.host@ == b.host@
    &&& a.port == b.port
    &&& a.username@ == b.username@
    &&& same_but_secrets(a.auth, b.auth)
    &&& match (a.jump, b.jump) {
        (Some(ja), Some(jb)) => same_targets_but_secrets(*ja, *jb),
        (None, None) => true,
        _ => false,
    }
}

impl<S> SshAuth<S> {
    /// The masked description of this credential (what `Debug` shows).
    pub fn describe(&self) -> (res: String)
        ensures
            res@ == auth_description(*self),
    {
        match self {
            SshAuth::Password(_) => String::from_str("Password(masqué)"),
            SshAuth::Key { path, passphrase } => {
                let mut out = String::from_str("Key { path: ");
                let quoted = debug_str(path.as_str());
                out.append(quoted.as_str());
                out.append(", passphrase: ");
                match passphrase {
                    Some(_) => out.append("Some(\"masquée\")"),
                    None => out.append("None"),
                }
                out.append(" }");
                out
            },
            SshAuth::Agent => String::from_str("Agent"),
        }
    }
}

impl<S> SshTarget<S> {
    /// The description of this target and of its jump chain, with every
    /// credential masked.
    pub fn describe(&self) -> (res: String)
        ensures
            res@ == target_description(*self),
        decreases self,
    {
        let mut out = String::from_str("SshTarget { host: ");
        let host = debug_str(self.host.as_str());
        out.append(host.as_str());
        out.append(", port: ");
        push_decimal(&mut out, self.port as u64);
        out.append(", username: ");
        let user = debug_str(self.username.as_str());
        out.append(user.as_str());
        out.append(", auth: ");
        let auth = self.auth.describe();
        out.append(auth.as_str());
        out.append(", jump: ");
        match &self.jump {
            Some(j) => {
                out.append("Some(");
                let inner = j.describe();
                out.append(inner.as_str());
                out.append(")");
            },
            None => out.append("None"),
        }
        out.append(" }");
        out
    }
}

/// The description of a credential depends on its kind, its key path and
/// whether a passphrase is set, never on the password or passphrase.
pub proof fn lemma_auth_description_ignores_secrets<S>(a: SshAuth<S>, b: SshAuth<S>)
    requires
        same_but_secrets(a, b),
    ensures
        auth_description(a) == auth_description(b),
{
}

/// The description of a target, jump chain included, is the same for any two
/// targets that differ only in their secrets.
pub proof fn lemma_target_description_ignores_secrets<S>(a: SshTarget<S>, b: SshTarget<S>)
    requires
        same_targets_but_secrets(a, b),
    ensures
        target_description(a) == target_description(b),
    decreases a,
{
    lemma_auth_description_ignores_secrets(a.auth, b.auth);
    match (a.jump, b.jump) {
        (Some(ja), Some(jb)) => {
            lemma_target_description_ignores_secrets(*ja, *jb);
        },
        _ => {},
    }
}

proof fn lemma_jump_literals()
    ensures
        ", jump: "@ + "Some("@ == ", jump: Some("@,
        ")"@ + " }"@ == ") }"@,
{
    reveal_strlit(", jump: Some(");
    reveal_strlit(", jump: ");
    reveal_strlit("Some(");
    reveal_strlit(") }");
    reveal_strlit(")");
    reveal_strlit(" }");
    assert(", jump: "@ + "Some("@ =~= ", jump: Some("@);
    assert(")"@ + " }"@ =~= ") }"@);
}

/// Whether `s` ends with `suffix`.
pub open spec fn ends_with(s: Seq<char>, suffix: Seq<char>) -> bool {
    suffix.len() <= s.len() && s.subrange(s.len() - suffix.len(), s.len() as int) == suffix
}

/// The end of a target's description is fixed by its jump field alone: a
/// target without a jump host ends with `, jump: None }`, whatever its
/// credential; a target with one ends with the jump host's own description,
/// as `, jump: Some(<jump>) }`.
pub proof fn lemma_description_ends_with_jump<S>(t: SshTarget<S>)
    ensures
        t.jump is None ==> ends_with(target_description(t), ", jump: None }"@),
        t.jump matches Some(j) ==> ends_with(
            target_description(t),
            ", jump: Some("@ + target_description(*j) + ") }"@,
        ),
{
    reveal_strlit(", jump: None }");
    reveal_strlit(", jump: ");
    reveal_strlit(", jump: Some(");
    reveal_strlit("None");
    reveal_strlit("Some(");
    reveal_strlit(") }");
    reveal_strlit(" }");
    let head = "SshTarget { host: "@ + debug_quoted(t.host@) + ", port: "@ + decimal(t.port as nat)
        + ", username: "@ + debug_quoted(t.username@) + ", auth: "@ + auth_description(t.auth);
    let d = target_description(t);
    match t.jump {
        Some(j) => {
            let tail = ", jump: Some("@ + target_description(*j) + ") }"@;
            let inner = target_description(*j);
            lemma_jump_literals();
            assert(", jump: "@ + ("Some("@ + inner + ")"@) + " }"@ =~= (", jump: "@ + "Some("@)
                + inner + (")"@ + " }"@));
            assert(", jump: "@ + ("Some("@ + inner + ")"@) + " }"@ =~= tail);
            assert(d =~= head + tail);
            assert(d.subrange(d.len() - tail.len(), d.len() as int) =~= tail);
        },
        None => {
            let tail = ", jump: None }"@;
            assert(", jump: "@ + "None"@ + " }"@ =~= tail);
            assert(d =~= head + tail);
            assert(d.subrange(d.len() - tail.len(), d.len() as int) =~= tail);
        },
    }
}

} // verus!
