//! Running a command on an open session: the channel's messages are folded
//! into the command's output and exit code; and the self-cleaning capability
//! probe, a fixed series of commands whose answers fill a `ProbeResult`.

use vstd::prelude::*;
use crate::text::{str_equal, trim, trimmed};

verus! {

/// A message received on a session channel, as far as running a command
/// cares.
pub enum ChannelEvent {
    /// Bytes on standard output.
    Data(Vec<u8>),
    /// Bytes on another stream (standard error).
    ExtendedData(Vec<u8>),
    ExitStatus(u32),
    Eof,
    Close,
    Other,
}

/// What has been gathered of a running command: its output so far, its exit
/// code (-1 until one is reported), and whether the channel has closed.
pub struct CommandOutput {
    bytes: Vec<u8>,
    code: i32,
    ended: bool,
}

/// The model of a command's progress: output, exit code, ended.
pub type OutputModel = (Seq<u8>, i32, bool);

/// The progress before any message.
pub open spec fn initial_output() -> OutputModel {
    (Seq::empty(), -1i32, false)
}

/// The effect of one message: both data streams are appended in arrival
/// order, an exit status replaces the code, close ends the stream, and once
/// ended nothing changes. End-of-file only says that no more data follows:
/// servers commonly send the exit status after it, so it ends nothing.
pub open spec fn after_event(state: OutputModel, event: ChannelEvent) -> OutputModel {
    if state.2 {
        state
    } else {
        match event {
            ChannelEvent::Data(d) => (state.0 + d@, state.1, false),
            ChannelEvent::ExtendedData(d) => (state.0 + d@, state.1, false),
            ChannelEvent::ExitStatus(s) => (state.0, s as i32, false),
            ChannelEvent::Eof => state,
            ChannelEvent::Close => (state.0, state.1, true),
            ChannelEvent::Other => state,
        }
    }
}

/// The progress after a sequence of messages.
pub open spec fn after_events(state: OutputModel, events: Seq<ChannelEvent>) -> OutputModel
    decreases events.len(),
{
    if events.len() == 0 {
        state
    } else {
        after_events(after_event(state, events[0]), events.drop_first())
    }
}

impl CommandOutput {
    pub closed spec fn model(&self) -> OutputModel {
        (self.bytes@, self.code, self.ended)
    }

    pub fn new() -> (res: CommandOutput)
        ensures
            res.model() == initial_output(),
    {
        CommandOutput { bytes: Vec::new(), code: -1, ended: false }
    }

    /// Takes in one message; returns whether more should be read.
    pub fn on_event(&mut self, event: ChannelEvent) -> (keep_reading: bool)
        ensures
            final(self).model() == after_event(old(self).model(), event),
            keep_reading == !final(self).model().2,
    {
        if self.ended {
            return false;
        }
        match event {
            ChannelEvent::Data(d) => {
                let mut d = d;
                self.bytes.append(&mut d);
            },
            ChannelEvent::ExtendedData(d) => {
                let mut d = d;
                self.bytes.append(&mut d);
            },
            ChannelEvent::ExitStatus(s) => {
                self.code = s as i32;
            },
            ChannelEvent::Eof => {},
            ChannelEvent::Close => {
                self.ended = true;
            },
            ChannelEvent::Other => {},
        }
        !self.ended
    }

    /// The exit code reported so far, or -1.
    pub fn exit_code(&self) -> (res: i32)
        ensures
            res == self.model().1,
    {
        self.code
    }

    /// The output so far, read as UTF-8 with invalid sequences replaced, and
    /// the exit code.
    pub fn finish(self) -> (res: (String, i32))
        ensures
            res.0@ == utf8_lossy(self.model().0),
            res.1 == self.model().1,
    {
        (lossy_text(self.bytes.as_slice()), self.code)
    }
}

/// What `String::from_utf8_lossy` makes of these bytes.
pub uninterp spec fn utf8_lossy(bytes: Seq<u8>) -> Seq<char>;

/// Calls `String::from_utf8_lossy`. Its result is `utf8_lossy` of the bytes,
/// and, as its documentation says, valid UTF-8 is decoded unchanged.
#[verifier::external_body]
fn lossy_text(bytes: &[u8]) -> (res: String)
    ensures
        res@ == utf8_lossy(bytes@),
        vstd::utf8::valid_utf8(bytes@) ==> res@ == vstd::utf8::decode_utf8(bytes@),
{
    String::from_utf8_lossy(bytes).into_owned()
}

/// Once the channel has closed, later messages change nothing.
pub proof fn lemma_ended_output_is_final(state: OutputModel, events: Seq<ChannelEvent>)
    requires
        state.2,
    ensures
        after_events(state, events) == state,
    decreases events.len(),
{
    if events.len() > 0 {
        lemma_ended_output_is_final(after_event(state, events[0]), events.drop_first());
    }
}

/// Taking messages one at a time agrees with taking the whole sequence: the
/// progress after `events` followed by `event` is one step past the progress
/// after `events`.
pub proof fn lemma_after_events_push(
    state: OutputModel,
    events: Seq<ChannelEvent>,
    event: ChannelEvent,
)
    ensures
        after_events(state, events.push(event)) == after_event(after_events(state, events), event),
    decreases events.len(),
{
    if events.len() > 0 {
        assert(events.push(event).drop_first() =~= events.drop_first().push(event));
        assert(events.push(event)[0] == events[0]);
        lemma_after_events_push(after_event(state, events[0]), events.drop_first(), event);
    } else {
        let single = events.push(event);
        assert(single.drop_first() =~= Seq::<ChannelEvent>::empty());
        assert(single[0] == event);
        assert(after_events(after_event(state, event), single.drop_first()) == after_event(
            state,
            event,
        ));
    }
}

/// One question the capability probe asks the remote machine.
#[derive(Clone, Copy, PartialEq, Eq, Structural)]
pub enum ProbeCheck {
    /// Who the session runs as.
    Identity,
    /// Which system the machine runs.
    System,
    /// Whether sudo works without a password.
    Sudo,
    /// Whether the home directory can be listed.
    ReadHome,
    /// Whether a file can be written to, and removed from, the home directory.
    WriteHome,
}

impl ProbeCheck {
    /// The shell command that answers this check. Only the write check
    /// touches the disk, inside `$HOME`, and it removes its file whether or
    /// not the write succeeded.
    pub open spec fn command_text(self) -> Seq<char> {
        match self {
            ProbeCheck::Identity => "whoami"@,
            ProbeCheck::System => "uname -a 2>/dev/null || (head -n1 /etc/os-release 2>/dev/null)"@,
            ProbeCheck::Sudo => "sudo -n true 2>/dev/null && echo yes || echo no"@,
            ProbeCheck::ReadHome => "ls -la \"$HOME\" >/dev/null 2>&1 && echo ok || echo no"@,
            ProbeCheck::WriteHome =>
                "t=\"$HOME/.syncho_probe.$$\"; printf probe > \"$t\" && w=ok || w=no; rm -f \"$t\" || w=no; echo \"$w\""@,
        }
    }

    pub fn command(&self) -> (res: &'static str)
        ensures
            res@ == self.command_text(),
    {
        match self {
            ProbeCheck::Identity => "whoami",
            ProbeCheck::System => "uname -a 2>/dev/null || (head -n1 /etc/os-release 2>/dev/null)",
            ProbeCheck::Sudo => "sudo -n true 2>/dev/null && echo yes || echo no",
            ProbeCheck::ReadHome => "ls -la \"$HOME\" >/dev/null 2>&1 && echo ok || echo no",
            ProbeCheck::WriteHome =>
                "t=\"$HOME/.syncho_probe.$$\"; printf probe > \"$t\" && w=ok || w=no; rm -f \"$t\" || w=no; echo \"$w\"",
        }
    }
}

/// The checks of a probe, in the order they run.
pub open spec fn probe_order() -> Seq<ProbeCheck> {
    seq![
        ProbeCheck::Identity,
        ProbeCheck::System,
        ProbeCheck::Sudo,
        ProbeCheck::ReadHome,
        ProbeCheck::WriteHome,
    ]
}

pub fn probe_checks() -> (res: Vec<ProbeCheck>)
    ensures
        res@ == probe_order(),
{
    let v = vec![
        ProbeCheck::Identity,
        ProbeCheck::System,
        ProbeCheck::Sudo,
        ProbeCheck::ReadHome,
        ProbeCheck::WriteHome,
    ];
    assert(v@ =~= probe_order());
    v
}

/// Result of a lightweight, self-cleaning capability probe.
#[derive(Debug, Clone)]
pub struct ProbeResult {
    pub reachable: bool,
    pub os: Option<String>,
    pub whoami: Option<String>,
    pub can_read: bool,
    pub can_write: bool,
    pub is_sudoer: bool,
    pub host_key_algo: String,
    pub host_key_sha256: String,
}

/// Whether a probe result still holds what nothing has been learned yet.
pub open spec fn unprobed(r: ProbeResult) -> bool {
    &&& r.os is None
    &&& r.whoami is None
    &&& !r.can_read
    &&& !r.can_write
    &&& !r.is_sudoer
}

impl Default for ProbeResult {
    fn default() -> (res: ProbeResult)
        ensures
            !res.reachable,
            unprobed(res),
            res.host_key_algo@ == Seq::<char>::empty(),
            res.host_key_sha256@ == Seq::<char>::empty(),
    {
        ProbeResult {
            reachable: false,
            os: None,
            whoami: None,
            can_read: false,
            can_write: false,
            is_sudoer: false,
            host_key_algo: String::new(),
            host_key_sha256: String::new(),
        }
    }
}

/// The value a check that reports text keeps: the trimmed output when the
/// command exited with 0 and printed something, else nothing new.
pub open spec fn reported_text(outcome: Option<(String, i32)>, before: Option<String>) -> Option<
    Seq<char>,
> {
    match outcome {
        Some((out, code)) => if code == 0 && trimmed(out@).len() > 0 {
            Some(trimmed(out@))
        } else {
            view_text(before)
        },
        None => view_text(before),
    }
}

pub open spec fn view_text(s: Option<String>) -> Option<Seq<char>> {
    match s {
        Some(t) => Some(t@),
        None => None,
    }
}

/// The value a yes/no check keeps: whether the trimmed output is the expected
/// word, whatever the exit code; unchanged when the command could not run.
pub open spec fn reported_flag(outcome: Option<(String, i32)>, word: Seq<char>, before: bool) -> bool {
    match outcome {
        Some((out, _)) => trimmed(out@) == word,
        None => before,
    }
}

impl ProbeResult {
    /// A probe result for a reachable host, before any check has run.
    pub fn reachable_with_key(host_key_algo: String, host_key_sha256: String) -> (res: ProbeResult)
        ensures
            res.reachable,
            unprobed(res),
            res.host_key_algo == host_key_algo,
            res.host_key_sha256 == host_key_sha256,
    {
        ProbeResult {
            reachable: true,
            os: None,
            whoami: None,
            can_read: false,
            can_write: false,
            is_sudoer: false,
            host_key_algo,
            host_key_sha256,
        }
    }

    /// Records the answer to one check: `outcome` is the command's output and
    /// exit code, or `None` when the command could not be run.
    pub fn record(&mut self, check: ProbeCheck, outcome: Option<(String, i32)>)
        ensures
            final(self).reachable == old(self).reachable,
            final(self).host_key_algo == old(self).host_key_algo,
            final(self).host_key_sha256 == old(self).host_key_sha256,
            view_text(final(self).whoami) == if check == ProbeCheck::Identity {
                reported_text(outcome, old(self).whoami)
            } else {
                view_text(old(self).whoami)
            },
            view_text(final(self).os) == if check == ProbeCheck::System {
                reported_text(outcome, old(self).os)
            } else {
                view_text(old(self).os)
            },
            final(self).is_sudoer == if check == ProbeCheck::Sudo {
                reported_flag(outcome, "yes"@, old(self).is_sudoer)
            } else {
                old(self).is_sudoer
            },
            final(self).can_read == if check == ProbeCheck::ReadHome {
                reported_flag(outcome, "ok"@, old(self).can_read)
            } else {
                old(self).can_read
            },
            final(self).can_write == if check == ProbeCheck::WriteHome {
                reported_flag(outcome, "ok"@, old(self).can_write)
            } else {
                old(self).can_write
            },
    {
        match outcome {
            None => {},
            Some((out, code)) => {
                let text = trim(out.as_str());
                match check {
                    ProbeCheck::Identity => {
                        if code == 0 && text.as_str().unicode_len() > 0 {
                            self.whoami = Some(text);
                        }
                    },
                    ProbeCheck::System => {
                        if code == 0 && text.as_str().unicode_len() > 0 {
                            self.os = Some(text);
                        }
                    },
                    ProbeCheck::Sudo => {
                        self.is_sudoer = str_equal(text.as_str(), "yes");
                    },
                    ProbeCheck::ReadHome => {
                        self.can_read = str_equal(text.as_str(), "ok");
                    },
                    ProbeCheck::WriteHome => {
                        self.can_write = str_equal(text.as_str(), "ok");
                    },
                }
            },
        }
    }
}

/// Everything carried on either data stream, in arrival order, up to the
/// first close.
pub open spec fn payloads_until_close(events: Seq<ChannelEvent>) -> Seq<u8>
    decreases events.len(),
{
    if events.len() == 0 {
        Seq::empty()
    } else {
        match events[0] {
            ChannelEvent::Close => Seq::empty(),
            ChannelEvent::Data(d) => d@ + payloads_until_close(events.drop_first()),
            ChannelEvent::ExtendedData(d) => d@ + payloads_until_close(events.drop_first()),
            _ => payloads_until_close(events.drop_first()),
        }
    }
}

/// The last exit status reported before the first close, or `code` when none
/// is.
pub open spec fn status_until_close(events: Seq<ChannelEvent>, code: i32) -> i32
    decreases events.len(),
{
    if events.len() == 0 {
        code
    } else {
        match events[0] {
            ChannelEvent::Close => code,
            ChannelEvent::ExitStatus(s) => status_until_close(events.drop_first(), s as i32),
            _ => status_until_close(events.drop_first(), code),
        }
    }
}

/// Before the channel closes, every payload on standard output and on
/// standard error is appended as it comes, whatever arrived before.
pub proof fn lemma_every_payload_is_appended(state: OutputModel, d: Vec<u8>)
    requires
        !state.2,
    ensures
        after_event(state, ChannelEvent::Data(d)).0 == state.0 + d@,
        after_event(state, ChannelEvent::ExtendedData(d)).0 == state.0 + d@,
        !after_event(state, ChannelEvent::Data(d)).2,
        !after_event(state, ChannelEvent::ExtendedData(d)).2,
{
}

/// A command's output is all the data of both streams up to the first close,
/// in arrival order, and its exit code is the last status reported before
/// the close (or the code already held): from the start, that is the combined
/// output and the exit code, -1 when none was reported.
pub proof fn lemma_output_is_payloads_until_close(state: OutputModel, events: Seq<ChannelEvent>)
    requires
        !state.2,
    ensures
        after_events(state, events).0 == state.0 + payloads_until_close(events),
        after_events(state, events).1 == status_until_close(events, state.1),
    decreases events.len(),
{
    if events.len() == 0 {
        assert(state.0 + Seq::<u8>::empty() =~= state.0);
    } else {
        let next = after_event(state, events[0]);
        match events[0] {
            ChannelEvent::Close => {
                lemma_ended_output_is_final(next, events.drop_first());
                assert(state.0 + Seq::<u8>::empty() =~= state.0);
            },
            ChannelEvent::Data(d) => {
                lemma_output_is_payloads_until_close(next, events.drop_first());
                assert(state.0 + d@ + payloads_until_close(events.drop_first()) =~= state.0 + (d@
                    + payloads_until_close(events.drop_first())));
            },
            ChannelEvent::ExtendedData(d) => {
                lemma_output_is_payloads_until_close(next, events.drop_first());
                assert(state.0 + d@ + payloads_until_close(events.drop_first()) =~= state.0 + (d@
                    + payloads_until_close(events.drop_first())));
            },
            _ => {
                lemma_output_is_payloads_until_close(next, events.drop_first());
            },
        }
    }
}

} // verus!
