//! The polling state machine: when to re-read the state file, and what a
//! read leads to. The caller performs the file access and the emission.

use vstd::prelude::*;
use crate::payload::{Payload, PayloadView, build_payload, idle_payload, idle_view, law_payload_mirrors_session, session_payload};
use crate::session::{
    CompanionState, accepted_state, choose_session, chosen_index, law_pinned_session_wins, parse_state, str_of,
};

verus! {

/// A file's modification time, as its distance from the Unix epoch.
#[derive(Debug, Clone, Copy, PartialEq, Eq, Structural)]
pub struct FileStamp {
    /// Whether the time lies before the epoch.
    pub before_epoch: bool,
    pub secs: u64,
    pub nanos: u32,
}

/// The poller's memory between two ticks.
#[derive(Debug, Clone, Copy, PartialEq, Eq, Structural)]
pub struct Poller {
    /// No tick has happened yet.
    pub first_pass: bool,
    /// The modification time seen at the last read (`None`: no file).
    pub last_mtime: Option<FileStamp>,
    /// A parse failure was already reported and no good read followed.
    pub parse_error_logged: bool,
}

/// What reading the state file gave.
pub enum ReadOutcome {
    /// The file is absent or unreadable: the plugin is not running.
    Unreadable,
    /// The file was read; `None` when its contents did not decode.
    Decoded(Option<CompanionState>),
}

/// What the caller does after a read.
pub enum ReadAction {
    /// Emit this payload if it differs from the last one sent.
    Publish(Payload),
    /// Keep the last good state; report the parse failure when asked.
    KeepLast { report_parse_error: bool },
}

/// Whether a tick with modification time `mtime` re-reads the file: on the
/// first tick, and whenever the time differs from the last one seen.
pub open spec fn tick_reads(p: Poller, mtime: Option<FileStamp>) -> bool {
    p.first_pass || p.last_mtime != mtime
}

/// The poller after a tick.
pub open spec fn after_tick(p: Poller, mtime: Option<FileStamp>) -> Poller {
    if tick_reads(p, mtime) {
        Poller { first_pass: false, last_mtime: mtime, parse_error_logged: p.parse_error_logged }
    } else {
        p
    }
}

/// The payload shown for an accepted state: that of the chosen session, or
/// the idle one when there is none.
pub open spec fn state_payload(s: CompanionState, pin: Option<Seq<char>>) -> PayloadView {
    match chosen_index(s.sessions@, pin) {
        Some(i) => session_payload(s.sessions@[i]),
        None => idle_view(),
    }
}

/// Whether a read failed to give an accepted state from an existing file.
pub open spec fn read_is_corrupt(o: ReadOutcome) -> bool {
    match o {
        ReadOutcome::Unreadable => false,
        ReadOutcome::Decoded(d) => accepted_state(d) is None,
    }
}

/// The parse-failure flag after a read.
pub open spec fn flag_after_read(o: ReadOutcome) -> bool {
    read_is_corrupt(o)
}

/// Whether a read reports a parse failure: only the first of a run.
pub open spec fn read_reports(p: Poller, o: ReadOutcome) -> bool {
    read_is_corrupt(o) && !p.parse_error_logged
}

impl Poller {
    /// A poller before its first tick.
    pub fn new() -> (r: Self)
        ensures
            r == (Poller { first_pass: true, last_mtime: None, parse_error_logged: false }),
    {
        Poller { first_pass: true, last_mtime: None, parse_error_logged: false }
    }

    /// Decides whether this tick re-reads the file, and remembers `mtime`
    /// when it does.
    pub fn should_read(&mut self, mtime: Option<FileStamp>) -> (r: bool)
        ensures
            r == tick_reads(*old(self), mtime),
            *final(self) == after_tick(*old(self), mtime),
            r == (old(self).first_pass || old(self).last_mtime != mtime),
            r ==> !final(self).first_pass && final(self).last_mtime == mtime,
            final(self).parse_error_logged == old(self).parse_error_logged,
    {
        let same = match (self.last_mtime, mtime) {
            (None, None) => true,
            (Some(a), Some(b)) => a == b,
            _ => false,
        };
        let reads = self.first_pass || !same;
        if reads {
            self.first_pass = false;
            self.last_mtime = mtime;
        }
        reads
    }

    /// Turns a read into an action: an unreadable file shows the idle
    /// payload; an accepted state shows the chosen session's payload (or
    /// the idle one); a file that does not decode, or has another version,
    /// keeps the last good state and asks for a report only on the first
    /// failure of a run. `env_session_id` is the pinned session.
    pub fn on_read(&mut self, outcome: ReadOutcome, env_session_id: Option<&str>) -> (r: ReadAction)
        ensures
            final(self).first_pass == old(self).first_pass,
            final(self).last_mtime == old(self).last_mtime,
            final(self).parse_error_logged == flag_after_read(outcome),
            match outcome {
                ReadOutcome::Unreadable => r matches ReadAction::Publish(p) && p@ == idle_view(),
                ReadOutcome::Decoded(d) => match accepted_state(d) {
                    Some(s) => r matches ReadAction::Publish(p) && p@ == state_payload(s, str_of(env_session_id)),
                    None => r matches ReadAction::KeepLast { report_parse_error } && report_parse_error
                        == read_reports(*old(self), outcome),
                },
            },
            match outcome {
                ReadOutcome::Unreadable => !final(self).parse_error_logged,
                ReadOutcome::Decoded(None) => final(self).parse_error_logged && (r matches ReadAction::KeepLast {
                    report_parse_error,
                } && report_parse_error == !old(self).parse_error_logged),
                ReadOutcome::Decoded(Some(s)) => if s.version is None || s.version == Some(1u32) {
                    !final(self).parse_error_logged && r is Publish
                } else {
                    final(self).parse_error_logged && (r matches ReadAction::KeepLast { report_parse_error }
                        && report_parse_error == !old(self).parse_error_logged)
                },
            },
            match outcome {
                ReadOutcome::Decoded(Some(s)) => match env_session_id {
                    Some(id) => (accepted_state(Some(s)) is Some && exists|j: int|
                        0 <= j < s.sessions@.len() && #[trigger] s.sessions@[j].session_id@ == id@)
                        ==> (r matches ReadAction::Publish(p) && p.session_id@ == id@),
                    None => true,
                },
                _ => true,
            },
    {
        match outcome {
            ReadOutcome::Unreadable => {
                self.parse_error_logged = false;
                ReadAction::Publish(idle_payload())
            },
            ReadOutcome::Decoded(decoded) => match parse_state(decoded) {
                Some(state) => {
                    self.parse_error_logged = false;
                    proof {
                        if let Some(id) = env_session_id {
                            if exists|j: int|
                                0 <= j < state.sessions@.len() && #[trigger] state.sessions@[j].session_id@ == id@ {
                                let j = choose|j: int|
                                    0 <= j < state.sessions@.len() && #[trigger] state.sessions@[j].session_id@
                                        == id@;
                                law_read_follows_pin(state, id@, j);
                            }
                        }
                    }
                    let payload = match choose_session(&state, env_session_id) {
                        Some(s) => build_payload(s),
                        None => idle_payload(),
                    };
                    ReadAction::Publish(payload)
                },
                None => {
                    let report = !self.parse_error_logged;
                    self.parse_error_logged = true;
                    ReadAction::KeepLast { report_parse_error: report }
                },
            },
        }
    }
}

/// For an accepted state, a session carrying the pinned id is the one
/// published: the payload's id is the pinned id.
pub proof fn law_read_follows_pin(s: CompanionState, id: Seq<char>, j: int)
    requires
        0 <= j < s.sessions@.len(),
        s.sessions@[j].session_id@ == id,
    ensures
        state_payload(s, Some(id)).session_id == id,
        chosen_index(s.sessions@, Some(id)) matches Some(i) && state_payload(s, Some(id)) == session_payload(
            s.sessions@[i],
        ),
{
    law_pinned_session_wins(s.sessions@, id, j);
    let i = chosen_index(s.sessions@, Some(id))->0;
    law_payload_mirrors_session(s.sessions@[i]);
}

/// A tick that saw a modification time does not re-read while the time
/// stays the same.
pub proof fn law_unchanged_mtime_is_not_reread(p: Poller, mtime: Option<FileStamp>)
    ensures
        !tick_reads(after_tick(p, mtime), mtime),
{
}

/// The first tick always reads, whatever the file's state.
pub proof fn law_first_tick_reads(mtime: Option<FileStamp>)
    ensures
        tick_reads(Poller { first_pass: true, last_mtime: None, parse_error_logged: false }, mtime),
{
}

/// A run of parse failures is reported once: after a failed read, a second
/// failed read reports nothing, while a read that succeeds (or finds no
/// file) re-arms the report.
pub proof fn law_parse_failure_reported_once(p: Poller, first: ReadOutcome, second: ReadOutcome)
    requires
        read_is_corrupt(first),
        read_is_corrupt(second),
    ensures
        !read_reports(Poller { parse_error_logged: flag_after_read(first), ..p }, second),
{
}

/// After a read that is not corrupt, the next failure is reported.
pub proof fn law_good_read_rearms_report(p: Poller, good: ReadOutcome, bad: ReadOutcome)
    requires
        !read_is_corrupt(good),
        read_is_corrupt(bad),
    ensures
        read_reports(Poller { parse_error_logged: flag_after_read(good), ..p }, bad),
{
}

} // verus!
