//! A leveled, buffered logger: messages are appended with an arrival
//! timestamp, optionally echoed to standard output at once, and serialized
//! on demand into the flat text form that a caller then writes to the
//! configured destination.

use std::io::Write;

use vstd::prelude::*;
use vstd::string::StringExecFns;

use crate::errors::CoreError;

verus! {

/// Number of message slots reserved up front by a fresh `Logger`.
pub const DEFAULT_LOGGING_SIZE: usize = 4096;

/// Level of an informational message.
pub const LOG_LEVEL_INFO: u8 = 0;

/// Level of an error message.
pub const LOG_LEVEL_ERROR: u8 = 1;

/// Level of a message carrying extra detail.
pub const LOG_LEVEL_VERBOSE: u8 = 2;

/// One buffered record: the RFC 3339 timestamp taken on arrival, the level,
/// and the message text. Immutable once created; the buffer keeps records in
/// arrival order.
pub struct LogMessage {
    /// RFC 3339 rendering of the moment the message was logged.
    pub time: String,
    /// One of the `LOG_LEVEL_` values; anything else serializes as unknown.
    pub level: u8,
    /// The text as the caller gave it, separators and newlines included.
    pub message: String,
}

/// The name under which a level is serialized. The level space is not a
/// closed enumeration, so every unrecognized value has a name too.
pub open spec fn level_name(level: u8) -> Seq<char> {
    if level == LOG_LEVEL_INFO {
        "INFO"@
    } else if level == LOG_LEVEL_ERROR {
        "ERROR"@
    } else if level == LOG_LEVEL_VERBOSE {
        "VERBOSE"@
    } else {
        "UNKNOWN"@
    }
}

/// The single record emitted for `m`: timestamp, level name and text, the
/// fields joined by " | ", with no trailing separator.
pub open spec fn record_of(m: LogMessage) -> Seq<char> {
    m.time@ + " | "@ + level_name(m.level) + " | "@ + m.message@
}

/// The full serialized form of a buffer: one record per message, in arrival
/// order, concatenated directly — a record supplies its own newline only if
/// its text holds one.
pub open spec fn render_of(messages: Seq<LogMessage>) -> Seq<char>
    decreases messages.len(),
{
    if messages.len() == 0 {
        Seq::<char>::empty()
    } else {
        render_of(messages.drop_last()) + record_of(messages.last())
    }
}

/// An ordered buffer of leveled, timestamped messages. Configuration is set
/// by the owner before first use; the buffer grows only by append and is
/// never cleared, so repeated publishing re-emits the full history.
pub struct Logger {
    /// When false, verbose messages are discarded at log time instead of
    /// buffered; all other levels are always retained.
    pub print_all_on: bool,
    /// Destination the published content is meant for; the empty string
    /// means none is configured and publishing is refused.
    pub file_path: String,
    /// When true, every logged text is echoed to standard output at log
    /// time, whether or not it is retained.
    pub print_asap: bool,
    /// The buffered records, in arrival order.
    pub messages: Vec<LogMessage>,
}

/// Relies on `chrono::Local::now` and `chrono::DateTime::to_rfc3339`: the
/// moment of the call in the machine's local time zone, rendered as an
/// RFC 3339 timestamp. The result depends on the clock, so nothing is
/// promised of it. `Local::now` panics on a host clock set before 1970 —
/// an environmental condition no caller can rule out from here.
#[verifier::external_body]
fn now_rfc3339() -> String {
    chrono::Local::now().to_rfc3339()
}

/// Relies on `std::io::Stdout::write_fmt`, through `write!`: sends the text
/// to standard output. The echo is best-effort, so the outcome of the write
/// is deliberately dropped.
#[verifier::external_body]
fn echo_to_stdout(text: &str) {
    let _ = write!(std::io::stdout(), "{}", text);
}

impl Logger {
    /// Whether a message at `level` is retained in the buffer under this
    /// configuration.
    pub open spec fn retains(self, level: u8) -> bool {
        self.print_all_on || level != LOG_LEVEL_VERBOSE
    }

    /// Exactly what one `log` call does: the configuration stays put; a
    /// retained message lands at the end of the buffer with its level and
    /// text, ahead of an untouched history; a discarded one changes nothing.
    /// The timestamp of the new record is whatever the clock gave.
    pub open spec fn log_post(pre: Logger, post: Logger, level: u8, text: Seq<char>) -> bool {
        &&& post.print_all_on == pre.print_all_on
        &&& post.file_path@ == pre.file_path@
        &&& post.print_asap == pre.print_asap
        &&& pre.retains(level) ==> {
            &&& post.messages@.len() == pre.messages@.len() + 1
            &&& post.messages@.drop_last() == pre.messages@
            &&& post.messages@.last().level == level
            &&& post.messages@.last().message@ == text
        }
        &&& !pre.retains(level) ==> post.messages@ == pre.messages@
    }

    /// A logger with everything off: no echo, no destination, verbose
    /// messages discarded, an empty buffer.
    pub fn new() -> (l: Logger)
        ensures
            !l.print_all_on,
            !l.print_asap,
            l.file_path@.len() == 0,
            l.messages@.len() == 0,
    {
        Logger {
            print_all_on: false,
            file_path: String::new(),
            print_asap: false,
            messages: Vec::with_capacity(DEFAULT_LOGGING_SIZE),
        }
    }

    /// Appends `message` at `level`, timestamped with the current moment,
    /// echoing it to standard output first when so configured. A verbose
    /// message is discarded unless every level is recorded.
    pub fn log(&mut self, message: &str, level: u8)
        ensures
            Logger::log_post(*old(self), *final(self), level, message@),
    {
        if self.print_asap {
            echo_to_stdout(message);
        }
        if self.print_all_on || level != LOG_LEVEL_VERBOSE {
            let entry = LogMessage { time: now_rfc3339(), level: level, message: message.to_owned() };
            self.messages.push(entry);
            proof {
                assert(self.messages@.drop_last() =~= old(self).messages@);
            }
        }
    }

    /// Logs `message` at the informational level.
    pub fn log_info(&mut self, message: &str)
        ensures
            Logger::log_post(*old(self), *final(self), LOG_LEVEL_INFO, message@),
    {
        self.log(message, LOG_LEVEL_INFO);
    }

    /// Logs `message` at the error level.
    pub fn log_error(&mut self, message: &str)
        ensures
            Logger::log_post(*old(self), *final(self), LOG_LEVEL_ERROR, message@),
    {
        self.log(message, LOG_LEVEL_ERROR);
    }

    /// Logs `message` at the verbose level; it is retained only when every
    /// level is recorded.
    pub fn log_verbose(&mut self, message: &str)
        ensures
            Logger::log_post(*old(self), *final(self), LOG_LEVEL_VERBOSE, message@),
    {
        self.log(message, LOG_LEVEL_VERBOSE);
    }

    /// Serializes the whole buffered history, in arrival order, into the
    /// flat text the destination file is meant to receive; the caller
    /// performs the write and reports `IoFailure` if it goes wrong. With no
    /// destination configured the call is refused with `MissingDestination`
    /// and nothing else happens; the buffer is never cleared either way.
    pub fn publish(&self) -> (r: Result<String, CoreError>)
        ensures
            self.file_path@.len() == 0 ==> r == Err::<String, CoreError>(
                CoreError::MissingDestination,
            ),
            self.file_path@.len() > 0 ==> (r matches Ok(content) && content@ == render_of(
                self.messages@,
            )),
    {
        if self.file_path.as_str().is_empty() {
            return Err(CoreError::MissingDestination);
        }
        let mut content = String::new();
        let mut i: usize = 0;
        while i < self.messages.len()
            invariant
                i <= self.messages@.len(),
                content@ == render_of(self.messages@.take(i as int)),
            decreases self.messages@.len() - i,
        {
            let m = &self.messages[i];
            content.append(m.time.as_str());
            content.append(" | ");
            content.append(level_label(m.level));
            content.append(" | ");
            content.append(m.message.as_str());
            proof {
                let msgs = self.messages@;
                assert(msgs.take(i + 1).drop_last() =~= msgs.take(i as int));
                assert(msgs.take(i + 1).last() == msgs[i as int]);
                assert(content@ =~= render_of(msgs.take(i as int)) + record_of(msgs[i as int]));
            }
            i = i + 1;
        }
        proof {
            assert(self.messages@.take(self.messages@.len() as int) =~= self.messages@);
        }
        Ok(content)
    }
}

/// Law: the logger preserves call order. Across any run of `log` calls on a
/// logger that records every level, the buffer ends up holding the old
/// history followed by one record per call, in call order, each with the
/// level and the text of its call — and `publish` serializes the buffer in
/// exactly that order, as its own contract states over `render_of`.
pub proof fn lemma_log_run_preserves_order(states: Seq<Logger>, calls: Seq<(u8, Seq<char>)>)
    requires
        states.len() == calls.len() + 1,
        forall|m: int|
            0 <= m < calls.len() ==> Logger::log_post(
                states[m],
                states[m + 1],
                calls[m].0,
                calls[m].1,
            ),
        states[0].print_all_on,
    ensures
        states[calls.len() as int].print_all_on == states[0].print_all_on,
        states[calls.len() as int].messages@.len() == states[0].messages@.len() + calls.len(),
        forall|m: int|
            0 <= m < calls.len() ==> states[calls.len() as int].messages@[states[0].messages@.len()
                + m].level == calls[m].0,
        forall|m: int|
            0 <= m < calls.len() ==> states[calls.len() as int].messages@[states[0].messages@.len()
                + m].message@ == calls[m].1,
    decreases calls.len(),
{
    if calls.len() > 0 {
        let n = calls.len() as int;
        let prefix_states = states.take(n);
        let prefix_calls = calls.take(n - 1);
        assert(forall|m: int|
            0 <= m < prefix_calls.len() ==> Logger::log_post(
                prefix_states[m],
                prefix_states[m + 1],
                prefix_calls[m].0,
                prefix_calls[m].1,
            ));
        lemma_log_run_preserves_order(prefix_states, prefix_calls);
        assert(Logger::log_post(states[n - 1], states[n], calls[n - 1].0, calls[n - 1].1));
        assert(states[n - 1].retains(calls[n - 1].0));
        assert(states[n].messages@.drop_last() == states[n - 1].messages@);
        assert forall|m: int| 0 <= m < n - 1 implies states[n].messages@[states[0].messages@.len()
            + m].level == calls[m].0 && states[n].messages@[states[0].messages@.len() + m].message@
            == calls[m].1 by {
            assert(prefix_states[n - 1] == states[n - 1]);
            assert(prefix_states[0] == states[0]);
            assert(prefix_calls[m] == calls[m]);
            assert(states[n - 1].messages@[states[0].messages@.len() + m].level == calls[m].0);
            assert(states[n - 1].messages@[states[0].messages@.len() + m].message@ == calls[m].1);
            let tail = states[n].messages@;
            assert(tail.drop_last()[states[0].messages@.len() + m] == tail[states[
                0].messages@.len() + m]);
        }
    }
}

/// The serialized name of a level, as `level_name` states it.
fn level_label(level: u8) -> (s: &'static str)
    ensures
        s@ == level_name(level),
{
    if level == LOG_LEVEL_INFO {
        "INFO"
    } else if level == LOG_LEVEL_ERROR {
        "ERROR"
    } else if level == LOG_LEVEL_VERBOSE {
        "VERBOSE"
    } else {
        "UNKNOWN"
    }
}

} // verus!
