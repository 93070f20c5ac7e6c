//! The logger: gates a message on its severity and forwards the formatted
//! bytes to a pluggable destination.

use vstd::prelude::*;
use vstd::utf8::encode_utf8;

use crate::format::Formatter;
use crate::level::LogLevel;

verus! {

/// The single error kind of the library: the destination refused a write.
#[derive(Clone, Copy, Debug, PartialEq, Eq, Structural)]
pub struct WriteError;

/// An abstract write destination: accepts a byte buffer in one call and
/// reports failure. The logger depends only on this capability, never on a
/// concrete destination type.
pub trait WriteSink {
    /// The bytes the destination has accepted so far.
    spec fn contents(&self) -> Seq<u8>;

    /// Whether this destination never refuses a write.
    spec fn infallible(&self) -> bool;

    /// Accepts the whole buffer, or fails without accepting any of it; an
    /// infallible destination always accepts, and stays infallible.
    fn write_all(&mut self, buf: &[u8]) -> (r: Result<(), WriteError>)
        ensures
            r is Ok ==> final(self).contents() == old(self).contents() + buf@,
            r is Err ==> final(self).contents() == old(self).contents(),
            old(self).infallible() ==> r is Ok,
            final(self).infallible() == old(self).infallible(),
    ;
}

/// The result of one logging call.
pub type LogResult = Result<(), WriteError>;

/// The capability set of a logger: one method per named severity. Each
/// method accepts a message and reports the outcome, so alternative
/// logger implementations can stand in for [`Logger`].
pub trait LogWriter<T> {
    fn info(&mut self, message: &str) -> T;

    fn warning(&mut self, message: &str) -> T;

    fn debug(&mut self, message: &str) -> T;

    fn error(&mut self, message: &str) -> T;
}

/// A leveled logger: a threshold severity, an owned destination and a
/// formatting hook. All three fields are plain data, mutable by the owner.
pub struct Logger<S: WriteSink, F: Formatter> {
    pub out: S,
    pub level: LogLevel,
    pub formatter: F,
}

impl<S: WriteSink, F: Formatter> Logger<S, F> {
    /// Emits a message at the given severity: exactly when the severity is
    /// at or above the threshold, the formatted bytes are handed to the
    /// destination in one call and its outcome is returned; otherwise
    /// nothing is written and the call succeeds. The threshold and the
    /// formatter are never changed.
    pub fn log(&mut self, message: &str, level: LogLevel) -> (r: Result<(), WriteError>)
        ensures
            old(self).level.rank() > level.rank() ==> r is Ok
                && final(self).out.contents() == old(self).out.contents(),
            old(self).level.rank() <= level.rank() && r is Ok ==> final(self).out.contents()
                == old(self).out.contents() + encode_utf8(
                old(self).formatter.spec_format(message@, level),
            ),
            r is Err ==> final(self).out.contents() == old(self).out.contents(),
            old(self).out.infallible() ==> r is Ok,
            final(self).out.infallible() == old(self).out.infallible(),
            final(self).level == old(self).level,
            final(self).formatter == old(self).formatter,
    {
        if self.level.rank_value() <= level.rank_value() {
            let text = self.formatter.format(message, level);
            let bytes: &[u8] = text.as_str().as_bytes();
            self.out.write_all(bytes)
        } else {
            Ok(())
        }
    }
}

impl<S: WriteSink, F: Formatter> LogWriter<LogResult> for Logger<S, F> {
    /// Emits the message at severity `DEBUG`.
    fn debug(&mut self, message: &str) -> (r: LogResult)
        ensures
            old(self).level.rank() > LogLevel::DEBUG.rank() ==> r is Ok
                && final(self).out.contents() == old(self).out.contents(),
            old(self).level.rank() <= LogLevel::DEBUG.rank() && r is Ok ==> final(self).out.contents() == old(self).out.contents() + encode_utf8(
                old(self).formatter.spec_format(message@, LogLevel::DEBUG),
            ),
            r is Err ==> final(self).out.contents() == old(self).out.contents(),
            old(self).out.infallible() ==> r is Ok,
            final(self).out.infallible() == old(self).out.infallible(),
            final(self).level == old(self).level,
            final(self).formatter == old(self).formatter,
    {
        self.log(message, LogLevel::DEBUG)
    }

    /// Emits the message at severity `INFO`.
    fn info(&mut self, message: &str) -> (r: LogResult)
        ensures
            old(self).level.rank() > LogLevel::INFO.rank() ==> r is Ok
                && final(self).out.contents() == old(self).out.contents(),
            old(self).level.rank() <= LogLevel::INFO.rank() && r is Ok ==> final(self).out.contents() == old(self).out.contents() + encode_utf8(
                old(self).formatter.spec_format(message@, LogLevel::INFO),
            ),
            r is Err ==> final(self).out.contents() == old(self).out.contents(),
            old(self).out.infallible() ==> r is Ok,
            final(self).out.infallible() == old(self).out.infallible(),
            final(self).level == old(self).level,
            final(self).formatter == old(self).formatter,
    {
        self.log(message, LogLevel::INFO)
    }

    /// Emits the message at severity `WARNING`.
    fn warning(&mut self, message: &str) -> (r: LogResult)
        ensures
            old(self).level.rank() > LogLevel::WARNING.rank() ==> r is Ok
                && final(self).out.contents() == old(self).out.contents(),
            old(self).level.rank() <= LogLevel::WARNING.rank() && r is Ok ==> final(self).out.contents() == old(self).out.contents() + encode_utf8(
                old(self).formatter.spec_format(message@, LogLevel::WARNING),
            ),
            r is Err ==> final(self).out.contents() == old(self).out.contents(),
            old(self).out.infallible() ==> r is Ok,
            final(self).out.infallible() == old(self).out.infallible(),
            final(self).level == old(self).level,
            final(self).formatter == old(self).formatter,
    {
        self.log(message, LogLevel::WARNING)
    }

    /// Emits the message at severity `ERROR`.
    fn error(&mut self, message: &str) -> (r: LogResult)
        ensures
            old(self).level.rank() > LogLevel::ERROR.rank() ==> r is Ok
                && final(self).out.contents() == old(self).out.contents(),
            old(self).level.rank() <= LogLevel::ERROR.rank() && r is Ok ==> final(self).out.contents() == old(self).out.contents() + encode_utf8(
                old(self).formatter.spec_format(message@, LogLevel::ERROR),
            ),
            r is Err ==> final(self).out.contents() == old(self).out.contents(),
            old(self).out.infallible() ==> r is Ok,
            final(self).out.infallible() == old(self).out.infallible(),
            final(self).level == old(self).level,
            final(self).formatter == old(self).formatter,
    {
        self.log(message, LogLevel::ERROR)
    }
}

} // verus!
