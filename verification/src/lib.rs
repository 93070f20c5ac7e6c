//! A minimal leveled logging facility.
//!
//! Messages carry a severity; a `Logger` holds a threshold severity, a
//! pluggable byte sink and a formatting hook, and forwards a message to the
//! sink exactly when the message's severity is at or above the threshold.

pub mod format;
pub mod level;
pub mod logger;
pub mod sink;

pub use format::BracketFormatter;
pub use format::Formatter;
pub use level::LogLevel;
pub use logger::LogResult;
pub use logger::LogWriter;
pub use logger::Logger;
pub use logger::WriteError;
pub use logger::WriteSink;
pub use sink::FailSink;
pub use sink::MemSink;
