//! The formatting hook: a callable capability turning a message and its
//! severity into the exact output text.

use vstd::prelude::*;
use vstd::string::StringExecFns;

use crate::level::LogLevel;

verus! {

/// A formatting hook supplied by the caller: a pure function from a message
/// and its severity to the output text. The logger imposes no format of its
/// own; the hook decides padding, tags and line endings.
pub trait Formatter {
    /// The text the hook produces for a message at a severity.
    spec fn spec_format(&self, message: Seq<char>, level: LogLevel) -> Seq<char>;

    /// Produces the output text for the message at the given severity.
    fn format(&self, message: &str, level: LogLevel) -> (r: String)
        ensures
            r@ == self.spec_format(message@, level),
    ;
}

/// A plain formatter: the level's bracketed uppercase name, a space, the
/// message, and a trailing newline.
pub struct BracketFormatter;

impl Formatter for BracketFormatter {
    open spec fn spec_format(&self, message: Seq<char>, level: LogLevel) -> Seq<char> {
        "["@ + level.spec_name() + "] "@ + message + "\n"@
    }

    fn format(&self, message: &str, level: LogLevel) -> (r: String) {
        let mut s = String::from_str("[");
        let name = level.display();
        s.append(name.as_str());
        s.append("] ");
        s.append(message);
        s.append("\n");
        s
    }
}

} // verus!
