//! The severity model: a closed, totally ordered set of log levels.

use vstd::prelude::*;
use vstd::std_specs::cmp::PartialOrdSpec;
use vstd::string::StrSliceExecFns;
use vstd::string::StringExecFns;

verus! {

/// A log severity, lowest to highest: `ALL` is a sentinel below every named
/// level, so a threshold of `ALL` makes every message visible.
#[derive(Clone, Copy, Debug, PartialEq, Eq, Structural)]
pub enum LogLevel {
    ALL,
    DEBUG,
    INFO,
    WARNING,
    ERROR,
}

impl LogLevel {
    /// The fixed integer rank of a level; ranks are gap-spaced to allow
    /// future insertion, and ordering by rank matches declaration order.
    pub open spec fn rank(self) -> int {
        match self {
            LogLevel::ALL => 0,
            LogLevel::DEBUG => 10,
            LogLevel::INFO => 20,
            LogLevel::WARNING => 30,
            LogLevel::ERROR => 40,
        }
    }

    /// The rank as a machine integer.
    pub fn rank_value(self) -> (r: u32)
        ensures
            r == self.rank(),
    {
        match self {
            LogLevel::ALL => 0,
            LogLevel::DEBUG => 10,
            LogLevel::INFO => 20,
            LogLevel::WARNING => 30,
            LogLevel::ERROR => 40,
        }
    }

    /// The canonical uppercase name of a level.
    pub open spec fn spec_name(self) -> Seq<char> {
        match self {
            LogLevel::ALL => "ALL"@,
            LogLevel::DEBUG => "DEBUG"@,
            LogLevel::INFO => "INFO"@,
            LogLevel::WARNING => "WARNING"@,
            LogLevel::ERROR => "ERROR"@,
        }
    }

    /// Returns the canonical uppercase name of the level.
    pub fn display(&self) -> (r: String)
        ensures
            r@ == self.spec_name(),
    {
        match self {
            LogLevel::ALL => String::from_str("ALL"),
            LogLevel::DEBUG => String::from_str("DEBUG"),
            LogLevel::INFO => String::from_str("INFO"),
            LogLevel::WARNING => String::from_str("WARNING"),
            LogLevel::ERROR => String::from_str("ERROR"),
        }
    }

    /// Reconstructs a level from text: the input is matched, as if
    /// Unicode-uppercased, against the stored uppercase patterns (see
    /// [`char_matches_upper`]); any input that matches no pattern yields
    /// `LogLevel::ALL` rather than an error.
    ///
    /// The pattern meant to recognise `INFO` is the literal `"ONFO"`, so the
    /// spelling `"info"` (in any case) falls through to `ALL`. The misspelt
    /// pattern is kept deliberately: downstream behaviour depends on `"info"`
    /// mapping to `ALL`, and the intended spelling is recorded nowhere.
    pub fn from_string(s: &str) -> (r: LogLevel)
        ensures
            r == spec_from_string(s@),
    {
        if str_matches_upper(s, "DEBUG") {
            LogLevel::DEBUG
        } else if str_matches_upper(s, "ONFO") {
            LogLevel::INFO
        } else if str_matches_upper(s, "WARNING") {
            LogLevel::WARNING
        } else if str_matches_upper(s, "ERROR") {
            LogLevel::ERROR
        } else {
            LogLevel::ALL
        }
    }
}

impl PartialOrd for LogLevel {
    fn partial_cmp(&self, other: &Self) -> (r: Option<core::cmp::Ordering>) {
        let a = self.rank_value();
        let b = other.rank_value();
        if a < b {
            Some(core::cmp::Ordering::Less)
        } else if a == b {
            Some(core::cmp::Ordering::Equal)
        } else {
            Some(core::cmp::Ordering::Greater)
        }
    }
}

impl vstd::std_specs::cmp::PartialOrdSpecImpl for LogLevel {
    open spec fn obeys_partial_cmp_spec() -> bool {
        true
    }

    open spec fn partial_cmp_spec(&self, other: &Self) -> Option<core::cmp::Ordering> {
        if self.rank() < other.rank() {
            Some(core::cmp::Ordering::Less)
        } else if self.rank() == other.rank() {
            Some(core::cmp::Ordering::Equal)
        } else {
            Some(core::cmp::Ordering::Greater)
        }
    }
}

/// Comparing levels is a total order consistent with the fixed rank
/// sequence: `ALL < DEBUG < INFO < WARNING < ERROR`. Every pair compares,
/// two levels compare equal exactly when they are the same level, the order
/// agrees with the ranks, and it is transitive.
pub proof fn lemma_compare_total_order(a: LogLevel, b: LogLevel, c: LogLevel)
    ensures
        a.partial_cmp_spec(&b) is Some,
        a.partial_cmp_spec(&b) == Some(core::cmp::Ordering::Equal) <==> a == b,
        a.partial_cmp_spec(&b) == Some(core::cmp::Ordering::Less) <==> a.rank() < b.rank(),
        a.partial_cmp_spec(&b) == Some(core::cmp::Ordering::Greater) <==> b.rank() < a.rank(),
        a.partial_cmp_spec(&b) == Some(core::cmp::Ordering::Less) && b.partial_cmp_spec(&c)
            == Some(core::cmp::Ordering::Less) ==> a.partial_cmp_spec(&c) == Some(
            core::cmp::Ordering::Less,
        ),
        LogLevel::ALL.rank() < LogLevel::DEBUG.rank() < LogLevel::INFO.rank()
            < LogLevel::WARNING.rank() < LogLevel::ERROR.rank(),
{
}

/// For every level but `INFO`, reconstructing a level from its canonical
/// name gives the level back. `INFO` is the one exception: its misspelt
/// pattern never matches its name, so `"INFO"` reconstructs to `ALL`.
pub proof fn lemma_from_string_display_round_trip(level: LogLevel)
    requires
        level != LogLevel::INFO,
    ensures
        spec_from_string(level.spec_name()) == level,
{
    reveal_strlit("ALL");
    reveal_strlit("DEBUG");
    reveal_strlit("ONFO");
    reveal_strlit("WARNING");
    reveal_strlit("ERROR");
    match level {
        LogLevel::ALL => {
            assert(!seq_matches_upper("ALL"@, "DEBUG"@));
            assert(!seq_matches_upper("ALL"@, "ONFO"@));
            assert(!seq_matches_upper("ALL"@, "WARNING"@));
            assert(!seq_matches_upper("ALL"@, "ERROR"@));
        },
        LogLevel::DEBUG => {
            assert(seq_matches_upper("DEBUG"@, "DEBUG"@));
        },
        LogLevel::INFO => {
        },
        LogLevel::WARNING => {
            assert(!seq_matches_upper("WARNING"@, "DEBUG"@));
            assert(!seq_matches_upper("WARNING"@, "ONFO"@));
            assert(seq_matches_upper("WARNING"@, "WARNING"@));
        },
        LogLevel::ERROR => {
            assert(!char_matches_upper("ERROR"@[0], "DEBUG"@[0]));
            assert(!seq_matches_upper("ERROR"@, "DEBUG"@));
            assert(!seq_matches_upper("ERROR"@, "ONFO"@));
            assert(!seq_matches_upper("ERROR"@, "WARNING"@));
            assert(seq_matches_upper("ERROR"@, "ERROR"@));
        },
    }
}

/// `c` matches the pattern character `d` (an ASCII capital) exactly when
/// Unicode-uppercasing `c` yields `d`: `c` is `d` itself, the ASCII
/// lowercase form of `d`, or dotless i (U+0131) where `d` is `I`.
///
/// Character by character, this is "uppercase the input, then compare" for
/// the four stored patterns: dotless i (to `I`) and long s (U+017F, to `S`)
/// are the only characters outside ASCII whose uppercase form is a single
/// ASCII letter, no pattern contains an `S`, and none of the
/// multi-character uppercase expansions (`SS`, `FF`, `FI`, `FL`, `FFI`,
/// `FFL`, `ST`, apostrophe-`N`) occurs inside any pattern, so an input
/// holding such a character matches no pattern under either reading.
pub open spec fn char_matches_upper(c: char, d: char) -> bool {
    c == d || ('a' <= c && c <= 'z' && c as u32 == d as u32 + 32) || (c == '\u{131}' && d == 'I')
}

/// Uppercasing `s` yields the uppercase pattern `t`, character by
/// character.
pub open spec fn seq_matches_upper(s: Seq<char>, t: Seq<char>) -> bool {
    s.len() == t.len() && (forall|i: int|
        0 <= i < s.len() ==> char_matches_upper(s[i], #[trigger] t[i]))
}

/// The level that a piece of text reconstructs to: the first of the four
/// stored patterns that uppercasing the text yields, or `ALL` if none.
pub open spec fn spec_from_string(s: Seq<char>) -> LogLevel {
    if seq_matches_upper(s, "DEBUG"@) {
        LogLevel::DEBUG
    } else if seq_matches_upper(s, "ONFO"@) {
        LogLevel::INFO
    } else if seq_matches_upper(s, "WARNING"@) {
        LogLevel::WARNING
    } else if seq_matches_upper(s, "ERROR"@) {
        LogLevel::ERROR
    } else {
        LogLevel::ALL
    }
}

/// Compares the uppercased form of `s` against the uppercase pattern `t`,
/// character by character.
fn str_matches_upper(s: &str, t: &str) -> (b: bool)
    ensures
        b == seq_matches_upper(s@, t@),
{
    let n = s.unicode_len();
    if n != t.unicode_len() {
        return false;
    }
    let mut i: usize = 0;
    while i < n
        invariant
            n == s@.len(),
            s@.len() == t@.len(),
            i <= n,
            forall|j: int| 0 <= j < i ==> char_matches_upper(s@[j], #[trigger] t@[j]),
        decreases n - i,
    {
        let c = s.get_char(i);
        let d = t.get_char(i);
        if !(c == d || ('a' <= c && c <= 'z' && (c as u32) == (d as u32) + 32) || (c == '\u{131}'
            && d == 'I')) {
            assert(!char_matches_upper(s@[i as int], t@[i as int]));
            return false;
        }
        i += 1;
    }
    true
}

} // verus!
