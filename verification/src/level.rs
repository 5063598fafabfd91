//! Severity levels, their order and their two renderings.

use colored::Colorize;
use std::cmp::Ordering;
use vstd::prelude::*;

verus! {

/// Severity of a log entry, in ascending order `INFO < WARN < ERROR`.
#[derive(Clone, Copy, Debug, PartialEq, Eq, Hash, Ord, Structural)]
pub enum LogLevel {
    /// Informational messages.
    INFO,
    /// Warning messages.
    WARN,
    /// Error messages.
    ERROR,
}

/// The escape character that opens every terminal control sequence.
pub open spec fn escape() -> char {
    '\x1b'
}

/// The control sequence that selects the foreground colour `code`.
pub open spec fn style_sequence(code: Seq<char>) -> Seq<char> {
    "\x1b["@ + code + "m"@
}

/// The control sequence that returns the terminal to its default style.
pub open spec fn reset_sequence() -> Seq<char> {
    "\x1b[0m"@
}

/// `text` wrapped in the colour `code`.
pub open spec fn painted(code: Seq<char>, text: Seq<char>) -> Seq<char> {
    style_sequence(code) + text + reset_sequence()
}

/// Whether `out` is one of the forms in which `text` in colour `code` may
/// reach a terminal: undecorated when colouring is off, wrapped in the colour
/// when it is on, and followed by a bare reset when colouring is switched off
/// while the text is being rendered.
pub open spec fn is_painting(out: Seq<char>, code: Seq<char>, text: Seq<char>) -> bool {
    out == text || out == painted(code, text) || out == text + reset_sequence()
}

/// Renders `text` in green with `colored::Colorize::green` and the `Display`
/// impl of `colored::ColoredString`. Whether colour is applied is decided by
/// the process environment, so the contract lists the possible outcomes
/// instead of choosing one. Text that already holds an escape character is
/// rewritten by the crate and nothing is claimed of it.
#[verifier::external_body]
fn green(text: &str) -> (r: String)
    ensures
        !text@.contains(escape()) ==> is_painting(r@, "32"@, text@),
{
    text.green().to_string()
}

/// Renders `text` in yellow with `colored::Colorize::yellow`; see [`green`].
#[verifier::external_body]
fn yellow(text: &str) -> (r: String)
    ensures
        !text@.contains(escape()) ==> is_painting(r@, "33"@, text@),
{
    text.yellow().to_string()
}

/// Renders `text` in red with `colored::Colorize::red`; see [`green`].
#[verifier::external_body]
fn red(text: &str) -> (r: String)
    ensures
        !text@.contains(escape()) ==> is_painting(r@, "31"@, text@),
{
    text.red().to_string()
}

/// Whether two strings hold the same text.
pub(crate) fn same_text(a: &str, b: &str) -> (r: bool)
    ensures
        r == (a@ == b@),
{
    a.to_owned() == b.to_owned()
}

impl LogLevel {
    /// Position of the level in the severity order.
    pub open spec fn rank(self) -> nat {
        match self {
            LogLevel::INFO => 0,
            LogLevel::WARN => 1,
            LogLevel::ERROR => 2,
        }
    }

    /// The undecorated tag, as written to a file.
    pub open spec fn plain_tag(self) -> Seq<char> {
        match self {
            LogLevel::INFO => "INFO"@,
            LogLevel::WARN => "WARN"@,
            LogLevel::ERROR => "ERROR"@,
        }
    }

    /// The terminal colour code of the level: green, yellow, red.
    pub open spec fn colour_code(self) -> Seq<char> {
        match self {
            LogLevel::INFO => "32"@,
            LogLevel::WARN => "33"@,
            LogLevel::ERROR => "31"@,
        }
    }

    /// Whether `tag` is a console rendering of the level.
    pub open spec fn is_rendering(self, tag: Seq<char>) -> bool {
        is_painting(tag, self.colour_code(), self.plain_tag())
    }

    /// The level that `name` spells, if any.
    pub open spec fn named(name: Seq<char>) -> Option<LogLevel> {
        if name == "INFO"@ {
            Some(LogLevel::INFO)
        } else if name == "WARN"@ {
            Some(LogLevel::WARN)
        } else if name == "ERROR"@ {
            Some(LogLevel::ERROR)
        } else {
            None
        }
    }

    /// Reads a level from its name: `INFO`, `WARN` or `ERROR`.
    pub fn from_name(name: &str) -> (r: Option<LogLevel>)
        ensures
            r == LogLevel::named(name@),
    {
        if same_text(name, "INFO") {
            Some(LogLevel::INFO)
        } else if same_text(name, "WARN") {
            Some(LogLevel::WARN)
        } else if same_text(name, "ERROR") {
            Some(LogLevel::ERROR)
        } else {
            None
        }
    }

    /// How `self` stands to `other` in the severity order.
    pub open spec fn ordering(self, other: LogLevel) -> Ordering {
        if self.rank() < other.rank() {
            Ordering::Less
        } else if self.rank() == other.rank() {
            Ordering::Equal
        } else {
            Ordering::Greater
        }
    }

    /// Compares two levels by severity.
    pub fn compare(&self, other: &LogLevel) -> (r: Ordering)
        ensures
            r == self.ordering(*other),
    {
        match (self, other) {
            (LogLevel::INFO, LogLevel::INFO) => Ordering::Equal,
            (LogLevel::INFO, _) => Ordering::Less,
            (LogLevel::WARN, LogLevel::INFO) => Ordering::Greater,
            (LogLevel::WARN, LogLevel::WARN) => Ordering::Equal,
            (LogLevel::WARN, LogLevel::ERROR) => Ordering::Less,
            (LogLevel::ERROR, LogLevel::ERROR) => Ordering::Equal,
            (LogLevel::ERROR, _) => Ordering::Greater,
        }
    }

    /// Whether an entry at `self` passes a logger whose minimum is `minimum`.
    pub fn passes(&self, minimum: &LogLevel) -> (r: bool)
        ensures
            r == (self.rank() >= minimum.rank()),
    {
        match self.compare(minimum) {
            Ordering::Less => false,
            Ordering::Equal => true,
            Ordering::Greater => true,
        }
    }

    /// The undecorated tag of the level.
    pub fn as_str(&self) -> (r: &'static str)
        ensures
            r@ == self.plain_tag(),
    {
        match self {
            LogLevel::INFO => "INFO",
            LogLevel::WARN => "WARN",
            LogLevel::ERROR => "ERROR",
        }
    }

    /// The undecorated tag of the level, owned; stands in for `Display`.
    pub fn to_string(&self) -> (r: String)
        ensures
            r@ == self.plain_tag(),
    {
        self.as_str().to_owned()
    }

    /// The tag as shown on an interactive console: in the level's colour
    /// where the environment allows colour, undecorated where it does not.
    pub fn to_colored_string(&self) -> (r: String)
        ensures
            self.is_rendering(r@),
    {
        let tag = self.as_str();
        proof {
            self.lemma_plain_tag_has_no_escape();
        }
        match self {
            LogLevel::INFO => green(tag),
            LogLevel::WARN => yellow(tag),
            LogLevel::ERROR => red(tag),
        }
    }

    /// The severity order is total: two levels of one rank are one level,
    /// any two levels are comparable with opposite outcomes in the two
    /// directions, and the order is transitive.
    pub proof fn law_order_is_total(a: LogLevel, b: LogLevel, c: LogLevel)
        ensures
            a.ordering(b) == Ordering::Equal <==> a == b,
            a.ordering(b) == Ordering::Less <==> b.ordering(a) == Ordering::Greater,
            a.ordering(b) == Ordering::Less && b.ordering(c) == Ordering::Less ==> a.ordering(c)
                == Ordering::Less,
            LogLevel::INFO.ordering(LogLevel::WARN) == Ordering::Less,
            LogLevel::WARN.ordering(LogLevel::ERROR) == Ordering::Less,
    {
    }

    /// Every level reads back from its own tag, so the three tags differ.
    pub proof fn law_tag_names_its_level(self)
        ensures
            LogLevel::named(self.plain_tag()) == Some(self),
    {
        reveal_strlit("INFO");
        reveal_strlit("WARN");
        reveal_strlit("ERROR");
        assert("INFO"@[0] == 'I' && "WARN"@[0] == 'W' && "ERROR"@[0] == 'E');
    }

    /// No plain tag holds a line break.
    pub proof fn lemma_plain_tag_is_one_line(self)
        ensures
            !self.plain_tag().contains('\n'),
    {
        reveal_strlit("INFO");
        reveal_strlit("WARN");
        reveal_strlit("ERROR");
    }

    /// No plain tag holds an escape character.
    pub proof fn lemma_plain_tag_has_no_escape(self)
        ensures
            !self.plain_tag().contains(escape()),
    {
        reveal_strlit("INFO");
        reveal_strlit("WARN");
        reveal_strlit("ERROR");
    }
}

impl PartialOrd for LogLevel {
    fn partial_cmp(&self, other: &LogLevel) -> (r: Option<Ordering>) {
        Some(self.compare(other))
    }
}

impl vstd::std_specs::cmp::PartialOrdSpecImpl for LogLevel {
    open spec fn obeys_partial_cmp_spec() -> bool {
        true
    }

    open spec fn partial_cmp_spec(&self, other: &LogLevel) -> Option<Ordering> {
        Some(self.ordering(*other))
    }
}

} // verus!
