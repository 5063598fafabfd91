//! The timestamp that opens a line, rendered from the local clock.

use crate::settings::Timestamp;
use vstd::prelude::*;

verus! {

/// A decimal digit.
pub open spec fn is_digit(c: char) -> bool {
    c == '0' || c == '1' || c == '2' || c == '3' || c == '4' || c == '5' || c == '6' || c == '7'
        || c == '8' || c == '9'
}

/// A run of decimal digits.
pub open spec fn all_digits(s: Seq<char>) -> bool {
    forall|i: int| 0 <= i < s.len() ==> is_digit(#[trigger] s[i])
}

/// A calendar year: four digits, or a sign and at least four digits for a
/// year outside `0000..=9999`.
pub open spec fn is_year(s: Seq<char>) -> bool {
    ||| s.len() == 4 && all_digits(s)
    ||| s.len() >= 5 && (s[0] == '+' || s[0] == '-') && all_digits(s.skip(1))
}

/// A date: the year, the month and the day of the month, the last two of
/// two digits each, joined by hyphens.
pub open spec fn is_date(s: Seq<char>) -> bool {
    let n = s.len() as int;
    &&& n >= 10
    &&& is_year(s.take(n - 6))
    &&& s[n - 6] == '-'
    &&& is_digit(s[n - 5])
    &&& is_digit(s[n - 4])
    &&& s[n - 3] == '-'
    &&& is_digit(s[n - 2])
    &&& is_digit(s[n - 1])
}

/// A time of day: hour, minute and second of two digits each, joined by
/// colons.
pub open spec fn is_time(s: Seq<char>) -> bool {
    &&& s.len() == 8
    &&& is_digit(s[0])
    &&& is_digit(s[1])
    &&& s[2] == ':'
    &&& is_digit(s[3])
    &&& is_digit(s[4])
    &&& s[5] == ':'
    &&& is_digit(s[6])
    &&& is_digit(s[7])
}

/// A date, a space and a time of day.
pub open spec fn is_date_time(s: Seq<char>) -> bool {
    let n = s.len() as int;
    &&& n >= 19
    &&& is_date(s.take(n - 9))
    &&& s[n - 9] == ' '
    &&& is_time(s.skip(n - 8))
}

/// Whether `text` is a timestamp as `selector` asks for it: empty without a
/// selector, else of the selector's shape.
pub open spec fn is_stamp(selector: Option<Timestamp>, text: Seq<char>) -> bool {
    match selector {
        None => text.len() == 0,
        Some(Timestamp::DATE) => is_date(text),
        Some(Timestamp::TIME) => is_time(text),
        Some(Timestamp::FULL) => is_date_time(text),
    }
}

/// Reads the local time with `chrono::Local::now` and renders it with
/// `chrono::DateTime::format`. The three patterns admitted are the ones this
/// library uses; any other could hold a specifier that `chrono` refuses at
/// rendering. The text depends on the clock and the time zone of the machine,
/// so only its shape is stated. `chrono` stops the process if the system
/// clock stands before 1970.
#[verifier::external_body]
fn local_time(pattern: &str) -> (r: String)
    requires
        pattern@ == "%Y-%m-%d"@ || pattern@ == "%H:%M:%S"@ || pattern@ == "%Y-%m-%d %H:%M:%S"@,
    ensures
        pattern@ == "%Y-%m-%d"@ ==> is_date(r@),
        pattern@ == "%H:%M:%S"@ ==> is_time(r@),
        pattern@ == "%Y-%m-%d %H:%M:%S"@ ==> is_date_time(r@),
{
    chrono::Local::now().format(pattern).to_string()
}

impl Timestamp {
    /// The `strftime` pattern of the selector.
    pub open spec fn pattern(self) -> Seq<char> {
        match self {
            Timestamp::DATE => "%Y-%m-%d"@,
            Timestamp::TIME => "%H:%M:%S"@,
            Timestamp::FULL => "%Y-%m-%d %H:%M:%S"@,
        }
    }

    /// The `strftime` pattern of the selector.
    pub fn format_pattern(&self) -> (r: &'static str)
        ensures
            r@ == self.pattern(),
    {
        match self {
            Timestamp::DATE => "%Y-%m-%d",
            Timestamp::TIME => "%H:%M:%S",
            Timestamp::FULL => "%Y-%m-%d %H:%M:%S",
        }
    }

    /// The three patterns differ, so each selects its own shape.
    proof fn lemma_patterns_differ()
        ensures
            Timestamp::DATE.pattern() != Timestamp::TIME.pattern(),
            Timestamp::DATE.pattern() != Timestamp::FULL.pattern(),
            Timestamp::TIME.pattern() != Timestamp::FULL.pattern(),
    {
        reveal_strlit("%Y-%m-%d");
        reveal_strlit("%H:%M:%S");
        reveal_strlit("%Y-%m-%d %H:%M:%S");
        assert("%Y-%m-%d"@[1] == 'Y');
        assert("%H:%M:%S"@[1] == 'H');
        assert("%Y-%m-%d"@.len() == 8);
        assert("%H:%M:%S"@.len() == 8);
        assert("%Y-%m-%d %H:%M:%S"@.len() == 17);
    }

    /// The local time of the call, in the selector's format.
    pub fn now(&self) -> (r: String)
        ensures
            is_stamp(Some(*self), r@),
    {
        proof {
            Timestamp::lemma_patterns_differ();
        }
        local_time(self.format_pattern())
    }
}

/// The timestamp for a line written now: empty without a selector.
pub fn stamp_now(selector: Option<Timestamp>) -> (r: String)
    ensures
        is_stamp(selector, r@),
{
    match selector {
        Some(format) => format.now(),
        None => String::new(),
    }
}

/// No timestamp holds a line break.
pub proof fn lemma_stamp_is_one_line(selector: Option<Timestamp>, text: Seq<char>)
    requires
        is_stamp(selector, text),
    ensures
        !text.contains('\n'),
{
    assert forall|i: int| 0 <= i < text.len() implies text[i] != '\n' by {
        let n = text.len() as int;
        match selector {
            None => {},
            Some(Timestamp::TIME) => {},
            Some(Timestamp::DATE) => {
                lemma_date_char(text, i);
            },
            Some(Timestamp::FULL) => {
                if i < n - 9 {
                    assert(text.take(n - 9)[i] == text[i]);
                    lemma_date_char(text.take(n - 9), i);
                } else if i >= n - 8 {
                    assert(text.skip(n - 8)[i - (n - 8)] == text[i]);
                }
            },
        }
    }
}

/// Every character of a date is a digit, a sign or a hyphen.
proof fn lemma_date_char(date: Seq<char>, i: int)
    requires
        is_date(date),
        0 <= i < date.len(),
    ensures
        is_digit(date[i]) || date[i] == '+' || date[i] == '-',
{
    let n = date.len() as int;
    let year = date.take(n - 6);
    if i < n - 6 {
        assert(year[i] == date[i]);
        if year.len() != 4 || !all_digits(year) {
            if i > 0 {
                assert(year.skip(1)[i - 1] == year[i]);
            }
        }
    }
}

} // verus!
