//! Small value types shared by the diagnostics front end: a calendar
//! timestamp and the severity levels of a log line.

use vstd::prelude::*;
use vstd::string::*;
use crate::utils::{decimal_string, decimal_text, push_char};

verus! {

/// A local calendar timestamp, one plain field per component.
#[derive(Clone, Copy, Debug)]
pub struct DateTime {
    pub year: u16,
    pub month: u8,
    pub day: u8,
    pub hour: u8,
    pub minute: u8,
    pub second: u8,
}

/// A number in decimal, with a leading zero where it has one digit only.
pub open spec fn two_digits(n: nat) -> Seq<char> {
    if n < 10 {
        seq!['0'] + decimal_text(n)
    } else {
        decimal_text(n)
    }
}

fn two_digit_string(n: u8) -> (text: String)
    ensures
        text@ == two_digits(n as nat),
{
    let mut text = String::new();
    if n < 10 {
        push_char(&mut text, '0');
    }
    text.append(decimal_string(n as usize).as_str());
    proof {
        if n >= 10 {
            assert(text@ == Seq::<char>::empty() + decimal_text(n as nat));
        }
    }
    text
}

impl DateTime {
    /// The timestamp as `year-month-day hour:minute:second`, every part
    /// but the year with two digits at least.
    pub open spec fn text(self) -> Seq<char> {
        decimal_text(self.year as nat) + seq!['-'] + two_digits(self.month as nat) + seq!['-']
            + two_digits(self.day as nat) + seq![' '] + two_digits(self.hour as nat) + seq![':']
            + two_digits(self.minute as nat) + seq![':'] + two_digits(self.second as nat)
    }

    /// Writes the timestamp.
    pub fn to_text(&self) -> (text: String)
        ensures
            text@ == self.text(),
    {
        let mut text = decimal_string(self.year as usize);
        push_char(&mut text, '-');
        text.append(two_digit_string(self.month).as_str());
        push_char(&mut text, '-');
        text.append(two_digit_string(self.day).as_str());
        push_char(&mut text, ' ');
        text.append(two_digit_string(self.hour).as_str());
        push_char(&mut text, ':');
        text.append(two_digit_string(self.minute).as_str());
        push_char(&mut text, ':');
        text.append(two_digit_string(self.second).as_str());
        text
    }
}

/// The timestamp used on hosts without a clock source: every field is zero.
pub fn get_local_datetime() -> (now: DateTime)
    ensures
        now.year == 0,
        now.month == 0,
        now.day == 0,
        now.hour == 0,
        now.minute == 0,
        now.second == 0,
{
    DateTime { year: 0, month: 0, day: 0, hour: 0, minute: 0, second: 0 }
}

/// Severity of a log line, most severe first.
#[derive(Clone, Copy, Debug, PartialEq, Eq, Structural)]
pub enum Level {
    Severe,
    Error,
    Warning,
    Info,
    Verbose,
    Debug,
}

impl Level {
    /// Position of the level in the severity order; `Severe` is 0.
    pub open spec fn rank(self) -> nat {
        match self {
            Level::Severe => 0,
            Level::Error => 1,
            Level::Warning => 2,
            Level::Info => 3,
            Level::Verbose => 4,
            Level::Debug => 5,
        }
    }

    /// The capitalised name of the level.
    pub open spec fn name(self) -> Seq<char> {
        match self {
            Level::Severe => "Severe"@,
            Level::Error => "Error"@,
            Level::Warning => "Warning"@,
            Level::Info => "Info"@,
            Level::Verbose => "Verbose"@,
            Level::Debug => "Debug"@,
        }
    }

    /// The upper-case name of the level.
    pub open spec fn upper_name(self) -> Seq<char> {
        match self {
            Level::Severe => "SEVERE"@,
            Level::Error => "ERROR"@,
            Level::Warning => "WARNING"@,
            Level::Info => "INFO"@,
            Level::Verbose => "VERBOSE"@,
            Level::Debug => "DEBUG"@,
        }
    }

    /// The ANSI escape sequence that selects the level's colours.
    pub open spec fn ansi_color(self) -> Seq<char> {
        match self {
            Level::Severe => "\x1B[97;41m"@,
            Level::Error => "\x1B[31;49m"@,
            Level::Warning => "\x1B[33;49m"@,
            Level::Info => "\x1B[37;49m"@,
            Level::Verbose => "\x1B[90;49m"@,
            Level::Debug => "\x1B[34;49m"@,
        }
    }

    pub fn as_str(self) -> (s: &'static str)
        ensures
            s@ == self.name(),
    {
        match self {
            Level::Severe => "Severe",
            Level::Error => "Error",
            Level::Warning => "Warning",
            Level::Info => "Info",
            Level::Verbose => "Verbose",
            Level::Debug => "Debug",
        }
    }

    pub fn as_upper_str(self) -> (s: &'static str)
        ensures
            s@ == self.upper_name(),
    {
        match self {
            Level::Severe => "SEVERE",
            Level::Error => "ERROR",
            Level::Warning => "WARNING",
            Level::Info => "INFO",
            Level::Verbose => "VERBOSE",
            Level::Debug => "DEBUG",
        }
    }

    pub fn to_ansi_color(self) -> (s: &'static str)
        ensures
            s@ == self.ansi_color(),
    {
        match self {
            Level::Severe => "\x1B[97;41m",
            Level::Error => "\x1B[31;49m",
            Level::Warning => "\x1B[33;49m",
            Level::Info => "\x1B[37;49m",
            Level::Verbose => "\x1B[90;49m",
            Level::Debug => "\x1B[34;49m",
        }
    }

    /// Severe and error lines go to the error stream, whatever the
    /// configured verbosity.
    pub fn should_write_to_stderr(self) -> (b: bool)
        ensures
            b == (self.rank() <= 1),
    {
        match self {
            Level::Severe => true,
            Level::Error => true,
            _ => false,
        }
    }
}

/// Where a line goes on the console.
#[derive(Clone, Copy, Debug, PartialEq, Eq, Structural)]
pub enum Console {
    Stdout,
    Stderr,
    Silent,
}

impl Level {
    /// The upper-case name, filled with blanks to the width of the longest.
    pub open spec fn padded_upper_name(self) -> Seq<char> {
        match self {
            Level::Severe => "SEVERE "@,
            Level::Error => "ERROR  "@,
            Level::Warning => "WARNING"@,
            Level::Info => "INFO   "@,
            Level::Verbose => "VERBOSE"@,
            Level::Debug => "DEBUG  "@,
        }
    }

    /// The most verbose level that a logger can be limited to: a logger
    /// never drops errors, so a limit of `Severe` counts as `Error`.
    pub open spec fn limit(self) -> Level {
        if self == Level::Severe {
            Level::Error
        } else {
            self
        }
    }

    /// Whether a line of this level is written by a logger limited to
    /// `max_level`: severe and error lines always are, other lines when
    /// they are not more verbose than the limit.
    pub open spec fn passes(self, max_level: Level) -> bool {
        self.rank() <= 1 || self.rank() <= max_level.rank()
    }

    fn rank_of(self) -> (r: u8)
        ensures
            r == self.rank(),
    {
        match self {
            Level::Severe => 0,
            Level::Error => 1,
            Level::Warning => 2,
            Level::Info => 3,
            Level::Verbose => 4,
            Level::Debug => 5,
        }
    }

    pub fn as_padded_upper_str(self) -> (s: &'static str)
        ensures
            s@ == self.padded_upper_name(),
    {
        match self {
            Level::Severe => "SEVERE ",
            Level::Error => "ERROR  ",
            Level::Warning => "WARNING",
            Level::Info => "INFO   ",
            Level::Verbose => "VERBOSE",
            Level::Debug => "DEBUG  ",
        }
    }

    /// The limit that a logger configured with this level works with.
    pub fn effective_limit(self) -> (level: Level)
        ensures
            level == self.limit(),
    {
        match self {
            Level::Severe => Level::Error,
            other => other,
        }
    }

    /// Whether a logger limited to `max_level` writes a line of this level.
    pub fn should_log(self, max_level: Level) -> (b: bool)
        ensures
            b == self.passes(max_level),
    {
        self.should_write_to_stderr() || self.rank_of() <= max_level.rank_of()
    }

    /// What stands before the text of a line: the timestamp and the level,
    /// each in brackets, and a blank.
    pub open spec fn prefix(self, now: DateTime) -> Seq<char> {
        seq!['['] + now.text() + seq![']', '['] + self.padded_upper_name() + seq![']', ' ']
    }

    /// Writes what stands before the text of a line.
    pub fn line_prefix(self, now: &DateTime) -> (text: String)
        ensures
            text@ == self.prefix(*now),
    {
        let mut text = String::new();
        push_char(&mut text, '[');
        text.append(now.to_text().as_str());
        push_char(&mut text, ']');
        push_char(&mut text, '[');
        text.append(self.as_padded_upper_str());
        push_char(&mut text, ']');
        push_char(&mut text, ' ');
        assert(text@ =~= self.prefix(*now));
        text
    }
}

/// Where on the console a line goes: to standard output where the logger
/// has it, else to standard error if the line is meant for it, else
/// nowhere.
pub fn console_for(has_stdout: bool, to_stderr: bool) -> (target: Console)
    ensures
        target == if has_stdout {
            Console::Stdout
        } else if to_stderr {
            Console::Stderr
        } else {
            Console::Silent
        },
{
    if has_stdout {
        Console::Stdout
    } else if to_stderr {
        Console::Stderr
    } else {
        Console::Silent
    }
}

/// The padded name is the upper-case name followed by blanks only, and is
/// seven characters wide for every level.
pub proof fn lemma_padded_upper_name(level: Level)
    ensures
        level.padded_upper_name().len() == 7,
        level.upper_name().len() <= 7,
        level.padded_upper_name().take(level.upper_name().len() as int) == level.upper_name(),
        forall|i: int|
            level.upper_name().len() <= i < 7 ==> level.padded_upper_name()[i] == ' ',
{
    reveal_strlit("SEVERE ");
    reveal_strlit("ERROR  ");
    reveal_strlit("WARNING");
    reveal_strlit("INFO   ");
    reveal_strlit("VERBOSE");
    reveal_strlit("DEBUG  ");
    reveal_strlit("SEVERE");
    reveal_strlit("ERROR");
    reveal_strlit("INFO");
    reveal_strlit("DEBUG");
    assert(level.padded_upper_name().take(level.upper_name().len() as int) =~= level.upper_name());
}

/// A limit never drops what goes to the error stream, and a line passes a
/// wider limit if it passes a narrower one.
pub proof fn lemma_passes(level: Level, narrow: Level, wide: Level)
    requires
        narrow.rank() <= wide.rank(),
    ensures
        level.rank() <= 1 ==> level.passes(narrow),
        level.passes(narrow) ==> level.passes(wide),
        level.passes(narrow.limit()) == level.passes(narrow),
{
}


} // verus!
