//! The text that one log record becomes.
use vstd::prelude::*;

use crate::text::{decimal, push_decimal};

verus! {

/// The severity of a record, from the most to the least severe.
#[derive(Clone, Copy, Debug, PartialEq, Eq, Structural)]
pub enum Level {
    Error,
    Warn,
    Info,
    Debug,
    Trace,
}

/// The name of a level as the record format writes it, before padding.
pub open spec fn level_name(level: Level) -> Seq<char> {
    match level {
        Level::Error => seq!['E', 'R', 'R', 'O', 'R'],
        Level::Warn => seq!['W', 'A', 'R', 'N'],
        Level::Info => seq!['I', 'N', 'F', 'O'],
        Level::Debug => seq!['D', 'E', 'B', 'U', 'G'],
        Level::Trace => seq!['T', 'R', 'A', 'C', 'E'],
    }
}

/// The width that the level column takes in every line.
pub const LEVEL_WIDTH: usize = 5;

/// `s` followed by spaces up to `width` characters; `s` itself when it is
/// that long already.
pub open spec fn pad_right(s: Seq<char>, width: nat) -> Seq<char> {
    if s.len() >= width {
        s
    } else {
        s + Seq::new((width - s.len()) as nat, |_i: int| ' ')
    }
}

/// One record's line: `[LEVEL] millis [target] message`, the level padded
/// with spaces to five characters, the time in decimal milliseconds, and no
/// line break at the end.
pub open spec fn line_of(level: Level, millis: nat, target: Seq<char>, message: Seq<char>) -> Seq<char> {
    seq!['['] + pad_right(level_name(level), LEVEL_WIDTH as nat) + seq![']', ' ']
        + decimal(millis) + seq![' ', '['] + target + seq![']', ' '] + message
}

/// What one record adds to the file: its line and a line break.
pub open spec fn record_of(level: Level, millis: nat, target: Seq<char>, message: Seq<char>) -> Seq<char> {
    line_of(level, millis, target, message).push('\n')
}

impl Level {
    /// The level's name, padded with spaces to the column width.
    pub fn padded_name(&self) -> (r: &'static str)
        ensures
            r@ == pad_right(level_name(*self), LEVEL_WIDTH as nat),
    {
        let r = match self {
            Level::Error => "ERROR",
            Level::Warn => "WARN ",
            Level::Info => "INFO ",
            Level::Debug => "DEBUG",
            Level::Trace => "TRACE",
        };
        proof {
            reveal_strlit("ERROR");
            reveal_strlit("WARN ");
            reveal_strlit("INFO ");
            reveal_strlit("DEBUG");
            reveal_strlit("TRACE");
            assert(pad_right(level_name(*self), 5) =~= r@);
        }
        r
    }
}

/// Formats one record as a line, without a line break.
pub fn format_line(level: Level, millis: u64, target: &str, message: &str) -> (r: String)
    ensures
        r@ == line_of(level, millis as nat, target@, message@),
{
    let mut s = String::new();
    s.push('[');
    s.push_str(level.padded_name());
    s.push(']');
    s.push(' ');
    push_decimal(&mut s, millis);
    s.push(' ');
    s.push('[');
    s.push_str(target);
    s.push(']');
    s.push(' ');
    s.push_str(message);
    proof {
        assert(s@ =~= line_of(level, millis as nat, target@, message@));
    }
    s
}

/// Formats one record as it is written to the file: its line and a line break.
pub fn record_text(level: Level, millis: u64, target: &str, message: &str) -> (r: String)
    ensures
        r@ == record_of(level, millis as nat, target@, message@),
{
    let mut s = format_line(level, millis, target, message);
    s.push('\n');
    s
}

} // verus!
