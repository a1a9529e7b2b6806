//! The logging vocabulary: levels, colors and terminal formats.
//!
//! The lifecycle core treats logging as an external collaborator; these
//! values only cross that boundary. Levels order by severity; colors and
//! formats carry their ANSI escape sequence as their string form.

use vstd::prelude::*;

use crate::casefold::eq_ignore_ascii_case;
use crate::casefold::fold_eq;
use crate::errors::UnknownValue;

verus! {

/// The verbosity level of a log record. The string form is the short
/// three-letter tag; the long name is accepted when parsing.
#[derive(Copy, Clone, Debug, Hash, PartialOrd, PartialEq, Eq, Structural)]
pub enum LogLevel {
    Debug,
    Info,
    Warning,
    Error,
    Critical,
}

impl LogLevel {
    /// The stable integer value of this LogLevel.
    pub open spec fn value_spec(self) -> u8 {
        match self {
            LogLevel::Debug => 10,
            LogLevel::Info => 20,
            LogLevel::Warning => 30,
            LogLevel::Error => 40,
            LogLevel::Critical => 50,
        }
    }

    /// The LogLevel value with integer value `v`, if there is one.
    pub open spec fn from_value_spec(v: u8) -> Option<LogLevel> {
        if v == 10 {
            Some(LogLevel::Debug)
        } else if v == 20 {
            Some(LogLevel::Info)
        } else if v == 30 {
            Some(LogLevel::Warning)
        } else if v == 40 {
            Some(LogLevel::Error)
        } else if v == 50 {
            Some(LogLevel::Critical)
        } else {
            None
        }
    }

    /// The canonical string form.
    pub open spec fn name_spec(self) -> Seq<char> {
        match self {
            LogLevel::Debug => "DBG"@,
            LogLevel::Info => "INF"@,
            LogLevel::Warning => "WRN"@,
            LogLevel::Error => "ERR"@,
            LogLevel::Critical => "CRT"@,
        }
    }

    /// Which value the character sequence `s` names, compared
    /// case-insensitively against each accepted string form.
    pub open spec fn parse_spec(s: Seq<char>) -> Option<LogLevel> {
        if fold_eq(s, "DBG"@) || fold_eq(s, "DEBUG"@) {
            Some(LogLevel::Debug)
        } else if fold_eq(s, "INF"@) || fold_eq(s, "INFO"@) {
            Some(LogLevel::Info)
        } else if fold_eq(s, "WRN"@) || fold_eq(s, "WARNING"@) {
            Some(LogLevel::Warning)
        } else if fold_eq(s, "ERR"@) || fold_eq(s, "ERROR"@) {
            Some(LogLevel::Error)
        } else if fold_eq(s, "CRT"@) || fold_eq(s, "CRITICAL"@) {
            Some(LogLevel::Critical)
        } else {
            None
        }
    }

    /// Returns the stable integer value.
    pub fn value(self) -> (v: u8)
        ensures
            v == self.value_spec(),
    {
        match self {
            LogLevel::Debug => 10,
            LogLevel::Info => 20,
            LogLevel::Warning => 30,
            LogLevel::Error => 40,
            LogLevel::Critical => 50,
        }
    }

    /// Returns the value with integer value `v`, or `None` when `v`
    /// is not the value of any LogLevel.
    pub fn from_value(v: u8) -> (r: Option<LogLevel>)
        ensures
            r == Self::from_value_spec(v),
    {
        if v == 10 {
            Some(LogLevel::Debug)
        } else if v == 20 {
            Some(LogLevel::Info)
        } else if v == 30 {
            Some(LogLevel::Warning)
        } else if v == 40 {
            Some(LogLevel::Error)
        } else if v == 50 {
            Some(LogLevel::Critical)
        } else {
            None
        }
    }

    /// Returns the canonical string form.
    pub fn as_str(self) -> (r: &'static str)
        ensures
            r@ == self.name_spec(),
    {
        match self {
            LogLevel::Debug => "DBG",
            LogLevel::Info => "INF",
            LogLevel::Warning => "WRN",
            LogLevel::Error => "ERR",
            LogLevel::Critical => "CRT",
        }
    }

    /// Parses a string form, case-insensitively. An unrecognized
    /// string is rejected outright, never coerced to a default value.
    pub fn from_str(s: &str) -> (r: Result<LogLevel, UnknownValue>)
        ensures
            match r {
                Ok(v) => Self::parse_spec(s@) == Some(v),
                Err(e) => Self::parse_spec(s@) is None && e.value@ == s@,
            },
    {
        if eq_ignore_ascii_case(s, "DBG") || eq_ignore_ascii_case(s, "DEBUG") {
            Ok(LogLevel::Debug)
        } else if eq_ignore_ascii_case(s, "INF") || eq_ignore_ascii_case(s, "INFO") {
            Ok(LogLevel::Info)
        } else if eq_ignore_ascii_case(s, "WRN") || eq_ignore_ascii_case(s, "WARNING") {
            Ok(LogLevel::Warning)
        } else if eq_ignore_ascii_case(s, "ERR") || eq_ignore_ascii_case(s, "ERROR") {
            Ok(LogLevel::Error)
        } else if eq_ignore_ascii_case(s, "CRT") || eq_ignore_ascii_case(s, "CRITICAL") {
            Ok(LogLevel::Critical)
        } else {
            Err(UnknownValue::new(s))
        }
    }
}

/// The terminal color of a log record, as the ANSI escape sequence that
/// selects it; `Normal` selects no color and is written as the empty
/// string.
#[derive(Copy, Clone, Debug, Hash, PartialEq, Eq, Structural)]
pub enum LogColor {
    Normal,
    Green,
    Blue,
    Magenta,
    Cyan,
    Yellow,
    Red,
}

impl LogColor {
    /// The stable integer value of this LogColor.
    pub open spec fn value_spec(self) -> u8 {
        match self {
            LogColor::Normal => 0,
            LogColor::Green => 1,
            LogColor::Blue => 2,
            LogColor::Magenta => 3,
            LogColor::Cyan => 4,
            LogColor::Yellow => 5,
            LogColor::Red => 6,
        }
    }

    /// The LogColor value with integer value `v`, if there is one.
    pub open spec fn from_value_spec(v: u8) -> Option<LogColor> {
        if v == 0 {
            Some(LogColor::Normal)
        } else if v == 1 {
            Some(LogColor::Green)
        } else if v == 2 {
            Some(LogColor::Blue)
        } else if v == 3 {
            Some(LogColor::Magenta)
        } else if v == 4 {
            Some(LogColor::Cyan)
        } else if v == 5 {
            Some(LogColor::Yellow)
        } else if v == 6 {
            Some(LogColor::Red)
        } else {
            None
        }
    }

    /// The canonical string form.
    pub open spec fn name_spec(self) -> Seq<char> {
        match self {
            LogColor::Normal => ""@,
            LogColor::Green => "\x1b[92m"@,
            LogColor::Blue => "\x1b[94m"@,
            LogColor::Magenta => "\x1b[35m"@,
            LogColor::Cyan => "\x1b[36m"@,
            LogColor::Yellow => "\x1b[1;33m"@,
            LogColor::Red => "\x1b[1;31m"@,
        }
    }

    /// Which value the character sequence `s` names, compared
    /// case-insensitively against each accepted string form.
    pub open spec fn parse_spec(s: Seq<char>) -> Option<LogColor> {
        if fold_eq(s, ""@) {
            Some(LogColor::Normal)
        } else if fold_eq(s, "\x1b[92m"@) {
            Some(LogColor::Green)
        } else if fold_eq(s, "\x1b[94m"@) {
            Some(LogColor::Blue)
        } else if fold_eq(s, "\x1b[35m"@) {
            Some(LogColor::Magenta)
        } else if fold_eq(s, "\x1b[36m"@) {
            Some(LogColor::Cyan)
        } else if fold_eq(s, "\x1b[1;33m"@) {
            Some(LogColor::Yellow)
        } else if fold_eq(s, "\x1b[1;31m"@) {
            Some(LogColor::Red)
        } else {
            None
        }
    }

    /// Returns the stable integer value.
    pub fn value(self) -> (v: u8)
        ensures
            v == self.value_spec(),
    {
        match self {
            LogColor::Normal => 0,
            LogColor::Green => 1,
            LogColor::Blue => 2,
            LogColor::Magenta => 3,
            LogColor::Cyan => 4,
            LogColor::Yellow => 5,
            LogColor::Red => 6,
        }
    }

    /// Returns the value with integer value `v`, or `None` when `v`
    /// is not the value of any LogColor.
    pub fn from_value(v: u8) -> (r: Option<LogColor>)
        ensures
            r == Self::from_value_spec(v),
    {
        if v == 0 {
            Some(LogColor::Normal)
        } else if v == 1 {
            Some(LogColor::Green)
        } else if v == 2 {
            Some(LogColor::Blue)
        } else if v == 3 {
            Some(LogColor::Magenta)
        } else if v == 4 {
            Some(LogColor::Cyan)
        } else if v == 5 {
            Some(LogColor::Yellow)
        } else if v == 6 {
            Some(LogColor::Red)
        } else {
            None
        }
    }

    /// Returns the canonical string form.
    pub fn as_str(self) -> (r: &'static str)
        ensures
            r@ == self.name_spec(),
    {
        match self {
            LogColor::Normal => "",
            LogColor::Green => "\x1b[92m",
            LogColor::Blue => "\x1b[94m",
            LogColor::Magenta => "\x1b[35m",
            LogColor::Cyan => "\x1b[36m",
            LogColor::Yellow => "\x1b[1;33m",
            LogColor::Red => "\x1b[1;31m",
        }
    }

    /// Parses a string form, case-insensitively. An unrecognized
    /// string is rejected outright, never coerced to a default value.
    pub fn from_str(s: &str) -> (r: Result<LogColor, UnknownValue>)
        ensures
            match r {
                Ok(v) => Self::parse_spec(s@) == Some(v),
                Err(e) => Self::parse_spec(s@) is None && e.value@ == s@,
            },
    {
        if eq_ignore_ascii_case(s, "") {
            Ok(LogColor::Normal)
        } else if eq_ignore_ascii_case(s, "\x1b[92m") {
            Ok(LogColor::Green)
        } else if eq_ignore_ascii_case(s, "\x1b[94m") {
            Ok(LogColor::Blue)
        } else if eq_ignore_ascii_case(s, "\x1b[35m") {
            Ok(LogColor::Magenta)
        } else if eq_ignore_ascii_case(s, "\x1b[36m") {
            Ok(LogColor::Cyan)
        } else if eq_ignore_ascii_case(s, "\x1b[1;33m") {
            Ok(LogColor::Yellow)
        } else if eq_ignore_ascii_case(s, "\x1b[1;31m") {
            Ok(LogColor::Red)
        } else {
            Err(UnknownValue::new(s))
        }
    }
}

/// Additional ANSI terminal formatting applied to a log record.
#[derive(Copy, Clone, Debug, Hash, PartialEq, Eq, Structural)]
pub enum LogFormat {
    Header,
    Endc,
    Bold,
    Underline,
}

impl LogFormat {
    /// The stable integer value of this LogFormat.
    pub open spec fn value_spec(self) -> u8 {
        match self {
            LogFormat::Header => 0,
            LogFormat::Endc => 1,
            LogFormat::Bold => 2,
            LogFormat::Underline => 3,
        }
    }

    /// The LogFormat value with integer value `v`, if there is one.
    pub open spec fn from_value_spec(v: u8) -> Option<LogFormat> {
        if v == 0 {
            Some(LogFormat::Header)
        } else if v == 1 {
            Some(LogFormat::Endc)
        } else if v == 2 {
            Some(LogFormat::Bold)
        } else if v == 3 {
            Some(LogFormat::Underline)
        } else {
            None
        }
    }

    /// The canonical string form.
    pub open spec fn name_spec(self) -> Seq<char> {
        match self {
            LogFormat::Header => "\x1b[95m"@,
            LogFormat::Endc => "\x1b[0m"@,
            LogFormat::Bold => "\x1b[1m"@,
            LogFormat::Underline => "\x1b[4m"@,
        }
    }

    /// Which value the character sequence `s` names, compared
    /// case-insensitively against each accepted string form.
    pub open spec fn parse_spec(s: Seq<char>) -> Option<LogFormat> {
        if fold_eq(s, "\x1b[95m"@) {
            Some(LogFormat::Header)
        } else if fold_eq(s, "\x1b[0m"@) {
            Some(LogFormat::Endc)
        } else if fold_eq(s, "\x1b[1m"@) {
            Some(LogFormat::Bold)
        } else if fold_eq(s, "\x1b[4m"@) {
            Some(LogFormat::Underline)
        } else {
            None
        }
    }

    /// Returns the stable integer value.
    pub fn value(self) -> (v: u8)
        ensures
            v == self.value_spec(),
    {
        match self {
            LogFormat::Header => 0,
            LogFormat::Endc => 1,
            LogFormat::Bold => 2,
            LogFormat::Underline => 3,
        }
    }

    /// Returns the value with integer value `v`, or `None` when `v`
    /// is not the value of any LogFormat.
    pub fn from_value(v: u8) -> (r: Option<LogFormat>)
        ensures
            r == Self::from_value_spec(v),
    {
        if v == 0 {
            Some(LogFormat::Header)
        } else if v == 1 {
            Some(LogFormat::Endc)
        } else if v == 2 {
            Some(LogFormat::Bold)
        } else if v == 3 {
            Some(LogFormat::Underline)
        } else {
            None
        }
    }

    /// Returns the canonical string form.
    pub fn as_str(self) -> (r: &'static str)
        ensures
            r@ == self.name_spec(),
    {
        match self {
            LogFormat::Header => "\x1b[95m",
            LogFormat::Endc => "\x1b[0m",
            LogFormat::Bold => "\x1b[1m",
            LogFormat::Underline => "\x1b[4m",
        }
    }

    /// Parses a string form, case-insensitively. An unrecognized
    /// string is rejected outright, never coerced to a default value.
    pub fn from_str(s: &str) -> (r: Result<LogFormat, UnknownValue>)
        ensures
            match r {
                Ok(v) => Self::parse_spec(s@) == Some(v),
                Err(e) => Self::parse_spec(s@) is None && e.value@ == s@,
            },
    {
        if eq_ignore_ascii_case(s, "\x1b[95m") {
            Ok(LogFormat::Header)
        } else if eq_ignore_ascii_case(s, "\x1b[0m") {
            Ok(LogFormat::Endc)
        } else if eq_ignore_ascii_case(s, "\x1b[1m") {
            Ok(LogFormat::Bold)
        } else if eq_ignore_ascii_case(s, "\x1b[4m") {
            Ok(LogFormat::Underline)
        } else {
            Err(UnknownValue::new(s))
        }
    }
}
} // verus!
