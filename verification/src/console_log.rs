//! Classification of the game's console lines and the colour each kind is shown in.
use vstd::prelude::*;
use crate::text::{occurs_at, seq_contains, str_contains};

verus! {

/// The kind of a line that the game writes to its console.
#[allow(non_camel_case_types, clippy::upper_case_acronyms)]
#[derive(PartialEq, Eq, Structural, Debug, Clone, Copy)]
pub enum LogType {
    INFO,
    WARN,
    ERROR,
    CHAT,
    DEAD,
    STOP,
}

/// The kind of the console line `s`: chat first, then errors, warnings, the stop notice,
/// and information for everything else.
pub open spec fn log_type_of(s: Seq<char>) -> LogType {
    if seq_contains(s, "INFO]: [CHAT]"@) || seq_contains(s, "INFO]: [System] [CHAT]"@) {
        LogType::CHAT
    } else if seq_contains(s, "ERROR]: "@) {
        LogType::ERROR
    } else if seq_contains(s, "WARN]: "@) {
        LogType::WARN
    } else if seq_contains(s, "INFO]: Stopping!"@) {
        LogType::STOP
    } else {
        LogType::INFO
    }
}

/// A line is the game's stop notice exactly when it holds "INFO]: Stopping!" and none of the
/// chat, error or warning markers.
pub proof fn law_stop_notice(s: Seq<char>)
    ensures
        (log_type_of(s) == LogType::STOP) <==> (seq_contains(s, "INFO]: Stopping!"@)
            && !seq_contains(s, "INFO]: [CHAT]"@)
            && !seq_contains(s, "INFO]: [System] [CHAT]"@)
            && !seq_contains(s, "ERROR]: "@)
            && !seq_contains(s, "WARN]: "@)),
{
}

/// A line without an exclamation mark is never the stop notice.
pub proof fn law_stop_needs_exclamation(s: Seq<char>)
    requires
        forall|i: int| 0 <= i < s.len() ==> s[i] != '!',
    ensures
        log_type_of(s) != LogType::STOP,
{
    if seq_contains(s, "INFO]: Stopping!"@) {
        let i = choose|i: int| occurs_at(s, "INFO]: Stopping!"@, i);
        reveal_strlit("INFO]: Stopping!");
        assert(s.subrange(i, i + 16)[15] == '!');
        assert(s[i + 15] == '!');
    }
}

/// A colour of the terminal's palette.
#[derive(PartialEq, Eq, Structural, Debug, Clone, Copy)]
pub enum LogColor {
    Yellow,
    Red,
    Green,
    Magenta,
    Gray,
}

/// A text modifier of the terminal.
#[derive(PartialEq, Eq, Structural, Debug, Clone, Copy)]
pub enum LogModifier {
    Bold,
    Italic,
}

/// How a console line is drawn: its foreground colour and, if any, a modifier.
#[derive(PartialEq, Eq, Structural, Debug, Clone, Copy)]
pub struct LogStyle {
    pub fg: LogColor,
    pub modifier: Option<LogModifier>,
}

/// The style of each kind of line: warnings yellow, errors red, chat bold green,
/// the stop notice italic magenta, the rest gray.
pub open spec fn style_of(t: LogType) -> LogStyle {
    match t {
        LogType::WARN => LogStyle { fg: LogColor::Yellow, modifier: None },
        LogType::ERROR => LogStyle { fg: LogColor::Red, modifier: None },
        LogType::CHAT => LogStyle { fg: LogColor::Green, modifier: Some(LogModifier::Bold) },
        LogType::STOP => LogStyle { fg: LogColor::Magenta, modifier: Some(LogModifier::Italic) },
        _ => LogStyle { fg: LogColor::Gray, modifier: None },
    }
}

impl LogType {
    /// The kind of the console line `s`.
    pub fn get_of(s: String) -> (res: LogType)
        ensures
            res == log_type_of(s@),
    {
        let s = s.as_str();
        if str_contains(s, "INFO]: [CHAT]") || str_contains(s, "INFO]: [System] [CHAT]") {
            LogType::CHAT
        } else if str_contains(s, "ERROR]: ") {
            LogType::ERROR
        } else if str_contains(s, "WARN]: ") {
            LogType::WARN
        } else if str_contains(s, "INFO]: Stopping!") {
            LogType::STOP
        } else if str_contains(s, "INFO]: ") {
            LogType::INFO
        } else {
            LogType::INFO
        }
    }

    /// The style in which lines of this kind are drawn.
    pub fn get_style(&self) -> (res: LogStyle)
        ensures
            res == style_of(*self),
    {
        match self {
            LogType::WARN => LogStyle { fg: LogColor::Yellow, modifier: None },
            LogType::ERROR => LogStyle { fg: LogColor::Red, modifier: None },
            LogType::CHAT => LogStyle { fg: LogColor::Green, modifier: Some(LogModifier::Bold) },
            LogType::STOP => LogStyle { fg: LogColor::Magenta, modifier: Some(LogModifier::Italic) },
            _ => LogStyle { fg: LogColor::Gray, modifier: None },
        }
    }
}

} // verus!
