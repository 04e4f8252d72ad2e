//! The layout of the tool's log lines: a colour per level and, in verbose
//! mode, a timestamp, the level and the source file.

use vstd::prelude::*;
use vstd::string::*;

verus! {

/// The severity of a log record.
#[derive(Debug, Clone, Copy, PartialEq, Eq, Structural)]
pub enum LogLevel {
    Error,
    Warn,
    Info,
    Debug,
    Trace,
}

/// The ANSI sequence that resets the colour.
pub const RESET_COLOR_TOKEN: &'static str = "\x1B[0m";

/// The ANSI colour sequence `ESC [ 3 <digit> m`.
pub open spec fn ansi_color(digit: char) -> Seq<char> {
    seq!['\x1B', '[', '3', digit, 'm']
}

/// Green for information, yellow for warnings, red for errors, blue for
/// debugging and magenta for tracing.
pub open spec fn spec_level_color(level: LogLevel) -> Seq<char> {
    match level {
        LogLevel::Info => ansi_color('2'),
        LogLevel::Warn => ansi_color('3'),
        LogLevel::Error => ansi_color('1'),
        LogLevel::Debug => ansi_color('4'),
        LogLevel::Trace => ansi_color('5'),
    }
}

/// The colour of the records of `level`.
pub fn level_color(level: LogLevel) -> (r: &'static str)
    ensures
        r@ == spec_level_color(level),
{
    match level {
        LogLevel::Info => {
            let c = "\x1B[32m";
            proof {
                reveal_strlit("\x1B[32m");
                assert(c@ =~= ansi_color('2'));
            }
            c
        },
        LogLevel::Warn => {
            let c = "\x1B[33m";
            proof {
                reveal_strlit("\x1B[33m");
                assert(c@ =~= ansi_color('3'));
            }
            c
        },
        LogLevel::Error => {
            let c = "\x1B[31m";
            proof {
                reveal_strlit("\x1B[31m");
                assert(c@ =~= ansi_color('1'));
            }
            c
        },
        LogLevel::Debug => {
            let c = "\x1B[34m";
            proof {
                reveal_strlit("\x1B[34m");
                assert(c@ =~= ansi_color('4'));
            }
            c
        },
        LogLevel::Trace => {
            let c = "\x1B[35m";
            proof {
                reveal_strlit("\x1B[35m");
                assert(c@ =~= ansi_color('5'));
            }
            c
        },
    }
}

/// A log line (without its line break): in verbose mode
/// `[<date_time> <colored level> <file>] <colored message>`, otherwise just
/// the colored message.
pub open spec fn spec_log_line(
    level: LogLevel,
    level_name: Seq<char>,
    file: Seq<char>,
    message: Seq<char>,
    verbose: bool,
    date_time: Seq<char>,
) -> Seq<char> {
    let color = spec_level_color(level);
    let reset = RESET_COLOR_TOKEN@;
    if verbose {
        seq!['['] + date_time + seq![' '] + color + level_name + reset + seq![' '] + file + seq![
            ']',
            ' ',
        ] + color + message + reset
    } else {
        color + message + reset
    }
}

/// Lays out one log record (see `spec_log_line`).
pub fn format_log_line(
    level: LogLevel,
    level_name: &str,
    file: &str,
    message: &str,
    verbose: bool,
    date_time: &str,
) -> (r: String)
    ensures
        r@ == spec_log_line(level, level_name@, file@, message@, verbose, date_time@),
{
    let color = level_color(level);
    let mut line = String::new();
    if verbose {
        let open = "[";
        let space = " ";
        let close = "] ";
        proof {
            reveal_strlit("[");
            reveal_strlit(" ");
            reveal_strlit("] ");
            assert(open@ =~= seq!['[']);
            assert(space@ =~= seq![' ']);
            assert(close@ =~= seq![']', ' ']);
        }
        line.append(open);
        line.append(date_time);
        line.append(space);
        line.append(color);
        line.append(level_name);
        line.append(RESET_COLOR_TOKEN);
        line.append(space);
        line.append(file);
        line.append(close);
    }
    line.append(color);
    line.append(message);
    line.append(RESET_COLOR_TOKEN);
    assert(line@ =~= spec_log_line(level, level_name@, file@, message@, verbose, date_time@));
    line
}

/// The most verbose level that is logged, or none at all.
#[derive(Debug, Clone, Copy, PartialEq, Eq, Structural)]
pub enum LogLevelFilter {
    Off,
    Error,
    Warn,
    Info,
    Debug,
    Trace,
}

/// `text` spells the upper-case ASCII `name` in any mix of cases.
pub open spec fn spells_ignoring_case(name: Seq<char>, text: Seq<char>) -> bool {
    &&& text.len() == name.len()
    &&& forall|i: int|
        0 <= i < text.len() ==> (text[i] == name[i] || text[i] as int == name[i] as int + 32)
}

/// The level filter that `text` names: `off`, `error`, `warn`, `info`,
/// `debug` or `trace`, in any mix of ASCII cases.
pub open spec fn spec_parse_level_filter(text: Seq<char>) -> Option<LogLevelFilter> {
    if spells_ignoring_case(seq!['O', 'F', 'F'], text) {
        Some(LogLevelFilter::Off)
    } else if spells_ignoring_case(seq!['E', 'R', 'R', 'O', 'R'], text) {
        Some(LogLevelFilter::Error)
    } else if spells_ignoring_case(seq!['W', 'A', 'R', 'N'], text) {
        Some(LogLevelFilter::Warn)
    } else if spells_ignoring_case(seq!['I', 'N', 'F', 'O'], text) {
        Some(LogLevelFilter::Info)
    } else if spells_ignoring_case(seq!['D', 'E', 'B', 'U', 'G'], text) {
        Some(LogLevelFilter::Debug)
    } else if spells_ignoring_case(seq!['T', 'R', 'A', 'C', 'E'], text) {
        Some(LogLevelFilter::Trace)
    } else {
        None
    }
}

/// Parses `text` with `log::LevelFilter`'s `FromStr`, which compares it,
/// ignoring ASCII case, with the names `OFF`, `ERROR`, `WARN`, `INFO`,
/// `DEBUG` and `TRACE` and fails on anything else. The contract states
/// exactly that.
#[verifier::external_body]
fn parse_level_filter(text: &str) -> (r: Option<LogLevelFilter>)
    ensures
        r == spec_parse_level_filter(text@),
{
    match text.parse::<log::LevelFilter>() {
        Ok(log::LevelFilter::Off) => Some(LogLevelFilter::Off),
        Ok(log::LevelFilter::Error) => Some(LogLevelFilter::Error),
        Ok(log::LevelFilter::Warn) => Some(LogLevelFilter::Warn),
        Ok(log::LevelFilter::Info) => Some(LogLevelFilter::Info),
        Ok(log::LevelFilter::Debug) => Some(LogLevelFilter::Debug),
        Ok(log::LevelFilter::Trace) => Some(LogLevelFilter::Trace),
        Err(_) => None,
    }
}

/// The level filter of the logger: the one that `rust_log` names when the
/// environment file set one (`None` when it names no level), else `Debug` in
/// verbose mode and `Info` otherwise.
pub fn log_level_filter(rust_log: Option<&str>, verbose: bool) -> (r: Option<LogLevelFilter>)
    ensures
        r == match rust_log {
            Some(text) => spec_parse_level_filter(text@),
            None => Some(
                if verbose {
                    LogLevelFilter::Debug
                } else {
                    LogLevelFilter::Info
                },
            ),
        },
{
    match rust_log {
        Some(text) => parse_level_filter(text),
        None => {
            if verbose {
                Some(LogLevelFilter::Debug)
            } else {
                Some(LogLevelFilter::Info)
            }
        },
    }
}

} // verus!
