//! Log levels, log sources, and how a log line and its file are named.

use vstd::prelude::*;

verus! {

/// How serious a log entry is.
#[derive(Debug, Clone, Copy, PartialEq, Eq, Structural)]
pub enum LogLevel {
    Info,
    Warn,
    Error,
    Debug,
    Trace,
}

/// The upper-case name of a level.
pub open spec fn level_name(level: LogLevel) -> Seq<char> {
    match level {
        LogLevel::Info => "INFO"@,
        LogLevel::Warn => "WARN"@,
        LogLevel::Error => "ERROR"@,
        LogLevel::Debug => "DEBUG"@,
        LogLevel::Trace => "TRACE"@,
    }
}

/// The symbol shown before a level's name.
pub open spec fn level_symbol(level: LogLevel) -> Seq<char> {
    match level {
        LogLevel::Info => "ℹ️"@,
        LogLevel::Warn => "⚠️"@,
        LogLevel::Error => "❌"@,
        LogLevel::Debug => "🔍"@,
        LogLevel::Trace => "🔬"@,
    }
}

impl LogLevel {
    /// The upper-case name of this level.
    pub fn as_str(&self) -> (r: &'static str)
        ensures
            r@ == level_name(*self),
    {
        match self {
            LogLevel::Info => "INFO",
            LogLevel::Warn => "WARN",
            LogLevel::Error => "ERROR",
            LogLevel::Debug => "DEBUG",
            LogLevel::Trace => "TRACE",
        }
    }

    /// The symbol shown before this level's name.
    pub fn emoji(&self) -> (r: &'static str)
        ensures
            r@ == level_symbol(*self),
    {
        match self {
            LogLevel::Info => "ℹ️",
            LogLevel::Warn => "⚠️",
            LogLevel::Error => "❌",
            LogLevel::Debug => "🔍",
            LogLevel::Trace => "🔬",
        }
    }
}

/// Where a log entry comes from.
#[derive(Debug, Clone)]
pub enum LogSource {
    /// A module of the host, by name.
    Rust(String),
    /// A component of the presentation layer, by name.
    Frontend(String),
    /// A script, by name.
    Rhai(String),
    System,
}

/// The label a source is shown with.
pub open spec fn source_label(source: LogSource) -> Seq<char> {
    match source {
        LogSource::Rust(module) => "🦀 "@ + module@,
        LogSource::Frontend(component) => "⚛️ "@ + component@,
        LogSource::Rhai(script) => "📜 "@ + script@,
        LogSource::System => "⚙️ System"@,
    }
}

impl LogSource {
    /// The label this source is shown with.
    pub fn prefix(&self) -> (r: String)
        ensures
            r@ == source_label(*self),
    {
        match self {
            LogSource::Rust(module) => {
                let mut r = String::from_str("🦀 ");
                r.append(module.as_str());
                r
            },
            LogSource::Frontend(component) => {
                let mut r = String::from_str("⚛️ ");
                r.append(component.as_str());
                r
            },
            LogSource::Rhai(script) => {
                let mut r = String::from_str("📜 ");
                r.append(script.as_str());
                r
            },
            LogSource::System => String::from_str("⚙️ System"),
        }
    }
}

/// A log line: `[<timestamp>] <symbol> <LEVEL> <source> - <message>`.
pub open spec fn log_line_spec(
    timestamp: Seq<char>,
    level: LogLevel,
    source: LogSource,
    message: Seq<char>,
) -> Seq<char> {
    "["@ + timestamp + "] "@ + level_symbol(level) + " "@ + level_name(level) + " "@
        + source_label(source) + " - "@ + message
}

/// Writes one log line from an already formatted timestamp.
pub fn log_line(timestamp: &str, level: &LogLevel, source: &LogSource, message: &str) -> (r: String)
    ensures
        r@ == log_line_spec(timestamp@, *level, *source, message@),
{
    let mut r = String::from_str("[");
    r.append(timestamp);
    r.append("] ");
    r.append(level.emoji());
    r.append(" ");
    r.append(level.as_str());
    r.append(" ");
    let label = source.prefix();
    r.append(label.as_str());
    r.append(" - ");
    r.append(message);
    r
}

/// Whether `c` may stand in a log file name as it is.
pub open spec fn file_name_safe(c: char) -> bool {
    ('a' <= c && c <= 'z') || ('A' <= c && c <= 'Z') || ('0' <= c && c <= '9') || c == '_' || c
        == '-'
}

/// `name` with every character that is not an ASCII letter, a digit, `_`
/// or `-` turned into `_`.
pub open spec fn sanitized(name: Seq<char>) -> Seq<char> {
    name.map_values(|c: char| if file_name_safe(c) { c } else { '_' })
}

/// The log file an entry goes to, besides the main log.
pub open spec fn log_file_name_spec(source: LogSource, script_context: Option<Seq<char>>) -> Seq<
    char,
> {
    match source {
        LogSource::Rhai(script) => "script_"@ + sanitized(script@) + ".log"@,
        _ => match script_context {
            Some(script) => "script_"@ + sanitized(script) + ".log"@,
            None => match source {
                LogSource::Rust(module) => "rust_"@ + sanitized(module@) + ".log"@,
                LogSource::Frontend(component) => "frontend_"@ + sanitized(component@) + ".log"@,
                _ => "system.log"@,
            },
        },
    }
}

/// Makes `name` safe to use in a file name.
pub fn sanitize_filename(name: &str) -> (r: String)
    ensures
        r@ == sanitized(name@),
{
    let n = name.unicode_len();
    let mut out = String::new();
    let mut i: usize = 0;
    while i < n
        invariant
            n == name@.len(),
            i <= n,
            out@ == sanitized(name@.subrange(0, i as int)),
        decreases n - i,
    {
        let c = name.get_char(i);
        let safe = ('a' <= c && c <= 'z') || ('A' <= c && c <= 'Z') || ('0' <= c && c <= '9') || c
            == '_' || c == '-';
        proof {
            reveal_strlit("_");
            assert(name@.subrange(i as int, i + 1) =~= seq![c]);
            assert(sanitized(name@.subrange(0, i + 1)) =~= sanitized(name@.subrange(0, i as int)).push(
                if safe {
                    c
                } else {
                    '_'
                },
            ));
        }
        if safe {
            out.append(name.substring_char(i, i + 1));
        } else {
            out.append("_");
        }
        i = i + 1;
    }
    assert(name@.subrange(0, n as int) =~= name@);
    out
}

fn named_log_file(kind: &str, name: &str) -> (r: String)
    ensures
        r@ == kind@ + sanitized(name@) + ".log"@,
{
    let mut r = String::from_str(kind);
    let clean = sanitize_filename(name);
    r.append(clean.as_str());
    r.append(".log");
    r
}

/// The log file for an entry from `source`: a script's own file when the
/// entry comes from a script or names one, otherwise one per module, one per
/// component, or the system log.
pub fn log_file_name(source: &LogSource, script_context: &Option<String>) -> (r: String)
    ensures
        r@ == log_file_name_spec(*source, script_context.deep_view()),
{
    match source {
        LogSource::Rhai(script) => named_log_file("script_", script.as_str()),
        _ => match script_context {
            Some(script) => named_log_file("script_", script.as_str()),
            None => match source {
                LogSource::Rust(module) => named_log_file("rust_", module.as_str()),
                LogSource::Frontend(component) => named_log_file("frontend_", component.as_str()),
                _ => String::from_str("system.log"),
            },
        },
    }
}

} // verus!
