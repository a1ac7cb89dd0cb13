//! Application configuration: logging settings and the libraries the application knows.
use vstd::prelude::*;
use crate::str_map::StrMap;

verus! {

/// The severity levels that logging distinguishes.
#[derive(Debug, Clone, Copy, PartialEq, Eq, Structural)]
pub enum LogLevel {
    Error,
    Warn,
    Info,
    Debug,
    Trace,
}

/// The lowercase form of an ASCII letter; other characters are kept.
pub open spec fn ascii_lower(c: char) -> char {
    if 'A' <= c && c <= 'Z' {
        ((c as int) + 32) as char
    } else {
        c
    }
}

/// `s` equals the lowercase ASCII word `word`, ignoring ASCII case.
pub open spec fn eq_ignore_ascii_case(s: Seq<char>, word: Seq<char>) -> bool {
    s.len() == word.len() && forall|i: int| 0 <= i < s.len() ==> ascii_lower(#[trigger] s[i]) == word[i]
}

/// The value of a string of decimal digits.
pub open spec fn decimal_value(s: Seq<char>) -> int
    decreases s.len(),
{
    if s.len() == 0 {
        0
    } else {
        decimal_value(s.drop_last()) * 10 + ((s.last() as int) - ('0' as int))
    }
}

/// The value of `s` read as a `usize` in decimal (an optional `+` and one or more digits, not
/// above `usize::MAX`), if it reads as one.
pub open spec fn usize_value(s: Seq<char>) -> Option<int> {
    let digits = if s.len() > 0 && s[0] == '+' { s.drop_first() } else { s };
    if digits.len() > 0 && (forall|i: int| 0 <= i < digits.len() ==> '0' <= #[trigger] digits[i] && digits[i] <= '9')
        && decimal_value(digits) <= usize::MAX {
        Some(decimal_value(digits))
    } else {
        None
    }
}

/// The level that `tracing` reads from `s`: the numbers 1 to 5 (error to trace), else one of
/// the names `error`, `warn`, `info`, `debug`, `trace` in any ASCII case.
pub open spec fn parsed_level(s: Seq<char>) -> Option<LogLevel> {
    let n = usize_value(s);
    if n == Some(1int) {
        Some(LogLevel::Error)
    } else if n == Some(2int) {
        Some(LogLevel::Warn)
    } else if n == Some(3int) {
        Some(LogLevel::Info)
    } else if n == Some(4int) {
        Some(LogLevel::Debug)
    } else if n == Some(5int) {
        Some(LogLevel::Trace)
    } else if eq_ignore_ascii_case(s, "error"@) {
        Some(LogLevel::Error)
    } else if eq_ignore_ascii_case(s, "warn"@) {
        Some(LogLevel::Warn)
    } else if eq_ignore_ascii_case(s, "info"@) {
        Some(LogLevel::Info)
    } else if eq_ignore_ascii_case(s, "debug"@) {
        Some(LogLevel::Debug)
    } else if eq_ignore_ascii_case(s, "trace"@) {
        Some(LogLevel::Trace)
    } else {
        None
    }
}

/// Calls `tracing::Level::from_str` and tells the five levels apart.
///
/// Claimed of it: the result is [`parsed_level`], as the crate's source reads the text first
/// as a `usize` (1 = error up to 5 = trace) and otherwise compares it with the five level
/// names with `eq_ignore_ascii_case`; anything else is an error.
#[verifier::external_body]
fn parse_level(s: &str) -> (r: Option<LogLevel>)
    ensures
        r == parsed_level(s@),
{
    match <tracing::Level as core::str::FromStr>::from_str(s) {
        Ok(l) if l == tracing::Level::ERROR => Some(LogLevel::Error),
        Ok(l) if l == tracing::Level::WARN => Some(LogLevel::Warn),
        Ok(l) if l == tracing::Level::INFO => Some(LogLevel::Info),
        Ok(l) if l == tracing::Level::DEBUG => Some(LogLevel::Debug),
        Ok(_) => Some(LogLevel::Trace),
        Err(_) => None,
    }
}

/// A configuration block that controls how the application logs.
#[derive(Debug)]
pub struct LogConfiguration {
    /// A filter that says which parts of the software log at which level.
    pub filter: String,
    /// The minimum level of the logs emitted: `trace`, `debug`, `info`, `warn` or `error`,
    /// in any case. Invalid or missing values fall back to `info`.
    pub level: String,
    /// Where log files are written; the working directory when not set.
    pub output: Option<String>,
}

impl Default for LogConfiguration {
    /// Filter `io=trace`, level `info`, no output folder.
    fn default() -> (c: LogConfiguration)
        ensures
            c.filter@ == "io=trace"@,
            c.level@ == "info"@,
            c.output is None,
    {
        LogConfiguration { filter: "io=trace".to_owned(), level: "info".to_owned(), output: None }
    }
}

impl LogConfiguration {
    /// The filter that logging runs with: the logging framework's `default_filter`, then a
    /// comma, then the configured filter.
    pub fn filter_text(&self, default_filter: &str) -> (s: String)
        ensures
            s@ == default_filter@ + ","@ + self.filter@,
    {
        let mut s = default_filter.to_owned();
        s.append(",");
        s.append(self.filter.as_str());
        s
    }

    /// The folder log files are written to: the configured one, else the working directory.
    pub fn output_folder(&self) -> (s: String)
        ensures
            s@ == match self.output {
                Some(o) => o@,
                None => "."@,
            },
    {
        match &self.output {
            Some(o) => o.clone(),
            None => ".".to_owned(),
        }
    }

    /// The minimum level to log at: the configured level, or `info` when it is not a level.
    pub fn log_level(&self) -> (l: LogLevel)
        ensures
            l == match parsed_level(self.level@) {
                Some(p) => p,
                None => LogLevel::Info,
            },
    {
        match parse_level(self.level.as_str()) {
            Some(p) => p,
            None => LogLevel::Info,
        }
    }
}

/// The version of this software, recorded in the configuration and library files it writes.
pub const VERSION: &'static str = "0.1.0";

/// Configuration of the application.
#[derive(Debug)]
pub struct Configuration {
    /// The version of the software that created the configuration file.
    pub version: String,
    /// Recently opened files, most recent as the UI lists them.
    pub recents: Vec<String>,
    /// The asset libraries known to the application, by name, with their folders.
    pub libraries: StrMap<String>,
    /// How the application logs.
    pub logging: LogConfiguration,
}

impl Default for Configuration {
    /// No recent files, no libraries, the default logging configuration.
    fn default() -> (c: Configuration)
        ensures
            c.version@ == VERSION@,
            c.recents@.len() == 0,
            c.libraries.wf(),
            c.libraries@ == Map::<Seq<char>, Seq<char>>::empty(),
            c.logging.filter@ == "io=trace"@,
            c.logging.level@ == "info"@,
            c.logging.output is None,
    {
        Configuration {
            version: VERSION.to_owned(),
            recents: Vec::new(),
            libraries: StrMap::new(),
            logging: LogConfiguration::default(),
        }
    }
}

/// Why the configuration file could not be used.
#[derive(Debug, Clone, PartialEq, Eq)]
pub enum ConfigurationError {
    /// The location of the configuration file could not be found.
    Locate(String),
    /// The configuration file was opened but could not be read; the reader's message.
    Read(String),
    /// The configuration file could not be deserialised.
    Deserialize(String),
}

impl ConfigurationError {
    /// The message shown for this error.
    pub fn message(&self) -> (s: String)
        ensures
            s@ == match *self {
                ConfigurationError::Locate(_) => "Failed to get current executable path"@,
                ConfigurationError::Read(e) => e@,
                ConfigurationError::Deserialize(_) => "Failed to deserialize config file"@,
            },
    {
        match self {
            ConfigurationError::Locate(_) => "Failed to get current executable path".to_owned(),
            ConfigurationError::Read(e) => e.clone(),
            ConfigurationError::Deserialize(_) => "Failed to deserialize config file".to_owned(),
        }
    }
}

impl Configuration {
    /// The configuration from the outcome of reading its file: `None` where the file could
    /// not be opened, which gives the default configuration (the file is not created);
    /// otherwise what reading and parsing it gave, errors included.
    pub fn load(file: Option<Result<Configuration, ConfigurationError>>) -> (r: Result<Configuration, ConfigurationError>)
        ensures
            match file {
                None => r matches Ok(c) && c.version@ == VERSION@ && c.recents@.len() == 0
                    && c.libraries.wf() && c.libraries@ == Map::<Seq<char>, Seq<char>>::empty()
                    && c.logging.filter@ == "io=trace"@ && c.logging.level@ == "info"@ && c.logging.output is None,
                Some(read) => r == read,
            },
    {
        match file {
            None => Ok(Configuration::default()),
            Some(read) => read,
        }
    }
}

} // verus!
