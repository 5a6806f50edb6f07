//! What reading and parsing the settings file gave, and what went wrong.
use vstd::prelude::*;

verus! {

/// The outcome of opening, reading and parsing `./Razi.toml`.
pub enum ConfigSource<T> {
    /// The file could not be opened.
    Missing,
    /// The file could not be read; the error's debug text.
    Unreadable(String),
    /// The text is not a configuration; the parser's debug text.
    Malformed(String),
    /// The parsed configuration.
    Parsed(T),
}

/// Why no configuration could be had.
pub enum ConfigError {
    NotFound,
    Unreadable(String),
    NotToml(String),
}

/// The error that stands for a failed source, if it failed.
pub open spec fn source_error<T>(source: ConfigSource<T>) -> Option<ConfigError> {
    match source {
        ConfigSource::Missing => Some(ConfigError::NotFound),
        ConfigSource::Unreadable(e) => Some(ConfigError::Unreadable(e)),
        ConfigSource::Malformed(e) => Some(ConfigError::NotToml(e)),
        ConfigSource::Parsed(_) => None,
    }
}

/// Why the source gives no configuration, if it gives none: the program
/// prints the error's log line, if any, and stops with its failure message.
pub fn source_failure<T>(source: &ConfigSource<T>) -> (r: Option<ConfigError>)
    ensures
        r == source_error(*source),
{
    match source {
        ConfigSource::Missing => Some(ConfigError::NotFound),
        ConfigSource::Unreadable(e) => Some(ConfigError::Unreadable(e.clone())),
        ConfigSource::Malformed(e) => Some(ConfigError::NotToml(e.clone())),
        ConfigSource::Parsed(_) => None,
    }
}

impl ConfigError {
    /// The line printed before giving up, if any: only a parse failure prints
    /// one, with the parser's error.
    pub open spec fn spec_log_line(&self) -> Option<Seq<char>> {
        match self {
            ConfigError::NotToml(e) => Some("Couldnt convert to toml! "@ + e@),
            _ => None,
        }
    }

    /// The line printed before giving up, if any.
    pub fn log_line(&self) -> (r: Option<String>)
        ensures
            r is Some == self.spec_log_line() is Some,
            r is Some ==> Some(r->0@) == self.spec_log_line(),
    {
        match self {
            ConfigError::NotToml(e) => Some(
                String::from_str("Couldnt convert to toml! ").concat(e.as_str()),
            ),
            _ => None,
        }
    }
}

} // verus!
