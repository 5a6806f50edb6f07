//! The earliest form of the settings: the Discord token, prefix, allowed
//! channels and owners.
use vstd::prelude::*;
use crate::config_file::ConfigError;
use crate::config_file::ConfigSource;

verus! {

/// The settings file.
pub struct RaziConfig {
    pub discord: Discord,
}

/// The `[discord]` table.
pub struct Discord {
    pub token: String,
    pub prefix: String,
    pub allowed_channels: Vec<u64>,
    pub owners: Vec<u64>,
}

fn get_razi_config(source: ConfigSource<RaziConfig>) -> (c: RaziConfig)
    requires
        source is Parsed,
    ensures
        c == source->Parsed_0,
{
    match source {
        ConfigSource::Parsed(c) => c,
        _ => vstd::pervasive::unreached(),
    }
}

/// The Discord token from the settings file. A file that is missing, cannot
/// be read or does not parse stops the program before this is called (see
/// `source_failure` and `failure_message`).
pub fn get_discord_token(source: ConfigSource<RaziConfig>) -> (token: String)
    requires
        source is Parsed,
    ensures
        token == source->Parsed_0.discord.token,
{
    get_razi_config(source).discord.token
}

/// The settings from the settings file. A file that is missing, cannot be
/// read or does not parse stops the program before this is called.
pub fn get_config(source: ConfigSource<RaziConfig>) -> (c: RaziConfig)
    requires
        source is Parsed,
    ensures
        c == source->Parsed_0,
{
    get_razi_config(source)
}

/// The message the program stops with when the settings cannot be had.
pub open spec fn spec_failure_message(e: ConfigError) -> Seq<char> {
    match e {
        ConfigError::NotFound => "File could not be found"@,
        ConfigError::Unreadable(d) => "File could not be read! "@ + d@,
        ConfigError::NotToml(_) => "Exiting due to toml conversion failure"@,
    }
}

/// The message the program stops with when the settings cannot be had.
pub fn failure_message(e: &ConfigError) -> (r: String)
    ensures
        r@ == spec_failure_message(*e),
{
    match e {
        ConfigError::NotFound => String::from_str("File could not be found"),
        ConfigError::Unreadable(d) => String::from_str("File could not be read! ").concat(d.as_str()),
        ConfigError::NotToml(_) => String::from_str("Exiting due to toml conversion failure"),
    }
}

} // verus!
