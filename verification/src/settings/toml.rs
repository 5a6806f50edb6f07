//! The settings: Discord tokens, prefixes, channels, owners and admin roles,
//! and the King Arthur's Gold servers that the status command knows.
use vstd::prelude::*;
use crate::config_file::ConfigError;
use crate::config_file::ConfigSource;

verus! {

/// The settings file.
#[derive(Clone)]
pub struct RaziConfig {
    pub discord: Discord,
    pub kag_server: Option<Vec<KagServer>>,
}

/// The `[discord]` table.
#[derive(Clone)]
pub struct Discord {
    pub release_token: String,
    pub test_token: String,
    pub prefixes: Vec<String>,
    pub allowed_channels: Vec<u64>,
    pub owners: Vec<u64>,
    pub release_run: bool,
    pub admin_roles: Vec<u64>,
}

/// One `[[kag_server]]` entry: the names it answers to, its address and port,
/// and whether its minimap is shown.
#[derive(Clone)]
pub struct KagServer {
    pub names: Vec<String>,
    pub ip: String,
    pub port: String,
    pub minimap: bool,
}

impl Discord {
    /// Every field empty or false.
    pub open spec fn is_default(&self) -> bool {
        &&& self.release_token@ == Seq::<char>::empty()
        &&& self.test_token@ == Seq::<char>::empty()
        &&& self.prefixes@.len() == 0
        &&& self.allowed_channels@.len() == 0
        &&& self.owners@.len() == 0
        &&& !self.release_run
        &&& self.admin_roles@.len() == 0
    }
}

impl KagServer {
    /// Every field empty or false.
    pub open spec fn is_default(&self) -> bool {
        &&& self.names@.len() == 0
        &&& self.ip@ == Seq::<char>::empty()
        &&& self.port@ == Seq::<char>::empty()
        &&& !self.minimap
    }
}

impl RaziConfig {
    /// Every field empty, false or absent.
    pub open spec fn is_default(&self) -> bool {
        &&& self.discord.is_default()
        &&& self.kag_server is None
    }
}

impl Default for Discord {
    fn default() -> (d: Self)
        ensures
            d.is_default(),
    {
        Discord {
            release_token: String::new(),
            test_token: String::new(),
            prefixes: Vec::new(),
            allowed_channels: Vec::new(),
            owners: Vec::new(),
            release_run: false,
            admin_roles: Vec::new(),
        }
    }
}

impl Default for KagServer {
    fn default() -> (k: Self)
        ensures
            k.is_default(),
    {
        KagServer { names: Vec::new(), ip: String::new(), port: String::new(), minimap: false }
    }
}

impl Default for RaziConfig {
    fn default() -> (c: Self)
        ensures
            c.is_default(),
    {
        RaziConfig { discord: Discord::default(), kag_server: None }
    }
}

impl RaziConfig {
    /// Settings with every field empty, false or absent.
    pub fn new() -> (c: RaziConfig)
        ensures
            c.is_default(),
    {
        RaziConfig::default()
    }

    /// The settings from the settings file. A file that is missing, cannot be
    /// read or does not parse stops the program before this is called (see
    /// `source_failure` and `failure_message`).
    pub fn get_config(source: ConfigSource<RaziConfig>) -> (c: RaziConfig)
        requires
            source is Parsed,
        ensures
            c == source->Parsed_0,
    {
        RaziConfig::get_razi_config(source)
    }

    fn get_razi_config(source: ConfigSource<RaziConfig>) -> (c: RaziConfig)
        requires
            source is Parsed,
        ensures
            c == source->Parsed_0,
    {
        match source {
            ConfigSource::Parsed(c) => c,
            _ => vstd::pervasive::unreached(),
        }
    }
}

/// The message the program stops with when the settings cannot be had: a
/// parse failure ends in unwrapping a missing value.
pub open spec fn spec_failure_message(e: ConfigError) -> Seq<char> {
    match e {
        ConfigError::NotFound => "File could not be found"@,
        ConfigError::Unreadable(d) => "File could not be read! "@ + d@,
        ConfigError::NotToml(_) => "called `Option::unwrap()` on a `None` value"@,
    }
}

/// The message the program stops with when the settings cannot be had.
pub fn failure_message(e: &ConfigError) -> (r: String)
    ensures
        r@ == spec_failure_message(*e),
{
    match e {
        ConfigError::NotFound => String::from_str("File could not be found"),
        ConfigError::Unreadable(d) => String::from_str("File could not be read! ").concat(d.as_str()),
        ConfigError::NotToml(_) => String::from_str("called `Option::unwrap()` on a `None` value"),
    }
}

} // verus!
