//! The bot's configuration, as the `Razi.toml` file describes it.
use vstd::prelude::*;
use crate::config_file::ConfigError;
use crate::config_file::ConfigSource;

verus! {

/// The whole configuration.
#[derive(Clone)]
pub struct Config {
    pub discord: Discord,
    pub kag_servers: Option<Vec<KagServer>>,
}

/// The `[discord]` table.
#[derive(Clone)]
pub struct Discord {
    pub token: String,
    pub prefix: String,
    pub owners: Option<Vec<u64>>,
    pub admin_roles: Option<Vec<String>>,
    pub bot_channels: Option<Vec<u64>>,
}

/// One `[[kag_servers]]` entry: a game server that the status command knows.
#[derive(Clone)]
pub struct KagServer {
    pub name: String,
    pub aliases: Option<Vec<String>>,
    pub minimap: bool,
    pub address: String,
}

impl Discord {
    /// Every field empty or absent.
    pub open spec fn is_default(&self) -> bool {
        &&& self.token@ == Seq::<char>::empty()
        &&& self.prefix@ == Seq::<char>::empty()
        &&& self.owners is None
        &&& self.admin_roles is None
        &&& self.bot_channels is None
    }
}

impl KagServer {
    /// Every field empty, absent or false.
    pub open spec fn is_default(&self) -> bool {
        &&& self.name@ == Seq::<char>::empty()
        &&& self.aliases is None
        &&& !self.minimap
        &&& self.address@ == Seq::<char>::empty()
    }
}

impl Config {
    /// The configuration with every field empty or absent.
    pub open spec fn is_default(&self) -> bool {
        &&& self.discord.is_default()
        &&& self.kag_servers is None
    }
}

impl Default for Discord {
    fn default() -> (d: Self)
        ensures
            d.is_default(),
    {
        Discord {
            token: String::new(),
            prefix: String::new(),
            owners: None,
            admin_roles: None,
            bot_channels: None,
        }
    }
}

impl Default for KagServer {
    fn default() -> (k: Self)
        ensures
            k.is_default(),
    {
        KagServer { name: String::new(), aliases: None, minimap: false, address: String::new() }
    }
}

impl Default for Config {
    fn default() -> (c: Self)
        ensures
            c.is_default(),
    {
        Config { discord: Discord::default(), kag_servers: None }
    }
}

impl Config {
    /// The configuration that the bot starts with: the one parsed from the
    /// settings file `./Razi.toml`. A file that is missing, cannot be read or
    /// does not hold a configuration (a token among it) stops the program
    /// before this is called (see `source_failure` and `failure_message`).
    pub fn read_from_file(source: ConfigSource<Config>) -> (c: Config)
        requires
            source is Parsed,
        ensures
            c == source->Parsed_0,
    {
        match source {
            ConfigSource::Parsed(c) => c,
            _ => vstd::pervasive::unreached(),
        }
    }

    /// Reloads the configuration from the settings file: the parsed
    /// configuration replaces this one. A file that cannot be had stops the
    /// program before this is called.
    pub fn load_config(&mut self, source: ConfigSource<Config>)
        requires
            source is Parsed,
        ensures
            *final(self) == source->Parsed_0,
    {
        *self = Config::read_from_file(source);
    }
}

/// The message the program stops with when the configuration cannot be had.
pub open spec fn spec_failure_message(e: ConfigError) -> Seq<char> {
    match e {
        ConfigError::NotFound => "File could not be found"@,
        ConfigError::Unreadable(d) => "File could not be read! "@ + d@,
        ConfigError::NotToml(_) => "Exiting due to toml conversion failure"@,
    }
}

/// The message the program stops with when the configuration cannot be had.
pub fn failure_message(e: &ConfigError) -> (r: String)
    ensures
        r@ == spec_failure_message(*e),
{
    match e {
        ConfigError::NotFound => String::from_str("File could not be found"),
        ConfigError::Unreadable(d) => String::from_str("File could not be read! ").concat(d.as_str()),
        ConfigError::NotToml(_) => String::from_str("Exiting due to toml conversion failure"),
    }
}

} // verus!
