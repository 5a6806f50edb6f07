use razi::config_file::source_failure;
use razi::config_file::ConfigError;
use razi::config_file::ConfigSource;
use razi::razi_toml::Config;
use razi::settings::toml::RaziConfig;

fn earliest(token: &str) -> razi::toml::RaziConfig {
    razi::toml::RaziConfig {
        discord: razi::toml::Discord {
            token: token.to_string(),
            prefix: ".".to_string(),
            allowed_channels: vec![1, 2],
            owners: vec![3],
        },
    }
}

fn configured(token: &str) -> Config {
    let mut c = Config::default();
    c.discord.token = token.to_string();
    c.discord.prefix = ".".to_string();
    c.discord.owners = Some(vec![1]);
    c
}

#[test]
fn configuration_read_at_start_is_the_files() {
    let c = Config::read_from_file(ConfigSource::Parsed(configured("abc")));
    assert_eq!(c.discord.token, "abc");
    assert_eq!(c.discord.prefix, ".");
    assert_eq!(c.discord.owners, Some(vec![1]));
    assert!(c.discord.admin_roles.is_none());
    assert!(c.kag_servers.is_none());
}

#[test]
fn configuration_that_cannot_be_read_stops_the_program() {
    let e = source_failure(&ConfigSource::<Config>::Missing).unwrap();
    assert_eq!(razi::razi_toml::failure_message(&e), "File could not be found");
    let e = source_failure(&ConfigSource::<Config>::Malformed("missing field `token`".to_string()))
        .unwrap();
    assert_eq!(e.log_line().unwrap(), "Couldnt convert to toml! missing field `token`");
    assert_eq!(razi::razi_toml::failure_message(&e), "Exiting due to toml conversion failure");
    let e = source_failure(&ConfigSource::<Config>::Unreadable("Os".to_string())).unwrap();
    assert_eq!(razi::razi_toml::failure_message(&e), "File could not be read! Os");
    assert!(source_failure(&ConfigSource::Parsed(configured("x"))).is_none());
}

#[test]
fn reloading_replaces_the_configuration() {
    let mut c = configured("old");
    c.load_config(ConfigSource::Parsed(configured("new")));
    assert_eq!(c.discord.token, "new");
}

#[test]
fn token_comes_from_the_parsed_settings() {
    let token = razi::toml::get_discord_token(ConfigSource::Parsed(earliest("SECRET-REDACTED")));
    assert_eq!(token, "SECRET-REDACTED");
    let config = razi::toml::get_config(ConfigSource::Parsed(earliest("abc")));
    assert_eq!(config.discord.owners, vec![3]);
}

#[test]
fn missing_settings_file() {
    let e = source_failure(&ConfigSource::<razi::toml::RaziConfig>::Missing).unwrap();
    assert!(matches!(e, ConfigError::NotFound));
    assert_eq!(razi::toml::failure_message(&e), "File could not be found");
    assert!(e.log_line().is_none());
}

#[test]
fn unreadable_settings_file() {
    let e = source_failure(&ConfigSource::<razi::toml::RaziConfig>::Unreadable(
        "Os { code: 21 }".to_string(),
    ))
    .unwrap();
    assert_eq!(razi::toml::failure_message(&e), "File could not be read! Os { code: 21 }");
}

#[test]
fn malformed_settings_file() {
    let e = source_failure(&ConfigSource::<RaziConfig>::Malformed("expected `=`".to_string()))
        .unwrap();
    assert_eq!(e.log_line().unwrap(), "Couldnt convert to toml! expected `=`");
    assert_eq!(razi::toml::failure_message(&e), "Exiting due to toml conversion failure");
    assert_eq!(
        razi::settings::toml::failure_message(&e),
        "called `Option::unwrap()` on a `None` value"
    );
}

#[test]
fn settings_layout_defaults_and_reading() {
    let c = RaziConfig::new();
    assert!(c.kag_server.is_none());
    assert!(c.discord.owners.is_empty());
    assert!(!c.discord.release_run);
    let mut parsed = RaziConfig::new();
    parsed.discord.release_token = "t".to_string();
    let got = RaziConfig::get_config(ConfigSource::Parsed(parsed));
    assert_eq!(got.discord.release_token, "t");
}
