use vstd::prelude::*;
use crate::packages::ManagerList;

verus! {

/// A required setting of the configuration file.
#[derive(Clone, Copy, Debug, PartialEq, Eq, Structural)]
pub enum Field {
    Name,
    Hostname,
    Location,
    Units,
    Lang,
    ApiKey,
    TimeFormat,
}

/// Why a configuration cannot be used.
#[derive(Clone, Copy, Debug, PartialEq, Eq, Structural)]
pub enum ConfigError {
    /// A required setting is absent.
    Missing(Field),
}

/// The settings as found in the configuration file, each possibly absent.
#[derive(Debug)]
pub struct RawConfig {
    pub name: Option<String>,
    pub hostname: Option<String>,
    pub location: Option<String>,
    pub units: Option<String>,
    pub lang: Option<String>,
    pub api_key: Option<String>,
    pub time_format: Option<String>,
    pub song: Option<bool>,
    pub package_managers: ManagerList,
}

/// A configuration with every required setting present.
#[derive(Debug)]
pub struct Config {
    pub name: String,
    pub hostname: String,
    pub location: String,
    pub units: String,
    pub lang: String,
    pub api_key: String,
    pub time_format: String,
    /// Whether the playing song is looked up.
    pub song: bool,
    pub package_managers: ManagerList,
}

/// The first required setting, in the order the fields are declared, that
/// `raw` lacks.
pub open spec fn first_missing(raw: RawConfig) -> Option<Field> {
    if raw.name is None {
        Some(Field::Name)
    } else if raw.hostname is None {
        Some(Field::Hostname)
    } else if raw.location is None {
        Some(Field::Location)
    } else if raw.units is None {
        Some(Field::Units)
    } else if raw.lang is None {
        Some(Field::Lang)
    } else if raw.api_key is None {
        Some(Field::ApiKey)
    } else if raw.time_format is None {
        Some(Field::TimeFormat)
    } else {
        None
    }
}

/// Whether `c` holds what `raw` gives: the same settings, the song lookup
/// on unless `song` is `false`.
pub open spec fn built_from(c: Config, raw: RawConfig) -> bool {
    &&& raw.name == Some(c.name)
    &&& raw.hostname == Some(c.hostname)
    &&& raw.location == Some(c.location)
    &&& raw.units == Some(c.units)
    &&& raw.lang == Some(c.lang)
    &&& raw.api_key == Some(c.api_key)
    &&& raw.time_format == Some(c.time_format)
    &&& c.song == (raw.song != Some(false))
    &&& c.package_managers == raw.package_managers
}

impl Config {
    /// Checks that every required setting is present.
    pub fn from_raw(raw: RawConfig) -> (r: Result<Config, ConfigError>)
        ensures
            match r {
                Ok(c) => first_missing(raw) is None && built_from(c, raw),
                Err(ConfigError::Missing(f)) => first_missing(raw) == Some(f),
            },
    {
        let song = match raw.song {
            Some(b) => b,
            None => true,
        };
        let RawConfig { name, hostname, location, units, lang, api_key, time_format, song: _, package_managers } = raw;
        let name = match name {
            Some(v) => v,
            None => return Err(ConfigError::Missing(Field::Name)),
        };
        let hostname = match hostname {
            Some(v) => v,
            None => return Err(ConfigError::Missing(Field::Hostname)),
        };
        let location = match location {
            Some(v) => v,
            None => return Err(ConfigError::Missing(Field::Location)),
        };
        let units = match units {
            Some(v) => v,
            None => return Err(ConfigError::Missing(Field::Units)),
        };
        let lang = match lang {
            Some(v) => v,
            None => return Err(ConfigError::Missing(Field::Lang)),
        };
        let api_key = match api_key {
            Some(v) => v,
            None => return Err(ConfigError::Missing(Field::ApiKey)),
        };
        let time_format = match time_format {
            Some(v) => v,
            None => return Err(ConfigError::Missing(Field::TimeFormat)),
        };
        Ok(Config { name, hostname, location, units, lang, api_key, time_format, song, package_managers })
    }
}

/// The host name shown in the header row.
pub fn get_hostname(config: &Config) -> (r: String)
    ensures
        r@ == config.hostname@,
{
    config.hostname.clone()
}

} // verus!
