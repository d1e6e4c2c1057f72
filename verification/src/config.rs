//! Configuration of the admission controller: the inbox capacity and the
//! strategy that resolves an admission into a full inbox.

use vstd::prelude::*;
use crate::cli::CliError;
use crate::textops::{parse_u32, spec_parse_u32, str_eq};

verus! {

/// Policy for admitting into a full inbox: refuse, evict the first Todo
/// item, or evict the oldest item unconditionally.
#[derive(Debug, Clone, Copy, PartialEq, Eq, Structural)]
pub enum OverflowStrategy {
    Abort,
    Todo,
    Any,
}

/// The settings the core consumes read-only.
#[derive(Debug, Clone, Copy, PartialEq, Eq, Structural)]
pub struct Config {
    pub max_items: u32,
    pub archive_on_overflow: OverflowStrategy,
    pub version: u8,
}

impl Config {
    /// The default settings: thirty slots, refuse on overflow.
    pub fn new() -> (r: Self)
        ensures
            r == (Config { max_items: 30, archive_on_overflow: OverflowStrategy::Abort, version: 1 }),
    {
        Config { max_items: 30, archive_on_overflow: OverflowStrategy::Abort, version: 1 }
    }
}

impl Default for Config {
    fn default() -> (r: Self)
        ensures
            r == (Config { max_items: 30, archive_on_overflow: OverflowStrategy::Abort, version: 1 }),
    {
        Config::new()
    }
}

/// An in-memory holder of the settings.  Loading from and saving to disk
/// happen outside the library; this type only carries the loaded value.
#[derive(Debug, Clone, Copy, PartialEq, Eq, Structural)]
pub struct ConfigManager {
    config: Config,
}

impl ConfigManager {
    /// The configuration this manager holds.
    pub closed spec fn spec_config(&self) -> Config {
        self.config
    }

    /// Wraps an already-loaded configuration.
    pub fn with_config(config: Config) -> (r: Self)
        ensures
            r.spec_config() == config,
    {
        ConfigManager { config }
    }

    /// The held configuration.
    pub fn get(&self) -> (r: &Config)
        ensures
            *r == self.spec_config(),
    {
        &self.config
    }

    /// Replaces the held configuration; the caller persists it.
    pub fn update(&mut self, config: Config)
        ensures
            final(self).spec_config() == config,
    {
        self.config = config;
    }
}

/// Applies one `set` request to the configuration.  `max_items` accepts a
/// decimal capacity between 1 and 1000; `archive_on_overflow` accepts the
/// three strategy names.  A bad value or an unknown key leaves the
/// configuration unchanged and names the fault.
pub fn apply_config_set(config: Config, key: &str, value: &str) -> (r: (
    Config,
    Result<(), CliError>,
))
    ensures
        key@ == "max_items"@ ==> match spec_parse_u32(value@) {
            Some(v) => if 1 <= v <= 1000 {
                r.0 == (Config { max_items: v, ..config }) && r.1 is Ok
            } else {
                r.0 == config && (r.1 matches Err(CliError::InvalidMaxItems { value: t }) && t@
                    == value@)
            },
            None => r.0 == config && (r.1 matches Err(CliError::InvalidMaxItems { value: t }) && t@
                == value@),
        },
        key@ == "archive_on_overflow"@ ==> {
            &&& value@ == "abort"@ ==> r.0 == (Config {
                archive_on_overflow: OverflowStrategy::Abort,
                ..config
            }) && r.1 is Ok
            &&& value@ == "todo"@ ==> r.0 == (Config {
                archive_on_overflow: OverflowStrategy::Todo,
                ..config
            }) && r.1 is Ok
            &&& value@ == "any"@ ==> r.0 == (Config {
                archive_on_overflow: OverflowStrategy::Any,
                ..config
            }) && r.1 is Ok
            &&& (value@ != "abort"@ && value@ != "todo"@ && value@ != "any"@) ==> r.0 == config && (
            r.1 matches Err(CliError::InvalidOverflowStrategy { value: t }) && t@ == value@)
        },
        (key@ != "max_items"@ && key@ != "archive_on_overflow"@) ==> r.0 == config && (
        r.1 matches Err(CliError::UnknownConfigKey { key: k }) && k@ == key@),
{
    proof {
        reveal_strlit("max_items");
        reveal_strlit("archive_on_overflow");
        reveal_strlit("abort");
        reveal_strlit("todo");
        reveal_strlit("any");
        assert("max_items"@.len() == 9);
        assert("archive_on_overflow"@.len() == 19);
        assert("max_items"@ != "archive_on_overflow"@);
        assert("abort"@.len() == 5);
        assert("todo"@.len() == 4);
        assert("any"@.len() == 3);
        assert("abort"@ != "todo"@);
        assert("abort"@ != "any"@);
        assert("todo"@ != "any"@);
    }
    if str_eq(key, "max_items") {
        match parse_u32(value) {
            Some(v) => {
                if 1 <= v && v <= 1000 {
                    (Config { max_items: v, ..config }, Ok(()))
                } else {
                    (config, Err(CliError::InvalidMaxItems { value: value.to_owned() }))
                }
            }
            None => (config, Err(CliError::InvalidMaxItems { value: value.to_owned() })),
        }
    } else if str_eq(key, "archive_on_overflow") {
        if str_eq(value, "abort") {
            (Config { archive_on_overflow: OverflowStrategy::Abort, ..config }, Ok(()))
        } else if str_eq(value, "todo") {
            (Config { archive_on_overflow: OverflowStrategy::Todo, ..config }, Ok(()))
        } else if str_eq(value, "any") {
            (Config { archive_on_overflow: OverflowStrategy::Any, ..config }, Ok(()))
        } else {
            (config, Err(CliError::InvalidOverflowStrategy { value: value.to_owned() }))
        }
    } else {
        (config, Err(CliError::UnknownConfigKey { key: key.to_owned() }))
    }
}

} // verus!
