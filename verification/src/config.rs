//! Where a plugin's config file is, and what reading it comes to.
//!
//! A relative config path is resolved under the plugin's config directory;
//! an absolute one is used as it is. A config file that does not exist means
//! the config's default value; one that cannot be read is an error.

use vstd::prelude::*;
use crate::env::HerdrEnv;
use crate::error::ConfigError;
use crate::paths::{is_absolute, join_path, joined, spec_is_absolute};

verus! {

/// The config file that `path` names in `env`: `path` itself when it is
/// absolute, otherwise `path` under the plugin's config directory.
pub open spec fn config_location(env: HerdrEnv, path: Seq<char>) -> Option<Seq<char>> {
    if spec_is_absolute(path) {
        Some(path)
    } else {
        match env.plugin_config_dir {
            Some(dir) => Some(joined(dir@, path)),
            None => None,
        }
    }
}

/// Resolves the config file that `path` names. A relative path without a
/// config directory is `MissingConfigDir`.
pub fn resolve_config_path(env: &HerdrEnv, path: &str) -> (r: Result<String, ConfigError>)
    ensures
        match config_location(*env, path@) {
            Some(p) => r matches Ok(q) && q@ == p,
            None => r == Err::<String, ConfigError>(ConfigError::MissingConfigDir),
        },
{
    if is_absolute(path) {
        return Ok(path.to_owned());
    }
    match &env.plugin_config_dir {
        Some(dir) => Ok(join_path(dir.as_str(), path)),
        None => Err(ConfigError::MissingConfigDir),
    }
}

/// What came of reading a config file.
pub enum ConfigFile {
    /// The file's text.
    Contents(String),
    /// There is no file at the path.
    NotFound,
    /// The file could not be read, for this reason.
    Unreadable(String),
}

/// The text to parse the config from, given what reading the file at `path`
/// came to: `None` when there is no file, and the config is its default.
pub fn config_text(path: String, file: ConfigFile) -> (r: Result<Option<String>, ConfigError>)
    ensures
        match file {
            ConfigFile::Contents(text) => r == Ok::<Option<String>, ConfigError>(Some(text)),
            ConfigFile::NotFound => r == Ok::<Option<String>, ConfigError>(None),
            ConfigFile::Unreadable(detail) => r == Err::<Option<String>, ConfigError>(
                ConfigError::Read { path, detail },
            ),
        },
{
    match file {
        ConfigFile::Contents(text) => Ok(Some(text)),
        ConfigFile::NotFound => Ok(None),
        ConfigFile::Unreadable(detail) => Err(ConfigError::Read { path, detail }),
    }
}

/// A relative config path always lands inside the config directory: the
/// resolved path begins with the directory.
pub proof fn lemma_relative_config_stays_in_dir(env: HerdrEnv, path: Seq<char>)
    requires
        !spec_is_absolute(path),
        env.plugin_config_dir is Some,
    ensures
        config_location(env, path) is Some,
        env.plugin_config_dir->0@.is_prefix_of(config_location(env, path)->0),
{
    let dir = env.plugin_config_dir->0@;
    let p = config_location(env, path)->0;
    if dir.len() == 0 {
    } else if dir.last() == '/' {
        assert(p.subrange(0, dir.len() as int) =~= dir);
    } else {
        assert(p.subrange(0, dir.len() as int) =~= dir);
    }
}

} // verus!
