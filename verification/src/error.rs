//! The errors of the plugin runtime, with the text each one reports.

use vstd::prelude::*;
use vstd::string::StringExecFns;

verus! {

/// An error body returned by Herdr: a machine-readable code and a message.
#[derive(Clone, Debug, Eq, PartialEq)]
pub struct HerdrCommandError {
    pub code: String,
    pub message: String,
}

/// Why the plugin config could not be loaded.
#[derive(Debug, Clone, PartialEq, Eq)]
pub enum ConfigError {
    MissingConfigDir,
    Read { path: String, detail: String },
    Parse { path: String, detail: String },
}

/// Why a plugin run failed. `detail` holds the underlying error's text.
#[derive(Debug, Clone, PartialEq, Eq)]
pub enum RuntimeError {
    InvalidEventJson { json: String, detail: String },
    Setup { detail: String },
    Teardown { detail: String },
    Config { source: ConfigError },
    MissingSocketPath,
    SocketIo { path: String, detail: String },
    SocketSubscription { message: String },
    InvalidSocketJson { json: String, detail: String },
}

/// The text an error reports, as error handlers receive it.
pub open spec fn runtime_error_message(error: RuntimeError) -> Seq<char> {
    match error {
        RuntimeError::InvalidEventJson { .. } => "invalid HERDR_PLUGIN_EVENT_JSON"@,
        RuntimeError::Setup { .. } => "setup callback failed"@,
        RuntimeError::Teardown { .. } => "teardown callback failed"@,
        RuntimeError::Config { .. } => "failed to load plugin config"@,
        RuntimeError::MissingSocketPath => "HERDR_SOCKET_PATH is required by the socket runtime"@,
        RuntimeError::SocketIo { path, .. } => "socket I/O failed at "@ + path@,
        RuntimeError::SocketSubscription { message } => "socket subscription failed: "@ + message@,
        RuntimeError::InvalidSocketJson { .. } => "invalid JSON from the Herdr socket"@,
    }
}

impl RuntimeError {
    /// The text this error reports.
    pub fn message(&self) -> (m: String)
        ensures
            m@ == runtime_error_message(*self),
    {
        match self {
            RuntimeError::InvalidEventJson { .. } => "invalid HERDR_PLUGIN_EVENT_JSON".to_owned(),
            RuntimeError::Setup { .. } => "setup callback failed".to_owned(),
            RuntimeError::Teardown { .. } => "teardown callback failed".to_owned(),
            RuntimeError::Config { .. } => "failed to load plugin config".to_owned(),
            RuntimeError::MissingSocketPath => "HERDR_SOCKET_PATH is required by the socket runtime".to_owned(),
            RuntimeError::SocketIo { path, .. } => {
                let mut m = "socket I/O failed at ".to_owned();
                m.append(path.as_str());
                m
            },
            RuntimeError::SocketSubscription { message } => {
                let mut m = "socket subscription failed: ".to_owned();
                m.append(message.as_str());
                m
            },
            RuntimeError::InvalidSocketJson { .. } => "invalid JSON from the Herdr socket".to_owned(),
        }
    }
}

/// The text a config error reports.
pub open spec fn config_error_message(error: ConfigError) -> Seq<char> {
    match error {
        ConfigError::MissingConfigDir => "HERDR_PLUGIN_CONFIG_DIR is required to load a relative config path"@,
        ConfigError::Read { path, .. } => "failed to read config file at "@ + path@,
        ConfigError::Parse { path, .. } => "failed to parse config file at "@ + path@,
    }
}

impl ConfigError {
    /// The text this error reports.
    pub fn message(&self) -> (m: String)
        ensures
            m@ == config_error_message(*self),
    {
        match self {
            ConfigError::MissingConfigDir => "HERDR_PLUGIN_CONFIG_DIR is required to load a relative config path".to_owned(),
            ConfigError::Read { path, .. } => {
                let mut m = "failed to read config file at ".to_owned();
                m.append(path.as_str());
                m
            },
            ConfigError::Parse { path, .. } => {
                let mut m = "failed to parse config file at ".to_owned();
                m.append(path.as_str());
                m
            },
        }
    }
}

} // verus!
