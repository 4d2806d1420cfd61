//! Building a plugin app: the client it uses, its state and typed config, the
//! runtime that drives it, and the services a run starts with.

use vstd::prelude::*;
use std::sync::Arc;
use crate::client::HerdrClient;
use crate::config::{config_location, resolve_config_path};
use crate::env::{EventSourceOutput, HerdrEnv};
use crate::error::RuntimeError;
use crate::events::RuntimeEvent;
use crate::json::opt_view;

verus! {

/// The runtime that dispatches the one event a plugin was invoked for, then
/// stops.
#[derive(Debug, Default, Clone, Copy)]
pub struct OneShotRuntime;

impl OneShotRuntime {
    /// The one-shot runtime.
    pub fn new() -> (r: Self)
        ensures
            r == OneShotRuntime,
    {
        OneShotRuntime
    }
}

/// Settings of an app under construction. Paths are held as text.
pub struct AppBuilder<State, Config, AppRuntime> {
    /// The client handlers use, when one was given.
    pub client: Option<Arc<HerdrClient>>,
    pub state: State,
    pub config: Config,
    /// The config file to load at startup, as given.
    pub config_path: Option<String>,
    /// The Herdr binary that replaces the one the environment names.
    pub herdr_bin_path_override: Option<String>,
    pub runtime: AppRuntime,
}

impl AppBuilder<(), (), OneShotRuntime> {
    /// A builder with no client, no state, no config and the one-shot runtime.
    pub fn new() -> (b: Self)
        ensures
            b.client is None,
            b.config_path is None,
            b.herdr_bin_path_override is None,
            b.runtime == OneShotRuntime,
    {
        AppBuilder {
            client: None,
            state: (),
            config: (),
            config_path: None,
            herdr_bin_path_override: None,
            runtime: OneShotRuntime::new(),
        }
    }
}

impl<CurrentState, Config, AppRuntime> AppBuilder<CurrentState, Config, AppRuntime> {
    /// Uses an existing Herdr client handle.
    pub fn with_client(self, client: Arc<HerdrClient>) -> (b: Self)
        ensures
            b == (AppBuilder { client: Some(client), ..self }),
    {
        AppBuilder { client: Some(client), ..self }
    }

    /// Attaches typed state that callbacks and event handlers can access.
    pub fn with_state<State>(self, state: State) -> (b: AppBuilder<State, Config, AppRuntime>)
        ensures
            b.client == self.client,
            b.state == state,
            b.config == self.config,
            b.config_path == self.config_path,
            b.herdr_bin_path_override == self.herdr_bin_path_override,
            b.runtime == self.runtime,
    {
        AppBuilder {
            client: self.client,
            state,
            config: self.config,
            config_path: self.config_path,
            herdr_bin_path_override: self.herdr_bin_path_override,
            runtime: self.runtime,
        }
    }

    /// Sets the runtime that drives the app.
    pub fn runtime<NextRuntime>(self, runtime: NextRuntime) -> (b: AppBuilder<CurrentState, Config, NextRuntime>)
        ensures
            b.client == self.client,
            b.state == self.state,
            b.config == self.config,
            b.config_path == self.config_path,
            b.herdr_bin_path_override == self.herdr_bin_path_override,
            b.runtime == runtime,
    {
        AppBuilder {
            client: self.client,
            state: self.state,
            config: self.config,
            config_path: self.config_path,
            herdr_bin_path_override: self.herdr_bin_path_override,
            runtime,
        }
    }

    /// Loads typed config from `config.toml` in the plugin's config directory.
    /// Until it is loaded the config is its default value.
    pub fn with_config<NextConfig: Default>(self) -> (b: AppBuilder<CurrentState, NextConfig, AppRuntime>)
        ensures
            b.client == self.client,
            b.state == self.state,
            NextConfig::default.ensures((), b.config),
            opt_view(b.config_path) == Some("config.toml"@),
            b.herdr_bin_path_override == self.herdr_bin_path_override,
            b.runtime == self.runtime,
    {
        self.with_config_file("config.toml")
    }

    /// Loads typed config from the TOML file at `path`. A relative path is
    /// resolved under the plugin's config directory; an absolute one is used
    /// as it is. Until it is loaded the config is its default value.
    pub fn with_config_file<NextConfig: Default>(self, path: &str) -> (b: AppBuilder<
        CurrentState,
        NextConfig,
        AppRuntime,
    >)
        ensures
            b.client == self.client,
            b.state == self.state,
            NextConfig::default.ensures((), b.config),
            opt_view(b.config_path) == Some(path@),
            b.herdr_bin_path_override == self.herdr_bin_path_override,
            b.runtime == self.runtime,
    {
        AppBuilder {
            client: self.client,
            state: self.state,
            config: NextConfig::default(),
            config_path: Some(path.to_owned()),
            herdr_bin_path_override: self.herdr_bin_path_override,
            runtime: self.runtime,
        }
    }

    /// The same as `with_config_file`, for a path that may be absolute.
    pub fn with_config_path<NextConfig: Default>(self, path: &str) -> (b: AppBuilder<
        CurrentState,
        NextConfig,
        AppRuntime,
    >)
        ensures
            b.client == self.client,
            b.state == self.state,
            NextConfig::default.ensures((), b.config),
            opt_view(b.config_path) == Some(path@),
            b.herdr_bin_path_override == self.herdr_bin_path_override,
            b.runtime == self.runtime,
    {
        self.with_config_file(path)
    }

    /// Runs the Herdr binary at `path`, both for the client handlers use and
    /// in place of the binary the environment names.
    pub fn with_herdr_bin_path(self, path: &str) -> (b: Self)
        ensures
            b.client matches Some(c) && c.spec_binary() == path@,
            opt_view(b.herdr_bin_path_override) == Some(path@),
            b.state == self.state,
            b.config == self.config,
            b.config_path == self.config_path,
            b.runtime == self.runtime,
    {
        let client = Arc::new(HerdrClient::with_binary(path.to_owned()));
        AppBuilder { client: Some(client), herdr_bin_path_override: Some(path.to_owned()), ..self }
    }
}

/// What a run starts with, besides its callbacks and config value.
pub struct RunSettings {
    /// The client handlers use, when one was given.
    pub client: Option<Arc<HerdrClient>>,
    /// The config file to load, as given.
    pub config_path: Option<String>,
    /// The Herdr binary that replaces the one the environment names.
    pub herdr_bin_path_override: Option<String>,
}

/// The services of a run once it is initialized.
pub struct RunServices {
    /// The environment, with the Herdr binary the run uses.
    pub env: HerdrEnv,
    /// The client handlers use.
    pub client: Arc<HerdrClient>,
    /// The config file to load, resolved; `None` when the app's own config
    /// value is used.
    pub config_file: Option<String>,
    /// The event the plugin was invoked for, if any.
    pub event: Option<RuntimeEvent>,
}

/// The Herdr binary the run's environment names: the override when there is
/// one, otherwise the environment's own.
pub open spec fn run_bin_path(settings: RunSettings, env: HerdrEnv) -> Option<String> {
    match settings.herdr_bin_path_override {
        Some(p) => Some(p),
        None => env.bin_path,
    }
}

/// The binary of the client a run creates when none was given: the run's
/// binary, or else the value of `HERDR_BIN_PATH` as read, or else `herdr`.
pub open spec fn default_client_binary(bin_path: Option<String>, bin_path_var: Option<String>) -> Seq<char> {
    match bin_path {
        Some(b) => b@,
        None => match bin_path_var {
            Some(v) => v@,
            None => "herdr"@,
        },
    }
}

/// A binary set on the builder wins over the one the environment names, and
/// a client the run creates then runs it; without one, the run keeps the
/// environment's binary.
pub proof fn lemma_override_wins(settings: RunSettings, env: HerdrEnv, bin_path_var: Option<String>)
    ensures
        settings.herdr_bin_path_override matches Some(p) ==> run_bin_path(settings, env) == Some(p)
            && default_client_binary(run_bin_path(settings, env), bin_path_var) == p@,
        settings.herdr_bin_path_override is None ==> run_bin_path(settings, env) == env.bin_path,
{
}

impl RunSettings {
    /// Initializes a run from what the event source read. `bin_path_var` is
    /// the raw value of `HERDR_BIN_PATH`. Fails only when a relative config
    /// path has no config directory to resolve under.
    pub fn initialize(self, output: EventSourceOutput, bin_path_var: Option<String>) -> (r: Result<RunServices, RuntimeError>)
        ensures
            match self.config_path {
                Some(p) => config_location(output.env, p@) is None,
                None => false,
            } <==> r is Err,
            r is Err ==> r == Err::<RunServices, RuntimeError>(
                RuntimeError::Config { source: crate::error::ConfigError::MissingConfigDir },
            ),
            r matches Ok(s) ==> {
                &&& s.env == (HerdrEnv { bin_path: run_bin_path(self, output.env), ..output.env })
                &&& s.event == output.event
                &&& match self.client {
                    Some(c) => s.client == c,
                    None => s.client.spec_binary() == default_client_binary(
                        run_bin_path(self, output.env),
                        bin_path_var,
                    ),
                }
                &&& opt_view(s.config_file) == match self.config_path {
                    Some(p) => config_location(output.env, p@),
                    None => None,
                }
            },
    {
        let RunSettings { client, config_path, herdr_bin_path_override } = self;
        let EventSourceOutput { env, event } = output;
        let bin_path = match herdr_bin_path_override {
            Some(p) => Some(p),
            None => env.bin_path,
        };
        let env = HerdrEnv { bin_path, ..env };
        let client = match client {
            Some(c) => c,
            None => match &env.bin_path {
                Some(b) => Arc::new(HerdrClient::with_binary(b.clone())),
                None => Arc::new(HerdrClient::from_bin_path_var(bin_path_var)),
            },
        };
        let config_file = match config_path {
            Some(p) => match resolve_config_path(&env, p.as_str()) {
                Ok(file) => Some(file),
                Err(source) => return Err(RuntimeError::Config { source }),
            },
            None => None,
        };
        Ok(RunServices { env, client, config_file, event })
    }
}

} // verus!
