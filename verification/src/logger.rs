//! The lines a plugin logs: a level, the plugin's id, and the message.

use vstd::prelude::*;
use vstd::string::StringExecFns;
use crate::env::HerdrEnv;
use crate::json::opt_view;

verus! {

/// The line logged at `level` with `message` by the plugin `plugin_id`;
/// a plugin without an id logs as `herdr-plugin`.
pub open spec fn log_line(plugin_id: Option<Seq<char>>, level: Seq<char>, message: Seq<char>) -> Seq<char> {
    let id = match plugin_id {
        Some(id) => id,
        None => "herdr-plugin"@,
    };
    "["@ + level + "] "@ + id + ": "@ + message
}

/// Minimal logger for plugin code. Each method returns the line that goes to
/// standard error.
pub struct Logger<'a> {
    env: &'a HerdrEnv,
}

impl<'a> Logger<'a> {
    /// The environment whose plugin id the lines carry.
    pub closed spec fn spec_env(&self) -> HerdrEnv {
        *self.env
    }

    /// A logger for the plugin that `env` describes.
    pub fn new(env: &'a HerdrEnv) -> (l: Self)
        ensures
            l.spec_env() == *env,
    {
        Logger { env }
    }

    /// The line for `message` at `level`.
    fn line(&self, level: &str, message: &str) -> (s: String)
        ensures
            s@ == log_line(opt_view(self.env.plugin_id), level@, message@),
    {
        let mut s = "[".to_owned();
        s.append(level);
        s.append("] ");
        match &self.env.plugin_id {
            Some(id) => s.append(id.as_str()),
            None => s.append("herdr-plugin"),
        }
        s.append(": ");
        s.append(message);
        s
    }

    /// The line that logs `message` as information.
    pub fn info(&self, message: &str) -> (s: String)
        ensures
            s@ == log_line(opt_view(self.spec_env().plugin_id), "INFO"@, message@),
    {
        self.line("INFO", message)
    }

    /// The line that logs `message` as a warning.
    pub fn warn(&self, message: &str) -> (s: String)
        ensures
            s@ == log_line(opt_view(self.spec_env().plugin_id), "WARN"@, message@),
    {
        self.line("WARN", message)
    }

    /// The line that logs `message` as an error.
    pub fn error(&self, message: &str) -> (s: String)
        ensures
            s@ == log_line(opt_view(self.spec_env().plugin_id), "ERROR"@, message@),
    {
        self.line("ERROR", message)
    }
}

} // verus!
