//! Verified core of the Herdr plugin SDK.

pub mod json;
pub mod text;
pub mod events;
pub mod dispatcher;
pub mod paths;
pub mod error;
pub mod env;
pub mod client;
pub mod socket;
pub mod tab;
pub mod workspace;
pub mod session;
pub mod worktree;
pub mod agent;
pub mod pane;
pub mod plugin;
pub mod services;
pub mod lifecycle;
pub mod config;
pub mod logger;
pub mod builder;
pub mod reader;
pub mod models;
