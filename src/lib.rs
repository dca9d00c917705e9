//! A small framework for command-line programs: a configuration built from the
//! standard flags, commands guarded by predicates, and a dispatcher that runs
//! exactly one of them per invocation, chosen by priority.

pub mod builder;
pub mod command;
pub mod commands;
pub mod config;
pub mod dispatcher;
pub mod version;

pub use builder::base_config_from_flags;
pub use command::{Command, CommandError, Outcome, DEFAULT_PRIORITY};
pub use commands::{HelpCommand, VersionCommand};
pub use config::{BaseConfig, CliConfig, HelpType};
pub use dispatcher::{DispatchError, Dispatcher, Handler};
pub use version::{BuildInfo, Version};
