use vstd::prelude::*;

use crate::config::CliConfig;

verus! {

/// The priority of an ordinary application command.
pub const DEFAULT_PRIORITY: u8 = 100;

/// What a command leaves for its caller once it has run.
#[derive(Debug, Clone, PartialEq, Eq)]
pub enum Outcome {
    /// The command did all of its work itself.
    Done,
    /// The command's result is this text, which the caller writes to standard output.
    Print(String),
}

/// The failure of a command, with its message passed on unchanged.
#[derive(Debug, Clone, PartialEq, Eq)]
pub struct CommandError {
    pub message: String,
}

impl CommandError {
    pub fn new(message: String) -> (r: Self)
        ensures
            r.message == message,
    {
        CommandError { message }
    }
}

/// A unit of behaviour, guarded by a predicate over the configuration and
/// ordered by a priority: lower numbers are tried first.
///
/// `can_handle` must be a pure function of the command and the configuration,
/// which `handles` names; `priority` is a fixed key of the command, which `rank`
/// names. Built-in commands take 0 and 1; others normally take `DEFAULT_PRIORITY`.
/// `executes` states what `execute` may return for a configuration.
/// An implementation outside verified code defines `handles` by calling
/// `can_handle`, `rank` by calling `priority`, and `executes` by comparing with
/// what `execute` returns, or as `true` where that depends on the outside world.
pub trait Command<C: CliConfig> {
    /// Whether this command takes a request made with `config`.
    spec fn handles(&self, config: C) -> bool;

    /// This command's priority.
    spec fn rank(&self) -> u8;

    fn can_handle(&self, config: &C) -> (r: bool)
        ensures
            r == self.handles(*config),
    ;

    /// Whether `r` is a result that running this command with `config` may give.
    spec fn executes(&self, config: C, r: Result<Outcome, CommandError>) -> bool;

    /// Runs the command. A failure is reported as it came, and never retried.
    fn execute(&self, config: &C) -> (r: Result<Outcome, CommandError>)
        ensures
            self.executes(*config, r),
    ;

    fn priority(&self) -> (r: u8)
        ensures
            r == self.rank(),
    ;
}

} // verus!
