use vstd::prelude::*;

use crate::command::{Command, CommandError, Outcome};
use crate::config::{BaseConfig, CliConfig, HelpType};

verus! {

/// The priority of the built-in help command.
pub const HELP_PRIORITY: u8 = 1;

/// The built-in command that shows the short or the long help text.
#[derive(Debug, Clone)]
pub struct HelpCommand {
    pub short_help: String,
    pub long_help: String,
}

impl HelpCommand {
    /// The text shown for `base`: the long one for `--help`, the short one otherwise.
    pub open spec fn text_for(self, base: BaseConfig) -> Seq<char> {
        if base.help == HelpType::Long {
            self.long_help@
        } else {
            self.short_help@
        }
    }

    pub fn new(short_help: String, long_help: String) -> (r: Self)
        ensures
            r.short_help == short_help,
            r.long_help == long_help,
    {
        HelpCommand { short_help, long_help }
    }

    /// The help text that answers `config`.
    pub fn text<C: CliConfig>(&self, config: &C) -> (r: String)
        ensures
            r@ == self.text_for(config.base_view()),
    {
        if config.wants_long_help() {
            self.long_help.clone()
        } else {
            self.short_help.clone()
        }
    }
}

impl<C: CliConfig> Command<C> for HelpCommand {
    open spec fn handles(&self, config: C) -> bool {
        config.base_view().help != HelpType::NotRequested
    }

    open spec fn rank(&self) -> u8 {
        HELP_PRIORITY
    }

    fn can_handle(&self, config: &C) -> (r: bool) {
        config.wants_help()
    }

    open spec fn executes(&self, config: C, r: Result<Outcome, CommandError>) -> bool {
        r matches Ok(Outcome::Print(s)) && s@ == self.text_for(config.base_view())
    }

    fn execute(&self, config: &C) -> (r: Result<Outcome, CommandError>)
        ensures
            r matches Ok(Outcome::Print(s)) && s@ == self.text_for(config.base_view()),
    {
        Ok(Outcome::Print(self.text(config)))
    }

    fn priority(&self) -> (r: u8) {
        HELP_PRIORITY
    }
}

} // verus!
