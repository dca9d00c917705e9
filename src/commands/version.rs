use vstd::prelude::*;

use crate::command::{Command, CommandError, Outcome};
use crate::config::CliConfig;
use crate::version::Version;

verus! {

/// The priority of the built-in version command: it wins over every other.
pub const VERSION_PRIORITY: u8 = 0;

/// The built-in command that shows the program's version information.
#[derive(Debug, Clone)]
pub struct VersionCommand {
    pub version: Version,
}

impl VersionCommand {
    pub fn new(version: Version) -> (r: Self)
        ensures
            r.version == version,
    {
        VersionCommand { version }
    }

    /// The version text this command shows.
    pub fn text(&self) -> (r: String)
        ensures
            r@ == self.version.text(),
    {
        self.version.to_string()
    }
}

impl<C: CliConfig> Command<C> for VersionCommand {
    open spec fn handles(&self, config: C) -> bool {
        config.base_view().version
    }

    open spec fn rank(&self) -> u8 {
        VERSION_PRIORITY
    }

    fn can_handle(&self, config: &C) -> (r: bool) {
        config.wants_version()
    }

    open spec fn executes(&self, config: C, r: Result<Outcome, CommandError>) -> bool {
        r matches Ok(Outcome::Print(s)) && s@ == self.version.text()
    }

    fn execute(&self, config: &C) -> (r: Result<Outcome, CommandError>)
        ensures
            r matches Ok(Outcome::Print(s)) && s@ == self.version.text(),
    {
        Ok(Outcome::Print(self.text()))
    }

    fn priority(&self) -> (r: u8) {
        VERSION_PRIORITY
    }
}

} // verus!
