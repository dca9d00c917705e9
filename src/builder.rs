use vstd::prelude::*;

use crate::config::{BaseConfig, HelpType};

verus! {

/// The help request made by the two help flags: `--help` (long) wins over `-h` (short).
pub open spec fn help_request(help_short: bool, help_long: bool) -> HelpType {
    if help_long {
        HelpType::Long
    } else if help_short {
        HelpType::Short
    } else {
        HelpType::NotRequested
    }
}

/// Resolves the two help flags into one help request; `--help` wins over `-h`.
pub fn help_from_flags(help_short: bool, help_long: bool) -> (r: HelpType)
    ensures
        r == help_request(help_short, help_long),
{
    if help_long {
        HelpType::Long
    } else if help_short {
        HelpType::Short
    } else {
        HelpType::NotRequested
    }
}

/// The standard configuration of an invocation, from the values of its standard
/// flags: `-v`, `-n`, `-q`, `-h`, `--help` and `-V`.
pub fn base_config_from_flags(
    verbose: bool,
    dry_run: bool,
    quiet: bool,
    help_short: bool,
    help_long: bool,
    version: bool,
) -> (r: BaseConfig)
    ensures
        r == (BaseConfig {
            verbose,
            dry_run,
            quiet,
            help: help_request(help_short, help_long),
            version,
        }),
{
    BaseConfig { verbose, dry_run, quiet, help: help_from_flags(help_short, help_long), version }
}

} // verus!
