use vstd::prelude::*;

verus! {

/// Which help text, if any, the user asked for.
///
/// `-h` asks for the short text, `--help` for the long one; the two never hold together.
#[derive(Debug, Clone, Copy, PartialEq, Eq, Structural)]
pub enum HelpType {
    NotRequested,
    Short,
    Long,
}

impl Default for HelpType {
    fn default() -> (r: Self)
        ensures
            r == HelpType::NotRequested,
    {
        HelpType::NotRequested
    }
}

/// The flags that every program built on this library recognises.
#[derive(Debug, Clone, Copy, PartialEq, Eq, Structural)]
pub struct BaseConfig {
    pub verbose: bool,
    pub dry_run: bool,
    /// Silences diagnostics; it wins over `verbose`.
    pub quiet: bool,
    pub help: HelpType,
    pub version: bool,
}

impl BaseConfig {
    /// The configuration of an invocation with no flags at all.
    pub open spec fn empty() -> BaseConfig {
        BaseConfig {
            verbose: false,
            dry_run: false,
            quiet: false,
            help: HelpType::NotRequested,
            version: false,
        }
    }

    /// The verbosity level: one when `verbose` is set and `quiet` is not, else zero.
    pub open spec fn level(self) -> u8 {
        if self.verbose && !self.quiet {
            1
        } else {
            0
        }
    }

    pub fn new() -> (r: Self)
        ensures
            r == BaseConfig::empty(),
    {
        BaseConfig {
            verbose: false,
            dry_run: false,
            quiet: false,
            help: HelpType::NotRequested,
            version: false,
        }
    }

    pub fn verbosity(&self) -> (r: u8)
        ensures
            r == self.level(),
            self.quiet ==> r == 0,
    {
        if self.quiet {
            0
        } else if self.verbose {
            1
        } else {
            0
        }
    }

    pub fn is_dry_run(&self) -> (r: bool)
        ensures
            r == self.dry_run,
    {
        self.dry_run
    }

    pub fn wants_help(&self) -> (r: bool)
        ensures
            r == (self.help != HelpType::NotRequested),
    {
        self.help != HelpType::NotRequested
    }

    pub fn wants_short_help(&self) -> (r: bool)
        ensures
            r == (self.help == HelpType::Short),
    {
        self.help == HelpType::Short
    }

    pub fn wants_long_help(&self) -> (r: bool)
        ensures
            r == (self.help == HelpType::Long),
    {
        self.help == HelpType::Long
    }

    pub fn wants_version(&self) -> (r: bool)
        ensures
            r == self.version,
    {
        self.version
    }
}

impl Default for BaseConfig {
    fn default() -> (r: Self)
        ensures
            r == BaseConfig::empty(),
    {
        BaseConfig::new()
    }
}

/// A program's configuration: the standard flags plus whatever the program adds.
///
/// Every query is a pure function of `base_view`, the standard flags it holds.
/// An implementation outside verified code defines `base_view` as a copy of what
/// `base` returns.
pub trait CliConfig {
    /// The standard flags of this configuration.
    spec fn base_view(&self) -> BaseConfig;

    fn base(&self) -> (r: &BaseConfig)
        ensures
            *r == self.base_view(),
    ;

    fn wants_help(&self) -> (r: bool)
        ensures
            r == (self.base_view().help != HelpType::NotRequested),
    {
        self.base().wants_help()
    }

    fn wants_short_help(&self) -> (r: bool)
        ensures
            r == (self.base_view().help == HelpType::Short),
    {
        self.base().wants_short_help()
    }

    fn wants_long_help(&self) -> (r: bool)
        ensures
            r == (self.base_view().help == HelpType::Long),
    {
        self.base().wants_long_help()
    }

    fn wants_version(&self) -> (r: bool)
        ensures
            r == self.base_view().version,
    {
        self.base().wants_version()
    }

    fn verbosity(&self) -> (r: u8)
        ensures
            r == self.base_view().level(),
    {
        self.base().verbosity()
    }

    fn is_dry_run(&self) -> (r: bool)
        ensures
            r == self.base_view().dry_run,
    {
        self.base().is_dry_run()
    }
}

/// A program with no flags of its own uses the standard flags as its configuration.
impl CliConfig for BaseConfig {
    open spec fn base_view(&self) -> BaseConfig {
        *self
    }

    fn base(&self) -> (r: &BaseConfig) {
        self
    }
}

} // verus!
