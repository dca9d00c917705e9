use sw_cli::{
    BaseConfig, BuildInfo, CliConfig, Command, CommandError, DispatchError, Dispatcher,
    HelpCommand, HelpType, Outcome, Version, VersionCommand, DEFAULT_PRIORITY,
};

struct DemoConfig {
    base: BaseConfig,
    count: bool,
}

impl CliConfig for DemoConfig {
    fn base_view(&self) -> BaseConfig {
        self.base
    }

    fn base(&self) -> &BaseConfig {
        &self.base
    }
}

enum DemoCommand {
    Count,
    CopyDefault,
    Named(&'static str, u8, bool),
    Failing,
}

impl Command<DemoConfig> for DemoCommand {
    fn handles(&self, config: DemoConfig) -> bool {
        self.can_handle(&config)
    }

    fn rank(&self) -> u8 {
        self.priority()
    }

    fn executes(&self, config: DemoConfig, r: Result<Outcome, CommandError>) -> bool {
        self.execute(&config) == r
    }

    fn can_handle(&self, config: &DemoConfig) -> bool {
        match self {
            DemoCommand::Count => config.count,
            DemoCommand::CopyDefault => true,
            DemoCommand::Named(_, _, takes) => *takes,
            DemoCommand::Failing => config.count,
        }
    }

    fn execute(&self, _config: &DemoConfig) -> Result<Outcome, CommandError> {
        match self {
            DemoCommand::Count => Ok(Outcome::Print("count".to_string())),
            DemoCommand::CopyDefault => Ok(Outcome::Print("copy".to_string())),
            DemoCommand::Named(name, _, _) => Ok(Outcome::Print(name.to_string())),
            DemoCommand::Failing => Err(CommandError::new("file not found".to_string())),
        }
    }

    fn priority(&self) -> u8 {
        match self {
            DemoCommand::Named(_, p, _) => *p,
            _ => DEFAULT_PRIORITY,
        }
    }
}

fn version() -> Version {
    Version::new(
        "0.1.0".to_string(),
        "Copyright (c) 2025 Example Corp".to_string(),
        "MIT".to_string(),
        "https://example.org/LICENSE".to_string(),
        BuildInfo::new("builder.local".to_string(), "abc123def456".to_string(), 1700000000000),
    )
}

fn dispatcher() -> Dispatcher<DemoConfig, DemoCommand> {
    Dispatcher::new(version(), "short help".to_string(), "long help".to_string())
}

fn config(version: bool, help: HelpType, count: bool) -> DemoConfig {
    DemoConfig {
        base: BaseConfig {
            verbose: false,
            dry_run: false,
            quiet: false,
            help,
            version,
        },
        count,
    }
}

fn printed(r: Result<Outcome, DispatchError>) -> String {
    match r {
        Ok(Outcome::Print(s)) => s,
        other => panic!("unexpected outcome {:?}", other),
    }
}

#[test]
fn scenario_version_count_default() {
    let d = dispatcher()
        .register(DemoCommand::Count)
        .register(DemoCommand::CopyDefault);
    assert_eq!(printed(d.dispatch(&config(true, HelpType::NotRequested, false))), version().to_string());
    assert_eq!(printed(d.dispatch(&config(false, HelpType::NotRequested, true))), "count");
    assert_eq!(printed(d.dispatch(&config(false, HelpType::NotRequested, false))), "copy");
}

#[test]
fn version_wins_over_every_other_flag() {
    let d = dispatcher()
        .register(DemoCommand::Named("zero", 0, true))
        .register(DemoCommand::Count)
        .register(DemoCommand::CopyDefault);
    let out = printed(d.dispatch(&config(true, HelpType::Long, true)));
    assert!(out.starts_with("Version: 0.1.0\n"));
}

#[test]
fn help_wins_over_application_commands() {
    let d = dispatcher().register(DemoCommand::Count).register(DemoCommand::CopyDefault);
    assert_eq!(printed(d.dispatch(&config(false, HelpType::Short, true))), "short help");
    assert_eq!(printed(d.dispatch(&config(false, HelpType::Long, true))), "long help");
}

#[test]
fn lowest_priority_is_chosen_whatever_the_registration_order() {
    let d = dispatcher()
        .register(DemoCommand::Named("late", 200, true))
        .register(DemoCommand::Named("early", 50, true))
        .register(DemoCommand::Named("middle", 100, true));
    assert_eq!(printed(d.dispatch(&config(false, HelpType::NotRequested, false))), "early");
}

#[test]
fn equal_priorities_keep_registration_order() {
    let d = dispatcher()
        .register(DemoCommand::Named("first", 100, true))
        .register(DemoCommand::Named("second", 100, true))
        .register(DemoCommand::Named("third", 100, true));
    assert_eq!(printed(d.dispatch(&config(false, HelpType::NotRequested, false))), "first");
}

#[test]
fn commands_that_do_not_match_are_passed_over() {
    let d = dispatcher()
        .register(DemoCommand::Named("no", 10, false))
        .register(DemoCommand::Named("yes", 150, true));
    assert_eq!(printed(d.dispatch(&config(false, HelpType::NotRequested, false))), "yes");
}

#[test]
fn catch_all_loses_to_a_matching_command_registered_later_with_lower_priority() {
    let d = dispatcher()
        .register(DemoCommand::CopyDefault)
        .register(DemoCommand::Named("specific", 50, true));
    assert_eq!(printed(d.dispatch(&config(false, HelpType::NotRequested, false))), "specific");
}

#[test]
fn catch_all_registered_first_shadows_equal_priority_commands() {
    let d = dispatcher().register(DemoCommand::CopyDefault).register(DemoCommand::Count);
    assert_eq!(printed(d.dispatch(&config(false, HelpType::NotRequested, true))), "copy");
}

#[test]
fn no_application_command_gives_unhandled() {
    let d = dispatcher();
    let r = d.dispatch(&config(false, HelpType::NotRequested, true));
    assert_eq!(r, Err(DispatchError::Unhandled));
}

#[test]
fn no_matching_command_gives_unhandled() {
    let d = dispatcher().register(DemoCommand::Count).register(DemoCommand::Named("no", 1, false));
    let r = d.dispatch(&config(false, HelpType::NotRequested, false));
    assert_eq!(r, Err(DispatchError::Unhandled));
    assert_eq!(
        DispatchError::Unhandled.message(),
        "No command could handle this request"
    );
}

#[test]
fn command_failure_is_passed_on_without_trying_others() {
    let d = dispatcher().register(DemoCommand::Failing).register(DemoCommand::CopyDefault);
    let r = d.dispatch(&config(false, HelpType::NotRequested, true));
    let e = CommandError::new("file not found".to_string());
    assert_eq!(r, Err(DispatchError::Failed(e.clone())));
    assert_eq!(DispatchError::Failed(e).message(), "file not found");
}

#[test]
fn built_in_commands_declare_their_priorities() {
    let v = VersionCommand::new(version());
    let h = HelpCommand::new("s".to_string(), "l".to_string());
    assert_eq!(Command::<DemoConfig>::priority(&v), 0);
    assert_eq!(Command::<DemoConfig>::priority(&h), 1);
    let c = config(true, HelpType::NotRequested, false);
    assert!(v.can_handle(&c));
    assert!(!h.can_handle(&c));
    assert_eq!(v.execute(&c), Ok(Outcome::Print(version().to_string())));
    assert_eq!(v.text(), version().to_string());
}

#[test]
fn help_command_picks_the_text() {
    let h = HelpCommand::new("s".to_string(), "l".to_string());
    assert_eq!(h.text(&config(false, HelpType::Short, false)), "s");
    assert_eq!(h.text(&config(false, HelpType::Long, false)), "l");
    assert_eq!(
        h.execute(&config(false, HelpType::Long, false)),
        Ok(Outcome::Print("l".to_string()))
    );
}
