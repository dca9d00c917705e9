pub mod help;
pub mod version;

pub use help::HelpCommand;
pub use version::VersionCommand;
