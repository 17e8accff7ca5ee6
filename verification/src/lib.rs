pub mod greeting;
pub mod startup_args;

pub use crate::greeting::greet;
pub use crate::startup_args::get_cli_args;
pub use crate::startup_args::CliArgs;
pub use crate::startup_args::CliArgsState;
