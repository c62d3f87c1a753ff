//! Installing one package: the script an archive may carry, and the steps
//! from download to commit.

pub mod install;
pub mod instructions;

pub use self::install::{install_package, InstallAction, InstallErrorKind, InstallEvent,
    InstallTransaction, Phase};
pub use self::instructions::InstructionsExecutor;
