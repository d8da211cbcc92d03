//! The command-line surface, as plain data.
//!
//! Argument parsing itself happens outside the library; these types are
//! what a parsed invocation amounts to.

use vstd::prelude::*;

verus! {

/// A full invocation.
pub struct Cli {
    pub command: Commands,
}

/// The top-level subcommands.
pub enum Commands {
    /// Initialize a new project.
    Init { name: String, dir: Option<String> },
    /// Run tasks and scripts.
    Task(RunTaskArgs),
    /// Manage contracts.
    Contract(ContractArgs),
}

/// Arguments of the task subcommand.
pub struct RunTaskArgs {
    pub command: TaskCommands,
}

/// Arguments of the contract subcommand.
pub struct ContractArgs {
    pub command: ContractCommands,
}

/// What can be done with contracts.
pub enum ContractCommands {
    List {},
}

/// What can be done with tasks.
pub enum TaskCommands {
    List {},
    Run { name: String, trailing: Vec<String> },
}

/// Options every task invocation takes: which account and network to
/// run against.
pub struct TaskArgs {
    pub account: Option<String>,
    pub network: Option<String>,
}

} // verus!
