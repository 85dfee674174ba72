//! The build tool's command line, as plain data.
//!
//! The argument parsing and the process exit code live with the
//! caller; here each parsed command carries its arguments and hands
//! them to the corresponding command handler.

use crate::commands;
use crate::services::Cargo;
use crate::services::CartesiMachine;
use crate::services::DependenciesDownloader;
use crate::services::FileSystem;
use crate::services::ResourceCreator;
use vstd::prelude::*;

verus! {

/// Where the machine runs: on the host toolchain or in a container.
#[derive(Debug, Clone, Copy, PartialEq, Eq, Structural)]
pub enum Executor {
    Host,
    Docker,
}

#[derive(Debug, PartialEq, Eq)]
pub enum NewCommandError {
    Failed(String),
}

/// Arguments of the command creating a new guest crate.
#[derive(Debug, Clone, PartialEq, Eq)]
pub struct NewCommand {
    pub target_dir: String,
}

impl NewCommand {
    /// Creates the new crate through the given services.
    pub fn handle<C: Cargo, R: ResourceCreator>(self, cargo: &C, res: &R) -> (r: Result<
        (),
        NewCommandError,
    >)
        ensures
            r is Ok,
    {
        let _ = commands::NewCommand::handle(self.target_dir.as_str(), res, cargo);
        Ok(())
    }
}

#[derive(Debug, PartialEq, Eq)]
pub enum BuildCommandError {
    Failed(String),
}

/// Arguments of the command building the guest binary.
#[derive(Debug, Clone, PartialEq, Eq)]
pub struct BuildCommand;

impl BuildCommand {
    /// Builds the guest binary through the given services.
    pub fn handle<C: Cargo>(&self, cargo: &C) -> (r: Result<(), BuildCommandError>)
        ensures
            r is Ok,
    {
        let _ = commands::BuildCommand::handle(cargo);
        Ok(())
    }
}

#[derive(Debug, PartialEq, Eq)]
pub enum CreateFsCommandError {
    Failed(String),
}

/// Arguments of the command creating the file-system image.
#[derive(Debug, Clone, PartialEq, Eq)]
pub struct CreateFsCommand {
    pub target_bin: Option<String>,
    pub output_fs: String,
}

impl CreateFsCommand {
    /// Creates the file-system image through the given services.
    pub fn handle<C: Cargo, F: FileSystem>(self, cargo: &C, file_system: &F) -> (r: Result<
        (),
        CreateFsCommandError,
    >)
        ensures
            r is Ok,
    {
        let _ = commands::CreateFsCommand::handle(
            self.target_bin,
            self.output_fs.as_str(),
            cargo,
            file_system,
        );
        Ok(())
    }
}

#[derive(Debug, PartialEq, Eq)]
pub enum CreateMachineCommandError {
    Failed(String),
}

/// Arguments of the command creating and storing the machine.
#[derive(Debug, Clone, PartialEq, Eq)]
pub struct CreateMachineCommand {
    pub target_bin: Option<String>,
    pub output_fs: String,
}

impl CreateMachineCommand {
    /// Creates and stores the machine through the given services.
    pub fn handle<C: Cargo, F: FileSystem, D: DependenciesDownloader, M: CartesiMachine>(
        self,
        cargo: &C,
        file_system: &F,
        deps: &D,
        cartesi_machine: &M,
    ) -> (r: Result<(), CreateMachineCommandError>)
        ensures
            r is Ok,
    {
        let _ = commands::CreateMachineCommand::handle(
            self.target_bin,
            self.output_fs.as_str(),
            deps,
            cargo,
            file_system,
            cartesi_machine,
        );
        Ok(())
    }
}

#[derive(Debug, PartialEq, Eq)]
pub enum RunCommandError {
    Failed(String),
}

/// Arguments of the command running the machine.
#[derive(Debug, Clone, PartialEq, Eq)]
pub struct RunCommand {
    pub target_bin: Option<String>,
    pub output_fs: String,
}

impl RunCommand {
    /// Runs the machine through the given services.
    pub fn handle<C: Cargo, F: FileSystem, D: DependenciesDownloader, M: CartesiMachine>(
        self,
        cargo: &C,
        file_system: &F,
        deps: &D,
        cartesi_machine: &M,
    ) -> (r: Result<(), RunCommandError>)
        ensures
            r is Ok,
    {
        let _ = commands::RunCommand::handle(
            self.target_bin,
            self.output_fs.as_str(),
            deps,
            cargo,
            file_system,
            cartesi_machine,
        );
        Ok(())
    }
}

/// One parsed subcommand with its arguments.
#[derive(Debug, Clone, PartialEq, Eq)]
pub enum Command {
    New(NewCommand),
    Build(BuildCommand),
    CreateFs(CreateFsCommand),
    CreateMachine(CreateMachineCommand),
    Run(RunCommand),
}

/// The tool's invocation under its host command.
#[derive(Debug, Clone, PartialEq, Eq)]
pub enum CargoInvocation {
    Cartesi { executor: Executor, command: Command },
}

/// The parsed command line.
#[derive(Debug, Clone, PartialEq, Eq)]
pub struct Cli {
    pub cartesi: CargoInvocation,
}

} // verus!
