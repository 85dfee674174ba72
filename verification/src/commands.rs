//! The build tool's commands, written against the service seams.
//!
//! Each handler resolves names and paths and drives the services in a
//! fixed order; the services themselves spawn the real toolchain and
//! may fail by panicking, as the tool treats their errors as fatal.

use crate::services::Cargo;
use crate::services::CartesiMachine;
use crate::services::DependenciesDownloader;
use crate::services::FileSystem;
use crate::services::ResourceCreator;
use vstd::prelude::*;

verus! {

#[derive(Debug, PartialEq, Eq)]
pub enum BuildCommandError {
    Failed(String),
}

/// Cross-compiles the guest binary.
#[derive(Debug)]
pub struct BuildCommand;

impl BuildCommand {
    /// Builds the guest binary through the cargo service.
    pub fn handle<C: Cargo>(cargo: &C) -> (r: Result<(), BuildCommandError>)
        ensures
            r is Ok,
    {
        cargo.build_binary();
        Ok(())
    }
}

#[derive(Debug, PartialEq, Eq)]
pub enum NewCommandError {
    Failed(String),
}

/// Creates a new guest crate with its target resources.
#[derive(Debug)]
pub struct NewCommand;

impl NewCommand {
    /// Creates the crate named `crate_name` and writes its resources.
    pub fn handle<R: ResourceCreator, C: Cargo>(crate_name: &str, res: &R, cargo: &C) -> (r:
        Result<(), NewCommandError>)
        ensures
            r is Ok,
    {
        cargo.create_new_binary_source(crate_name);
        res.create(crate_name);
        Ok(())
    }
}

#[derive(Debug, PartialEq, Eq)]
pub enum CreateFsCommandError {
    Failed(String),
}

/// Creates a file-system image suitable to mount in the machine.
#[derive(Debug)]
pub struct CreateFsCommand;

impl CreateFsCommand {
    /// Builds the guest binary, then creates a file-system image
    /// holding it — named `target_binary`, or the package's name when
    /// none is given — and stores the image as `dapp_fs` under the
    /// target directory.
    pub fn handle<C: Cargo, F: FileSystem>(
        target_binary: Option<String>,
        dapp_fs: &str,
        cargo: &C,
        file_system: &F,
    ) -> (r: Result<(), CreateFsCommandError>)
        ensures
            r is Ok,
    {
        cargo.build_binary();

        let target_bin = match target_binary {
            Some(name) => name,
            None => cargo.package_name(),
        };
        let target_dir = cargo.target_dir().concat("/").concat(target_bin.as_str());
        let target_cartesi_dir = cargo.target_dir().concat("/cartesi");

        file_system.create_dir_all(target_cartesi_dir.as_str());

        let output = target_cartesi_dir.concat("/").concat(dapp_fs);
        let files = vec![target_dir];

        file_system.create(&files, None, output.as_str());

        Ok(())
    }
}

#[derive(Debug, PartialEq, Eq)]
pub enum CreateMachineCommandError {
    Failed(String),
}

/// Creates and stores a machine image around the guest binary.
#[derive(Debug)]
pub struct CreateMachineCommand;

impl CreateMachineCommand {
    /// Builds the guest binary, creates its file-system image, brings
    /// the machine dependencies in place, and stores the machine.
    pub fn handle<D: DependenciesDownloader, C: Cargo, F: FileSystem, M: CartesiMachine>(
        target_binary: Option<String>,
        dapp_fs: &str,
        deps: &D,
        cargo: &C,
        file_system: &F,
        cartesi_machine: &M,
    ) -> (r: Result<(), CreateMachineCommandError>)
        ensures
            r is Ok,
    {
        cargo.build_binary();

        let target_bin = match target_binary {
            Some(name) => name,
            None => cargo.package_name(),
        };
        let target_dir = cargo.target_dir().concat("/").concat(target_bin.as_str());
        let target_cartesi_dir = cargo.target_dir().concat("/cartesi");

        file_system.create_dir_all(target_cartesi_dir.as_str());

        let output = target_cartesi_dir.clone().concat("/").concat(dapp_fs);
        let files = vec![target_dir];

        file_system.create(&files, None, output.as_str());
        deps.download_if_not_present_and_verify(target_cartesi_dir.as_str());
        cartesi_machine.build(target_bin.as_str(), output.as_str());

        Ok(())
    }
}

#[derive(Debug, PartialEq, Eq)]
pub enum RunCommandError {
    Failed(String),
}

/// Runs the machine around the guest binary.
#[derive(Debug)]
pub struct RunCommand;

impl RunCommand {
    /// Builds the guest binary, creates its file-system image, brings
    /// the machine dependencies in place, and runs the machine.
    pub fn handle<D: DependenciesDownloader, C: Cargo, F: FileSystem, M: CartesiMachine>(
        target_binary: Option<String>,
        dapp_fs: &str,
        deps: &D,
        cargo: &C,
        file_system: &F,
        cartesi_machine: &M,
    ) -> (r: Result<(), RunCommandError>)
        ensures
            r is Ok,
    {
        cargo.build_binary();

        let target_bin = match target_binary {
            Some(name) => name,
            None => cargo.package_name(),
        };
        let target_dir = cargo.target_dir().concat("/").concat(target_bin.as_str());
        let target_cartesi_dir = cargo.target_dir().concat("/cartesi");

        file_system.create_dir_all(target_cartesi_dir.as_str());

        let rootfs = target_cartesi_dir.clone().concat("/rootfs.ext2");
        let ram_image = target_cartesi_dir.clone().concat("/linux-5.5.19-ctsi-6.bin");
        let rom_image = target_cartesi_dir.clone().concat("/rom.bin");
        let output = target_cartesi_dir.clone().concat("/").concat(dapp_fs);
        let files = vec![target_dir];

        file_system.create(&files, None, output.as_str());
        deps.download_if_not_present_and_verify(target_cartesi_dir.as_str());
        cartesi_machine.run(
            target_bin.as_str(),
            rootfs.as_str(),
            ram_image.as_str(),
            rom_image.as_str(),
            output.as_str(),
        );

        Ok(())
    }
}

} // verus!
