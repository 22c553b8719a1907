//! The command line: a flake and a deployment command with its options.

use vstd::prelude::*;

use crate::op::Operation;

verus! {

/// Blazing fast fleet deployments for NixOS and nix-darwin.
#[derive(Debug)]
pub struct Cli {
    /// Flake URL or path (e.g. `github:alyraffauf/infra` or `.`).
    pub flake: String,
    pub command: Command,
}

/// Arguments shared by every deployment operation.
#[derive(Debug)]
pub struct CommonArgs {
    /// Nodes to deploy (default: all).
    pub nodes: Vec<String>,
    /// Nodes to skip.
    pub skip: Vec<String>,
    /// Build closures on a remote host instead of locally.
    pub build_host: String,
    /// Accept and record previously unknown SSH host keys.
    pub accept_new_host_keys: bool,
    /// Set simultaneous deployments.
    pub parallel: usize,
}

/// A deployment command.
#[derive(Debug)]
pub enum Command {
    /// Activate the new configuration and make it the boot default.
    Switch(CommonArgs),
    /// Set the new configuration as the boot default without activating it.
    Boot(CommonArgs),
    /// List the nodes declared in the flake without deploying anything.
    List,
}

impl Command {
    /// Map a deployment command into its logical `Operation` and shared
    /// args; `list` deploys nothing.
    pub fn into_deploy(self) -> (res: Option<(Operation, CommonArgs)>)
        ensures
            match self {
                Command::Switch(args) => res == Some((Operation::Switch, args)),
                Command::Boot(args) => res == Some((Operation::Boot, args)),
                Command::List => res is None,
            },
    {
        match self {
            Command::Switch(args) => Some((Operation::Switch, args)),
            Command::Boot(args) => Some((Operation::Boot, args)),
            Command::List => None,
        }
    }
}

} // verus!
