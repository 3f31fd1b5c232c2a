//! The command line of the `kubeply` tool, as plain values.

use vstd::prelude::*;

verus! {

/// Global options and the chosen command.
#[derive(Debug, Clone, PartialEq, Eq)]
pub struct Cli {
    /// Print version information.
    pub version: bool,
    /// Print command output as JSON where supported.
    pub json: bool,
    /// The chosen command, if any.
    pub command: Option<Command>,
}

/// Top-level commands.
#[derive(Debug, Clone, PartialEq, Eq)]
pub enum Command {
    /// Work with safe Kubernetes sessions for agents.
    Session(SessionCommand),
}

/// The `session` command.
#[derive(Debug, Clone, PartialEq, Eq)]
pub struct SessionCommand {
    /// The chosen session subcommand.
    pub command: SessionSubcommand,
}

/// Session subcommands.
#[derive(Debug, Clone, PartialEq, Eq)]
pub enum SessionSubcommand {
    /// Create a planned or active sandbox session.
    Create(SessionCreateArgs),
}

/// Arguments of `session create`.
#[derive(Debug, Clone, PartialEq, Eq)]
pub struct SessionCreateArgs {
    /// Kubernetes workload name.
    pub workload: String,
    /// Kubernetes namespace for the workload.
    pub namespace: String,
    /// Proposed sandbox image.
    pub image: String,
    /// Header name used to route agent/test traffic.
    pub route_header: Option<String>,
    /// Header value used to route agent/test traffic.
    pub route_value: Option<String>,
    /// Plan the session without creating Kubernetes resources.
    pub dry_run: bool,
}

} // verus!
