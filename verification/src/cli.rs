//! The command-line surface of `codex-ws`, as plain values: which command was
//! given and with which arguments.

use vstd::prelude::*;

verus! {

/// Arguments used to launch a workspace sandbox.
#[derive(Debug, Clone, PartialEq, Eq)]
pub struct RunArgs {
    /// Provider configuration name to load from the local configuration database.
    pub provider: String,
    /// Saved workspace name or path to the workspace manifest YAML file.
    pub workspace: String,
    /// codex-ws state root; defaults to `~/.codex-ws`.
    pub sessions_root: Option<String>,
    /// Provider database path for this run; overrides the saved `cc-switch-db` value.
    pub config_db: Option<String>,
    /// Docker image for this run; overrides the manifest's `runtime.image`.
    pub image: Option<String>,
}

/// `workspace` subcommands.
#[derive(Debug, Clone, PartialEq, Eq)]
pub enum WorkspaceCommand {
    /// List saved workspace manifests.
    Ls,
    /// Create a saved workspace manifest if needed and open it in an editor.
    Add {
        /// Workspace name.
        name: String,
    },
}

/// `config` subcommands.
#[derive(Debug, Clone, PartialEq, Eq)]
pub enum ConfigCommand {
    /// Persist a configuration value.
    SetValue {
        /// Configuration key.
        name: String,
        /// Configuration value.
        value: String,
    },
    /// Show one configuration value, or all of them.
    GetValue {
        /// Configuration key.
        name: Option<String>,
    },
}

/// Commands supported by the `codex-ws` CLI.
#[derive(Debug, Clone, PartialEq, Eq)]
pub enum Command {
    /// Launch a Codex sandbox for a workspace manifest.
    Run(RunArgs),
    /// Manage saved workspace manifests.
    Workspace(WorkspaceCommand),
    /// Manage user-level configuration.
    Config(ConfigCommand),
}

/// Launch and manage Codex CLI workspaces.
#[derive(Debug, Clone, PartialEq, Eq)]
pub struct Cli {
    /// The command to run.
    pub command: Command,
}

} // verus!
