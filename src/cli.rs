use vstd::prelude::*;

verus! {

/// The shells that completion scripts can be written for.
#[derive(Debug, Clone, Copy, PartialEq, Eq, Structural)]
pub enum ShellKind {
    Bash,
    Elvish,
    Fish,
    PowerShell,
    Zsh,
}

/// A parsed command line.
#[derive(Debug, Clone, PartialEq, Eq)]
pub struct Cli {
    pub command: Commands,
    /// Report results as structured data instead of text.
    pub json: bool,
}

/// The operations the tool offers.
#[derive(Debug, Clone, PartialEq, Eq)]
pub enum Commands {
    /// Guided first-time setup of the identity.
    Setup(SetupArgs),
    /// Show the installation state and the live identity.
    Check,
    /// Set identity fields directly.
    SetFields(ConfigArgs),
    /// Save the live identity as a profile.
    Save { name: String },
    /// Switch to a saved profile; without a name one is chosen interactively.
    Use { name: Option<String> },
    /// List saved profiles.
    List,
    /// Show the active profile.
    Current,
    /// Delete a saved profile; `force` skips the confirmation.
    Delete { name: String, force: bool },
    /// Write a completion script for a shell.
    Completions { shell: ShellKind },
}

/// Options of the setup operation.
#[derive(Debug, Clone, Copy, PartialEq, Eq, Structural)]
pub struct SetupArgs {
    /// Fail instead of prompting.
    pub non_interactive: bool,
}

/// The fields a direct set may supply.
#[derive(Debug, Clone, Default, PartialEq, Eq)]
pub struct ConfigArgs {
    pub name: Option<String>,
    pub email: Option<String>,
    pub signing_key: Option<String>,
}

impl Commands {
    /// Whether the operation needs the VCS binary to be installed.
    pub fn needs_git(&self) -> (r: bool)
        ensures
            r == !(self is Completions),
    {
        match self {
            Commands::Completions { .. } => false,
            _ => true,
        }
    }
}

} // verus!
