//! Plain forms of the command-line arguments.
//!
//! The surrounding program parses the real command line and hands these
//! values in; the library only ever sees them as data.

use vstd::prelude::*;

verus! {

/// Top-level invocation: database location, verbosity, and the action.
#[derive(Debug, Clone)]
pub struct CliArgs {
    pub db: String,
    pub debug: u8,
    pub subcommand: Option<Subcommands>,
}

/// The actions the tool offers.
#[derive(Debug, Clone)]
pub enum Subcommands {
    Pocket { command: PocketCommands },
    Local { command: LocalCommands },
    Fetch,
    List { tag: Option<Vec<String>> },
    Init { path: String },
    Generate { output: String, assets: String, download_tailwind: bool },
    Export { raindrop: bool },
    Handle { register: bool, unregister: bool, url: Option<String> },
}

/// Input of the remote provider's authentication action.
#[derive(Debug, Clone)]
pub struct AuthArgs {
    pub key: String,
}

/// Input of the remote provider's fetch action.
#[derive(Debug, Clone)]
pub struct FetchArgs {
    pub key: String,
    pub access: String,
}

/// The remote provider's actions.
#[derive(Debug, Clone)]
pub enum PocketCommands {
    Auth(AuthArgs),
    Fetch(FetchArgs),
}

/// Input of the local provider's add action.
#[derive(Debug, Clone)]
pub struct AddArgs {
    /// Link of the item; required.
    pub uri: String,
    pub title: Option<String>,
    pub excerpt: Option<String>,
    pub tag: Option<Vec<String>>,
}

/// The local provider's actions.
#[derive(Debug, Clone)]
pub enum LocalCommands {
    Add(AddArgs),
    List,
}

} // verus!
