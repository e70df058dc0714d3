//! Schultz: a handshake peer for the Casper network.
//!
//! The verified part of the node: the chainspec cost tables and their
//! `bytesrepr` encoding, the handshake bookkeeping, and small utilities.

pub mod bytesrepr;
pub mod dirs;
pub mod error;

pub mod primitives;
pub mod utils;
pub mod network;

use vstd::prelude::*;

pub use dirs::Dirs;
pub use error::Error;

verus! {

/// The format of a command's response.
#[derive(Clone, Copy, Debug, PartialEq, Eq, Structural)]
pub enum OutputFormat {
    Json,
    Table,
}

/// The commands of the node.
#[derive(Clone, Debug, PartialEq, Eq)]
pub enum Commands {
    /// Bootstrap a Schultz node for the Casper network.
    Bootstrap {
        /// Schultz socket address to bind to.
        addr: String,
        /// Casper socket address to bootstrap from.
        bootnode: String,
        /// Path to the chainspec file.
        chainspec: Option<String>,
    },
}

/// The arguments of the node: a command.
#[derive(Clone, Debug, PartialEq, Eq)]
pub struct Args {
    command: Commands,
}

impl Args {
    /// The command given.
    pub closed spec fn spec_command(&self) -> Commands {
        self.command
    }

    /// Arguments giving `command`.
    pub fn new(command: Commands) -> (r: Self)
        ensures
            r.spec_command() == command,
    {
        Args { command }
    }

    /// The command given.
    pub fn command(&self) -> (r: &Commands)
        ensures
            *r == self.spec_command(),
    {
        &self.command
    }
}

/// The command line of the node: a command, and the options common to all.
#[derive(Clone, Debug, PartialEq, Eq)]
pub struct Cli {
    /// The command.
    pub command: Commands,
    /// Root dir for config and data.
    root_dir: Option<String>,
    /// Output format for command response.
    output_format: Option<OutputFormat>,
}

impl Cli {
    /// The command given.
    pub closed spec fn spec_command(&self) -> Commands {
        self.command
    }

    /// The root directory given, if any.
    pub closed spec fn spec_root_dir(&self) -> Option<String> {
        self.root_dir
    }

    /// The output format given, if any.
    pub closed spec fn spec_output_format(&self) -> Option<OutputFormat> {
        self.output_format
    }

    /// A command line with the given command and options.
    pub fn new(command: Commands, root_dir: Option<String>, output_format: Option<OutputFormat>) -> (r: Self)
        ensures
            r.spec_command() == command,
            r.spec_root_dir() == root_dir,
            r.spec_output_format() == output_format,
    {
        Cli { command, root_dir, output_format }
    }

    /// The root directory given, if any.
    pub fn root_dir(&self) -> (r: &Option<String>)
        ensures
            *r == self.spec_root_dir(),
    {
        &self.root_dir
    }

    /// The output format given, if any.
    pub fn output_format(&self) -> (r: Option<OutputFormat>)
        ensures
            r == self.spec_output_format(),
    {
        self.output_format
    }
}

/// What a command runs in: the node's directories and the output format.
pub struct Context {
    pub dirs: Dirs,
    pub output_format: OutputFormat,
}

impl Context {
    /// The context of a command line whose root directory is `dirs`: the
    /// output format is the one given, by default a table.
    pub fn for_cli(cli: &Cli, dirs: Dirs) -> (r: Self)
        ensures
            r.dirs == dirs,
            r.output_format == (match cli.spec_output_format() {
                Some(format) => format,
                None => OutputFormat::Table,
            }),
    {
        let output_format = match cli.output_format() {
            Some(format) => format,
            None => OutputFormat::Table,
        };
        Context { dirs, output_format }
    }
}

} // verus!
