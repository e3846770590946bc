//! The command-line surface as data: the global options, the
//! subcommands, and the typed output each command produces.
//!
//! Argument parsing itself is an external collaborator; these types are
//! what it parses into and what the formatters consume.

use vstd::prelude::*;
use crate::engine::{RtBox, RtBoxExecOutput};
use crate::error::RtBoxError;

verus! {

/// How command output is rendered.
#[derive(Copy, Clone, PartialEq, Eq, PartialOrd, Ord, Debug)]
pub enum TboxCliOutputFormat {
    Json,
    Human,
}

/// How verbose the tool's logging is.
#[derive(Copy, Clone, PartialEq, Eq, PartialOrd, Ord, Debug)]
pub enum TboxLogLevel {
    INFO,
    WARN,
    ERROR,
    DEBUG,
    ALL,
}

/// The parsed command line: global options and the chosen subcommand.
#[derive(Debug)]
pub struct TboxCli {
    /// Verbosity level requested with the verbose flag.
    pub verbose: Option<i32>,
    /// Automatically answer yes to all questions.
    pub assume_yes: bool,
    /// The logging level.
    pub log_level: TboxLogLevel,
    /// The output format.
    pub format: TboxCliOutputFormat,
    /// Do not actually execute API calls.
    pub dry_run: bool,
    /// Subcommand to run.
    pub command: TboxCommands,
}

/// The tool's subcommands.
#[derive(Debug)]
pub enum TboxCommands {
    /// Create a toolbox container from an image.
    Create { name: String, image: Option<String>, home: Option<String> },
    /// Remove containers; with `all`, every labeled container.
    Rm { name: Vec<String>, force: Option<bool>, all: Option<bool> },
    /// Remove container images.
    Rmi { all: bool, force: bool, image_name: Option<String> },
    /// Execute a command inside a container.
    Run { container: String, cmd: Vec<String> },
    /// Enter a new shell session inside a container.
    Enter { name: String },
    /// List labeled containers; with `all`, stopped ones too.
    List { all: Option<bool> },
    /// Export an application, service or binary to the host.
    Export {
        container: String,
        binary: Option<String>,
        service_unit: Option<String>,
        application: Option<String>,
    },
    /// The hidden init mode, run only as a container's process 1.
    Init { uid: i32, gid: i32, username: String, home: String, shell: String },
}

/// Mathematical image of an [`Output`].
pub ghost enum OutputV {
    Create(crate::engine::RtBoxV),
    List(Seq<crate::engine::RtBoxV>),
    Run(crate::engine::ExecOutputV),
    Rm,
    Error(crate::error::RtBoxErrorV),
}

/// The typed result of one command: exactly one success shape per
/// command, or one structured error.
#[derive(Debug)]
pub enum Output {
    Create(RtBox),
    List(Vec<RtBox>),
    Run(RtBoxExecOutput),
    Rm(()),
    Error(RtBoxError),
}

impl View for Output {
    type V = OutputV;

    open spec fn view(&self) -> OutputV {
        match self {
            Output::Create(b) => OutputV::Create(b@),
            Output::List(l) => OutputV::List(crate::engine::rtbox_views(l@)),
            Output::Run(o) => OutputV::Run(o@),
            Output::Rm(_) => OutputV::Rm,
            Output::Error(e) => OutputV::Error(e@),
        }
    }
}

} // verus!
