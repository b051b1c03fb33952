//! Command-line options, as plain values.
use vstd::prelude::*;

verus! {

/// The build backend to generate for.
#[derive(Clone, Copy, Debug, PartialEq, Eq, Structural)]
pub enum BuildSystem {
    Cmake,
}

impl BuildSystem {
    /// The backend's name on the command line.
    pub fn name(&self) -> (r: &'static str)
        ensures
            r@ == "cmake"@,
    {
        match self {
            BuildSystem::Cmake => "cmake",
        }
    }
}

/// Options that shape generation.
pub struct GenerateOptions {
    /// The description file or directory; the default project where absent.
    pub from: Option<String>,
    /// Remove an existing output directory first.
    pub force: bool,
    pub build_system: BuildSystem,
}

/// What to do.
pub enum Command {
    /// Scaffold a new project into the directory `out`.
    New { out: String },
    /// Scaffold into the current directory.
    Init {},
}

/// A parsed command line.
pub struct Cli {
    pub generate: GenerateOptions,
    pub command: Command,
}

} // verus!
