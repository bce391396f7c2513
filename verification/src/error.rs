//! The ways a run ends early.

use vstd::prelude::*;
use vstd::string::StringExecFns;

verus! {

/// A failed documentation build.
#[derive(Clone, Copy, Debug, PartialEq, Eq, Structural)]
pub enum BuildError {
    /// The generator left with a status other than success.
    GeneratorFailed,
    /// The generator succeeded and its output directory is not there.
    OutputMissing,
}

/// A failure that ends the whole run. Failed fetches and failed writes are
/// none: they cost a page or a package and the run goes on.
#[derive(Clone, Copy, Debug, PartialEq, Eq, Structural)]
pub enum RunError {
    /// The build manifest could not be read or parsed.
    Resolution,
    /// The documentation could not be built.
    Build(BuildError),
    /// The content server could not bind its address.
    Server,
    /// A directory the run needs could not be found, made or listed.
    Io,
    /// The caller reported something the run had not asked for.
    OutOfTurn,
}

/// The sentence that describes a failure.
pub open spec fn error_text(error: RunError) -> Seq<char> {
    match error {
        RunError::Resolution => "Failed to read the package metadata."@,
        RunError::Build(BuildError::GeneratorFailed) =>
            "Failed to generate documentation with `cargo doc`."@,
        RunError::Build(BuildError::OutputMissing) => "Documentation directory not found."@,
        RunError::Server => "Failed to start the documentation server."@,
        RunError::Io => "Failed to access a directory of the run."@,
        RunError::OutOfTurn => "Received a result that was not asked for."@,
    }
}

impl RunError {
    /// Describes the failure for display.
    pub fn message(&self) -> (text: String)
        ensures
            text@ == error_text(*self),
    {
        match self {
            RunError::Resolution => String::from_str("Failed to read the package metadata."),
            RunError::Build(BuildError::GeneratorFailed) => String::from_str(
                "Failed to generate documentation with `cargo doc`.",
            ),
            RunError::Build(BuildError::OutputMissing) => String::from_str(
                "Documentation directory not found.",
            ),
            RunError::Server => String::from_str("Failed to start the documentation server."),
            RunError::Io => String::from_str("Failed to access a directory of the run."),
            RunError::OutOfTurn => String::from_str("Received a result that was not asked for."),
        }
    }
}

} // verus!
