//! The closed error taxonomy of the engine. Every failure of an external
//! operation is remapped into exactly one of these kinds at its call site;
//! nothing is retried and nothing is swallowed.

use vstd::prelude::*;
use vstd::string::StringExecFns;

use crate::input_version::InputVersion;
use crate::version::Version;

verus! {

/// The three external build steps of the install pipeline.
#[derive(Debug, Clone, Copy, PartialEq, Eq)]
pub enum BuildStage {
    Configure,
    Make,
    MakeInstall,
}

/// One kind per failure mode, carrying enough context to render a
/// user-facing message.
#[derive(Debug, Clone, PartialEq, Eq)]
pub enum FrumError {
    /// A network request could not be carried out.
    TransportFailure,
    /// An unexpected filesystem error.
    FilesystemFailure,
    /// The processing-unit probe could not be run at all.
    ProcessorProbeFailure,
    /// The downloaded archive could not be unpacked.
    ExtractionFailure,
    /// The downloaded archive unpacked to zero entries.
    EmptyArchive,
    /// No installed or remotely listed version matches the specifier.
    SpecifierNotFound { specifier: InputVersion },
    /// The remote index could not be listed.
    RemoteListingFailure { cause: String },
    /// The target installation directory already exists.
    AlreadyInstalled { path: String },
    /// No specifier was given and no project declaration was found.
    CannotInferSpecifier,
    /// The specifier names a version that can never be installed.
    UninstallableSpecifier { specifier: Version },
    /// One of the external build steps exited with a failure.
    BuildFailure { stage: BuildStage, captured_output: String },
}

/// The name of a build stage, as the build tools call it.
pub open spec fn stage_text(s: BuildStage) -> Seq<char> {
    match s {
        BuildStage::Configure => "configure"@,
        BuildStage::Make => "make"@,
        BuildStage::MakeInstall => "make install"@,
    }
}

/// The user-facing message of an error.
pub open spec fn error_message(e: FrumError) -> Seq<char> {
    match e {
        FrumError::TransportFailure => "Can't reach the mirror"@,
        FrumError::FilesystemFailure => "Unexpected filesystem failure"@,
        FrumError::ProcessorProbeFailure => "Can't find the number of cores"@,
        FrumError::ExtractionFailure => "Can't extract the file"@,
        FrumError::EmptyArchive => "The downloaded archive is empty"@,
        FrumError::SpecifierNotFound { specifier } => "Can't find version: "@
            + crate::input_version::input_string(specifier),
        FrumError::RemoteListingFailure { cause } => "Can't list the remote versions: "@ + cause@,
        FrumError::AlreadyInstalled { path } => "Version already installed at "@ + path@,
        FrumError::CannotInferSpecifier
            => "Can't find version in dotfiles. Please provide a version manually to the command."@,
        FrumError::UninstallableSpecifier { specifier } => "The requested version is not installable: "@
            + crate::version::version_string(specifier),
        FrumError::BuildFailure { stage, captured_output } => "Can't build Ruby: "@ + stage_text(
            stage,
        ) + ": "@ + captured_output@,
    }
}

impl FrumError {
    /// Renders the error for the user.
    pub fn message(&self) -> (r: String)
        ensures
            r@ == error_message(*self),
    {
        match self {
            FrumError::TransportFailure => String::from_str("Can't reach the mirror"),
            FrumError::FilesystemFailure => String::from_str("Unexpected filesystem failure"),
            FrumError::ProcessorProbeFailure => String::from_str(
                "Can't find the number of cores",
            ),
            FrumError::ExtractionFailure => String::from_str("Can't extract the file"),
            FrumError::EmptyArchive => String::from_str("The downloaded archive is empty"),
            FrumError::SpecifierNotFound { specifier } => {
                let mut out = String::from_str("Can't find version: ");
                let s = crate::input_version::format_input(specifier);
                out.append(s.as_str());
                out
            },
            FrumError::RemoteListingFailure { cause } => {
                let mut out = String::from_str("Can't list the remote versions: ");
                out.append(cause.as_str());
                out
            },
            FrumError::AlreadyInstalled { path } => {
                let mut out = String::from_str("Version already installed at ");
                out.append(path.as_str());
                out
            },
            FrumError::CannotInferSpecifier => String::from_str(
                "Can't find version in dotfiles. Please provide a version manually to the command.",
            ),
            FrumError::UninstallableSpecifier { specifier } => {
                let mut out = String::from_str("The requested version is not installable: ");
                let s = specifier.format();
                out.append(s.as_str());
                out
            },
            FrumError::BuildFailure { stage, captured_output } => {
                let mut out = String::from_str("Can't build Ruby: ");
                match stage {
                    BuildStage::Configure => out.append("configure"),
                    BuildStage::Make => out.append("make"),
                    BuildStage::MakeInstall => out.append("make install"),
                }
                out.append(": ");
                out.append(captured_output.as_str());
                out
            },
        }
    }
}

} // verus!
