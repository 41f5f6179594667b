//! The error taxonomy of the packaging pipeline. Every failure is fatal to
//! the current command; no variant is retried.

use vstd::prelude::*;
use vstd::string::StringExecFns;

verus! {

/// A failure of one step of the packaging pipeline. Variants that stem
/// from a file-system or process failure carry the offending path and the
/// underlying error rendered as text.
#[derive(Debug, Clone)]
pub enum PistonError {
    /// The project's build descriptor could not be parsed.
    CargoParseError(String),
    /// The Android manifest could not be derived from the project metadata.
    ParseManifestError(String),
    /// A directory could not be read.
    ReadDirError { path: String, source: String },
    /// A subdirectory could not be removed.
    RemoveSubdirError { path: String, source: String },
    /// A file could not be removed.
    RemoveFileError { path: String, source: String },
    /// A directory tree could not be created.
    CreateDirAllError { path: String, source: String },
    /// A file could not be written.
    WriteFileError(String),
    /// An external build tool failed.
    BuildError(String),
    /// The target triple is not supported by the requested pipeline.
    UnsupportedTargetError(String),
    /// The host operating system cannot build for the requested target.
    UnsupportedOSError { os: String, target: String },
    /// The cross-linker path was not configured on a macOS host.
    ZigbuildMissingError(String),
    /// A required key was absent from the environment file.
    MissingEnvKeyError(String),
    /// Any other failure.
    Generic(String),
}

/// The human-readable rendering of an error.
pub open spec fn message_of(e: PistonError) -> Seq<char> {
    match e {
        PistonError::CargoParseError(err) => "Failed to parse the cargo.toml: "@ + err@,
        PistonError::ParseManifestError(err) => "Failed to derive the manifest: "@ + err@,
        PistonError::ReadDirError { path, .. } => "Failed to read directory \""@ + path@ + "\""@,
        PistonError::RemoveSubdirError { path, .. } => "Failed to remove subdirectory \""@ + path@
            + "\""@,
        PistonError::RemoveFileError { path, .. } => "Failed to remove file \""@ + path@ + "\""@,
        PistonError::CreateDirAllError { path, .. } => "Failed to create directory \""@ + path@
            + "\""@,
        PistonError::WriteFileError(err) => "Failed to write file: "@ + err@,
        PistonError::BuildError(err) => "Build failed: "@ + err@,
        PistonError::UnsupportedTargetError(err) => "Unsupported target: "@ + err@,
        PistonError::UnsupportedOSError { os, target } => "Unsupported OS "@ + os@
            + " for target "@ + target@,
        PistonError::ZigbuildMissingError(err) => "Missing zigbuild path: "@ + err@,
        PistonError::MissingEnvKeyError(key) => "Missing environment key: "@ + key@,
        PistonError::Generic(err) => "Generic Error: "@ + err@,
    }
}

impl PistonError {
    /// The message a front end prints for this error.
    pub fn message(&self) -> (r: String)
        ensures
            r@ == message_of(*self),
    {
        let mut out = String::new();
        match self {
            PistonError::CargoParseError(err) => {
                out.append("Failed to parse the cargo.toml: ");
                out.append(err.as_str());
            },
            PistonError::ParseManifestError(err) => {
                out.append("Failed to derive the manifest: ");
                out.append(err.as_str());
            },
            PistonError::ReadDirError { path, .. } => {
                out.append("Failed to read directory \"");
                out.append(path.as_str());
                out.append("\"");
            },
            PistonError::RemoveSubdirError { path, .. } => {
                out.append("Failed to remove subdirectory \"");
                out.append(path.as_str());
                out.append("\"");
            },
            PistonError::RemoveFileError { path, .. } => {
                out.append("Failed to remove file \"");
                out.append(path.as_str());
                out.append("\"");
            },
            PistonError::CreateDirAllError { path, .. } => {
                out.append("Failed to create directory \"");
                out.append(path.as_str());
                out.append("\"");
            },
            PistonError::WriteFileError(err) => {
                out.append("Failed to write file: ");
                out.append(err.as_str());
            },
            PistonError::BuildError(err) => {
                out.append("Build failed: ");
                out.append(err.as_str());
            },
            PistonError::UnsupportedTargetError(err) => {
                out.append("Unsupported target: ");
                out.append(err.as_str());
            },
            PistonError::UnsupportedOSError { os, target } => {
                out.append("Unsupported OS ");
                out.append(os.as_str());
                out.append(" for target ");
                out.append(target.as_str());
            },
            PistonError::ZigbuildMissingError(err) => {
                out.append("Missing zigbuild path: ");
                out.append(err.as_str());
            },
            PistonError::MissingEnvKeyError(key) => {
                out.append("Missing environment key: ");
                out.append(key.as_str());
            },
            PistonError::Generic(err) => {
                out.append("Generic Error: ");
                out.append(err.as_str());
            },
        }
        proof {
            assert(out@ =~= message_of(*self));
        }
        out
    }
}

} // verus!
