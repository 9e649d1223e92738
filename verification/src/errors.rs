//! The error taxonomy of the installation engine.

use vstd::prelude::*;

verus! {

/// Why one install branch stopped.
///
/// Every failure inside an install branch aborts that branch immediately;
/// the driver decides whether the whole run stops. `IntegrityMismatch` and
/// `UnsafeArchivePath` point at tampered or malicious input rather than an
/// environment failure.
#[derive(Debug, Clone, PartialEq, Eq)]
pub enum InstallError {
    /// The range string is not a valid version-range expression.
    InvalidConstraint,
    /// The version string is not a valid version.
    InvalidVersion,
    /// No published version both parses and satisfies the range.
    NoSatisfyingVersion,
    /// The registry could not be reached over the network.
    RegistryUnreachable,
    /// The registry answered with a body that does not describe a package,
    /// or with a package name unusable as a directory name.
    MalformedMetadata,
    /// The registry does not know the package.
    PackageNotFound,
    /// The artifact request answered with a non-success status.
    DownloadFailed { status: u16 },
    /// The digest of the downloaded artifact differs from the declared one.
    IntegrityMismatch { expected: String, actual: String },
    /// An archive entry would escape the destination directory.
    UnsafeArchivePath,
    /// The unpacked package carries no manifest.
    MissingManifest,
    /// A symlink for a declared executable could not be created.
    LinkCreationFailed,
}

} // verus!
