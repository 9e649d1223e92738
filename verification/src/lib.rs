//! Core engine of an npm-compatible package installer.
//!
//! Given a manifest that declares named dependencies with version ranges,
//! the engine resolves each range to a concrete published version, checks
//! the integrity of the downloaded artifact, plans a safe extraction of the
//! archive into the module store, walks the transitive dependencies, and
//! plans the linking of declared executables.
//!
//! All decision logic lives here and is verified. Network and filesystem
//! work is performed by a driver outside the library: the [`installer`]
//! module hands it the next action to perform and consumes the outcome.

pub mod decode;
pub mod errors;
pub mod installer;
pub mod integrity;
pub mod manifest;
pub mod registry;
pub mod semver;
pub mod strutil;
pub mod unpack;

pub use errors::InstallError;
