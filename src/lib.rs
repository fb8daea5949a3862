//! Turns a source project into an installable package: detection of the
//! project's format, the build step's decisions, location of the built
//! artifacts, the archive layout, and the package manifest.

pub mod archive;
pub mod executor;
pub mod detect;
pub mod format;
pub mod locate;
pub mod manifest;
