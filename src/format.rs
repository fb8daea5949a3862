//! The data that flows through the packaging pipeline.

pub mod cargo;
pub mod install;
pub mod out;

use vstd::prelude::*;

use self::cargo::CargoProject;

verus! {

/// The recognised build ecosystem of a project root, with the metadata that
/// its own descriptor gives.
pub enum Format {
    /// No recognised descriptor was found.
    Unknown,
    /// A Cargo project.
    Cargo(CargoProject),
}

impl Format {
    /// A recognised format carries a non-empty name and version.
    pub open spec fn wf(&self) -> bool {
        match self {
            Format::Unknown => true,
            Format::Cargo(p) => p.wf(),
        }
    }
}

} // verus!
