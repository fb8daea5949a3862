use vstd::prelude::*;

verus! {

/// The package manifest handed to the installer.
pub struct Package {
    pub name: String,
    pub friendly_name: String,
    pub version: String,
    pub install: InstallInfo,
}

/// Where the package is downloaded from, and how it is installed.
pub struct InstallInfo {
    pub url: String,
    pub type_: PackageType,
}

/// The install-type tag written into a manifest.
#[derive(PartialEq, Eq, Structural, Clone, Copy, Debug)]
pub enum PackageType {
    JellyFish,
    Wharf,
}

} // verus!
