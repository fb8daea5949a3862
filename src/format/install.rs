use vstd::prelude::*;

verus! {

/// How the package is meant to be installed; decided by a marker file in
/// the project root, independently of the project's format.
#[derive(PartialEq, Eq, Structural, Clone, Copy, Debug)]
pub enum InstallFormat {
    /// The default: artifacts only.
    JellyFish,
    /// Artifacts plus the sidecar files of the project root.
    Wharf,
}

} // verus!
