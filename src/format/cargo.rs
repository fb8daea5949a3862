use vstd::prelude::*;

verus! {

/// A Cargo project, as read from its descriptor.
pub struct CargoProject {
    pub package: InnerPackage,
}

/// The `[package]` table of a Cargo descriptor.
pub struct InnerPackage {
    pub name: String,
    pub version: String,
}

impl CargoProject {
    /// Name and version are both non-empty.
    pub open spec fn wf(&self) -> bool {
        self.package.name@.len() > 0 && self.package.version@.len() > 0
    }
}

} // verus!
