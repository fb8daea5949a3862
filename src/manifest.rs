//! Derivation of the package manifest from the detected project, the install
//! format and the caller's overrides.

use vstd::prelude::*;

use crate::format::install::InstallFormat;
use crate::format::out::{InstallInfo, Package, PackageType};
use crate::format::Format;

verus! {

/// The download URL written when the caller supplies none; it asks for the
/// field to be completed by hand.
pub const URL_PLACEHOLDER: &'static str = "<INSERT DOWNLOAD URL>";

/// The manifest tag of an install format.
pub open spec fn spec_package_type(install: InstallFormat) -> PackageType {
    match install {
        InstallFormat::JellyFish => PackageType::JellyFish,
        InstallFormat::Wharf => PackageType::Wharf,
    }
}

/// The download URL of a manifest: the override when there is one, else
/// the placeholder.
pub open spec fn spec_url(download_url: Option<String>) -> Seq<char> {
    match download_url {
        Some(u) => u@,
        None => URL_PLACEHOLDER@,
    }
}

/// The manifest tag of an install format.
pub fn package_type_of(install: InstallFormat) -> (r: PackageType)
    ensures
        r == spec_package_type(install),
{
    match install {
        InstallFormat::JellyFish => PackageType::JellyFish,
        InstallFormat::Wharf => PackageType::Wharf,
    }
}

/// The manifest of a detected project: its name serves as both name and
/// friendly name, its version is kept verbatim, the URL is the override or
/// the placeholder, and the tag follows the install format.
pub fn compile(format: Format, install: InstallFormat, download_url: Option<String>) -> (r: Package)
    requires
        format is Cargo,
    ensures
        r.name@ == format->Cargo_0.package.name@,
        r.friendly_name@ == format->Cargo_0.package.name@,
        r.version@ == format->Cargo_0.package.version@,
        r.install.url@ == spec_url(download_url),
        r.install.type_ == spec_package_type(install),
{
    match format {
        Format::Cargo(project) => {
            let url = match download_url {
                Some(u) => u,
                None => String::from_str(URL_PLACEHOLDER),
            };
            let name = project.package.name;
            let friendly_name = name.clone();
            Package {
                name,
                friendly_name,
                version: project.package.version,
                install: InstallInfo { url, type_: package_type_of(install) },
            }
        },
        Format::Unknown => {
            proof {
                assert(false);
            }
            Package {
                name: String::new(),
                friendly_name: String::new(),
                version: String::new(),
                install: InstallInfo { url: String::new(), type_: package_type_of(install) },
            }
        },
    }
}

} // verus!
