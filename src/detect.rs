//! Classification of a project root: its format, from the descriptor's text,
//! and its install format, from the presence of a marker file.

use vstd::prelude::*;

use crate::format::cargo::{CargoProject, InnerPackage};
use crate::format::install::InstallFormat;
use crate::format::Format;

verus! {

/// The descriptor file of a Cargo project, at the project root.
pub const DESCRIPTOR_FILE: &'static str = "Cargo.toml";

/// The marker file whose presence selects the `Wharf` install format.
pub const MARKER_FILE: &'static str = "build.rope";

/// The table of the descriptor that holds the project's metadata.
pub const PACKAGE_TABLE: &'static str = "package";

/// The keys of that table that detection reads.
pub const NAME_KEY: &'static str = "name";

pub const VERSION_KEY: &'static str = "version";

/// Why a project root could not be classified.
#[derive(PartialEq, Eq, Structural, Clone, Copy, Debug)]
pub enum DetectionError {
    /// The descriptor exists, but lacks a non-empty string `name` or
    /// `version` in its package table, or is not TOML at all.
    MalformedDescriptor,
}

/// The string that a TOML document `text` holds under `key` in its table
/// `table`; `None` when the text does not parse or holds no such string.
pub uninterp spec fn toml_string_at(text: Seq<char>, table: Seq<char>, key: Seq<char>) -> Option<
    Seq<char>,
>;

/// The characters of an optional string.
pub open spec fn opt_chars(o: Option<String>) -> Option<Seq<char>> {
    match o {
        Some(s) => Some(s@),
        None => None,
    }
}

/// Relies on `toml::from_str` (into a `toml::Table`), `Map::get`,
/// `Value::get` and `Value::as_str` of toml: the string at `table.key` of
/// the parsed document, if the document parses and the value is a string.
#[verifier::external_body]
fn toml_string_field(text: &str, table: &str, key: &str) -> (r: Option<String>)
    ensures
        opt_chars(r) == toml_string_at(text@, table@, key@),
{
    let doc: toml::Table = toml::from_str(text).ok()?;
    doc.get(table)?.get(key)?.as_str().map(|s| s.to_string())
}

/// Both fields are present and non-empty.
pub open spec fn fields_valid(name: Option<Seq<char>>, version: Option<Seq<char>>) -> bool {
    &&& name is Some
    &&& version is Some
    &&& name->Some_0.len() > 0
    &&& version->Some_0.len() > 0
}

/// The install format that the marker's presence selects.
pub open spec fn spec_install_format(marker_present: bool) -> InstallFormat {
    if marker_present {
        InstallFormat::Wharf
    } else {
        InstallFormat::JellyFish
    }
}

/// `f` is the Cargo format with exactly this name and version.
pub open spec fn is_cargo_with(f: Format, name: Seq<char>, version: Seq<char>) -> bool {
    match f {
        Format::Cargo(p) => p.package.name@ == name && p.package.version@ == version,
        Format::Unknown => false,
    }
}

/// The install format of a project root, given whether its marker file is
/// there.
pub fn install_format_of(marker_present: bool) -> (r: InstallFormat)
    ensures
        r == spec_install_format(marker_present),
{
    if marker_present {
        InstallFormat::Wharf
    } else {
        InstallFormat::JellyFish
    }
}

/// The Cargo format made of the fields that a descriptor gave, or the error
/// when one is missing or empty.
pub fn format_from_fields(name: Option<String>, version: Option<String>) -> (r: Result<
    Format,
    DetectionError,
>)
    ensures
        r is Ok <==> fields_valid(opt_chars(name), opt_chars(version)),
        r is Err ==> r->Err_0 == DetectionError::MalformedDescriptor,
        r is Ok ==> is_cargo_with(r->Ok_0, name->Some_0@, version->Some_0@),
        r is Ok ==> r->Ok_0.wf(),
{
    match (name, version) {
        (Some(n), Some(v)) => {
            if n.as_str().unicode_len() == 0 || v.as_str().unicode_len() == 0 {
                Err(DetectionError::MalformedDescriptor)
            } else {
                Ok(Format::Cargo(CargoProject { package: InnerPackage { name: n, version: v } }))
            }
        },
        _ => Err(DetectionError::MalformedDescriptor),
    }
}

/// Classifies a project root. `descriptor` is the text of its descriptor
/// file, `None` when there is no such file; `marker_present` says whether
/// the marker file is there. The two axes are decided independently.
pub fn detect(descriptor: Option<&str>, marker_present: bool) -> (r: Result<
    (Format, InstallFormat),
    DetectionError,
>)
    ensures
        descriptor is None ==> r is Ok && r->Ok_0.0 is Unknown,
        descriptor is Some ==> (r is Ok <==> fields_valid(
            toml_string_at(descriptor->Some_0@, PACKAGE_TABLE@, NAME_KEY@),
            toml_string_at(descriptor->Some_0@, PACKAGE_TABLE@, VERSION_KEY@),
        )),
        descriptor is Some && r is Ok ==> is_cargo_with(
            r->Ok_0.0,
            toml_string_at(descriptor->Some_0@, PACKAGE_TABLE@, NAME_KEY@)->Some_0,
            toml_string_at(descriptor->Some_0@, PACKAGE_TABLE@, VERSION_KEY@)->Some_0,
        ),
        r is Err ==> r->Err_0 == DetectionError::MalformedDescriptor,
        r is Ok ==> r->Ok_0.0.wf(),
        r is Ok ==> r->Ok_0.1 == spec_install_format(marker_present),
{
    let install = install_format_of(marker_present);
    match descriptor {
        None => Ok((Format::Unknown, install)),
        Some(text) => {
            let name = toml_string_field(text, PACKAGE_TABLE, NAME_KEY);
            let version = toml_string_field(text, PACKAGE_TABLE, VERSION_KEY);
            let format = format_from_fields(name, version)?;
            Ok((format, install))
        },
    }
}

} // verus!
