//! The layout of the package archive: which files go in, under which names.
//! Reading the files and writing the compressed archive is left to the
//! caller, which follows the plan entry by entry.

use vstd::prelude::*;

use crate::format::cargo::CargoProject;
use crate::format::install::InstallFormat;

verus! {

/// The directory of the archive that holds the build artifacts.
pub const ARTIFACT_DIR: &'static str = "bin/";

/// The pattern that sidecar files of the project root match.
pub const SIDECAR_PATTERN: &'static str = "*.rope";

/// The extension of the archive's file name.
pub const ARCHIVE_EXTENSION: &'static str = ".jellyfish";

/// One entry of the archive: a directory when `source` is `None`, else the
/// file at `source` stored under `path`.
pub struct ArchiveEntry {
    pub path: String,
    pub source: Option<String>,
}

/// Why an archive could not be written.
pub enum ArchiveError {
    /// The archive file could not be created.
    CreateFailed,
    /// The file at `path` could not be read into the archive.
    AppendFailed { path: String },
}

/// The path and source of an entry, as characters.
pub type EntryView = (Seq<char>, Option<Seq<char>>);

impl View for ArchiveEntry {
    type V = EntryView;

    open spec fn view(&self) -> EntryView {
        (
            self.path@,
            match self.source {
                Some(s) => Some(s@),
                None => None,
            },
        )
    }
}

/// Whether `name` matches the glob pattern `pattern` (with glob's default
/// options); `false` when the pattern is not valid.
pub uninterp spec fn glob_match(pattern: Seq<char>, name: Seq<char>) -> bool;

/// Relies on `glob::Pattern::new` and `glob::Pattern::matches`: whether
/// `name` matches `pattern`, no match for a pattern that does not compile.
#[verifier::external_body]
fn pattern_matches(pattern: &str, name: &str) -> (r: bool)
    ensures
        r == glob_match(pattern@, name@),
{
    glob::Pattern::new(pattern).map_or(false, |p| p.matches(name))
}

/// The last component of a path: what follows its last `/`.
pub open spec fn base_name(p: Seq<char>) -> Seq<char>
    decreases p.len(),
{
    if p.len() == 0 {
        p
    } else if p.last() == '/' {
        Seq::empty()
    } else {
        base_name(p.drop_last()).push(p.last())
    }
}

/// The file name of the archive of `project`.
pub open spec fn spec_archive_name(name: Seq<char>) -> Seq<char> {
    name + ARCHIVE_EXTENSION@
}

/// The entry of an artifact: its file name under the artifact directory.
pub open spec fn artifact_entry(a: Seq<char>) -> EntryView {
    (ARTIFACT_DIR@ + base_name(a), Some(a))
}

/// The entries of the first `n` root files that are sidecars: each at the
/// top level, under its file name.
pub open spec fn sidecar_entries(files: Seq<Seq<char>>, n: int) -> Seq<EntryView>
    decreases n,
{
    if n <= 0 {
        Seq::empty()
    } else if glob_match(SIDECAR_PATTERN@, files[n - 1]) {
        sidecar_entries(files, n - 1).push((base_name(files[n - 1]), Some(files[n - 1])))
    } else {
        sidecar_entries(files, n - 1)
    }
}

/// The whole archive: the artifact directory, each artifact under it, and
/// for the `Wharf` install format the sidecars among the root files.
pub open spec fn planned(
    artifacts: Seq<Seq<char>>,
    install: InstallFormat,
    root_files: Seq<Seq<char>>,
) -> Seq<EntryView> {
    seq![(ARTIFACT_DIR@, None::<Seq<char>>)] + artifacts.map_values(|a: Seq<char>| artifact_entry(a))
        + match install {
        InstallFormat::Wharf => sidecar_entries(root_files, root_files.len() as int),
        InstallFormat::JellyFish => Seq::empty(),
    }
}

/// The characters of each string.
pub open spec fn str_views(v: Seq<String>) -> Seq<Seq<char>> {
    v.map_values(|s: String| s@)
}

/// The characters of each entry.
pub open spec fn entry_views(v: Seq<ArchiveEntry>) -> Seq<EntryView> {
    v.map_values(|e: ArchiveEntry| e@)
}

/// An archive with no artifacts, for the default install format, holds the
/// artifact directory alone.
pub proof fn lemma_empty_plan(root_files: Seq<Seq<char>>)
    ensures
        planned(Seq::empty(), InstallFormat::JellyFish, root_files) == seq![
            (ARTIFACT_DIR@, None::<Seq<char>>),
        ],
{
    assert(planned(Seq::empty(), InstallFormat::JellyFish, root_files) =~= seq![
        (ARTIFACT_DIR@, None::<Seq<char>>),
    ]);
}

/// The sidecar entries of the first `n` root files are exactly the entries
/// of those among them that match the sidecar pattern.
pub proof fn lemma_sidecars_exact(files: Seq<Seq<char>>, n: int)
    requires
        0 <= n <= files.len(),
    ensures
        forall|e: EntryView|
            sidecar_entries(files, n).contains(e) <==> exists|k: int|
                0 <= k < n && glob_match(SIDECAR_PATTERN@, files[k]) && e == (
                    base_name(files[k]),
                    Some(files[k]),
                ),
    decreases n,
{
    if n > 0 {
        lemma_sidecars_exact(files, n - 1);
        let prev = sidecar_entries(files, n - 1);
        let f = files[n - 1];
        assert forall|e: EntryView|
            sidecar_entries(files, n).contains(e) <==> exists|k: int|
                0 <= k < n && glob_match(SIDECAR_PATTERN@, files[k]) && e == (
                    base_name(files[k]),
                    Some(files[k]),
                ) by {
            if sidecar_entries(files, n).contains(e) {
                if prev.contains(e) {
                    let k = choose|k: int|
                        0 <= k < n - 1 && glob_match(SIDECAR_PATTERN@, files[k]) && e == (
                            base_name(files[k]),
                            Some(files[k]),
                        );
                    assert(0 <= k < n);
                } else {
                    let i = choose|i: int|
                        0 <= i < sidecar_entries(files, n).len() && sidecar_entries(files, n)[i]
                            == e;
                    if i < prev.len() {
                        assert(prev[i] == e);
                    }
                    assert(glob_match(SIDECAR_PATTERN@, files[n - 1]));
                    assert(e == (base_name(f), Some(f)));
                }
            }
            if exists|k: int|
                0 <= k < n && glob_match(SIDECAR_PATTERN@, files[k]) && e == (
                    base_name(files[k]),
                    Some(files[k]),
                ) {
                let k = choose|k: int|
                    0 <= k < n && glob_match(SIDECAR_PATTERN@, files[k]) && e == (
                        base_name(files[k]),
                        Some(files[k]),
                    );
                if k < n - 1 {
                    assert(prev.contains(e));
                    let i = choose|i: int| 0 <= i < prev.len() && prev[i] == e;
                    assert(sidecar_entries(files, n)[i] == e);
                } else {
                    let s = sidecar_entries(files, n);
                    assert(s[s.len() - 1] == e);
                }
            }
        }
    }
}

/// With the `Wharf` install format, the archive holds every root file that
/// matches the sidecar pattern, at the top level under its file name, and
/// after the artifacts nothing else.
pub proof fn lemma_wharf_sidecars(
    artifacts: Seq<Seq<char>>,
    root_files: Seq<Seq<char>>,
)
    ensures
        ({
            let p = planned(artifacts, InstallFormat::Wharf, root_files);
            let tail = p.subrange(1 + artifacts.len() as int, p.len() as int);
            forall|e: EntryView|
                tail.contains(e) <==> exists|k: int|
                    0 <= k < root_files.len() && glob_match(SIDECAR_PATTERN@, root_files[k]) && e
                        == (base_name(root_files[k]), Some(root_files[k]))
        }),
{
    let p = planned(artifacts, InstallFormat::Wharf, root_files);
    let head = seq![(ARTIFACT_DIR@, None::<Seq<char>>)] + artifacts.map_values(
        |a: Seq<char>| artifact_entry(a),
    );
    let side = sidecar_entries(root_files, root_files.len() as int);
    assert(p == head + side);
    assert(p.subrange(1 + artifacts.len() as int, p.len() as int) =~= side);
    lemma_sidecars_exact(root_files, root_files.len() as int);
}

/// The last component of `path`.
pub fn file_name(path: &str) -> (r: String)
    ensures
        r@ == base_name(path@),
{
    let len = path.unicode_len();
    let mut start: usize = 0;
    let mut i: usize = 0;
    while i < len
        invariant
            len == path@.len(),
            start <= i <= len,
            path@.subrange(start as int, i as int) == base_name(path@.subrange(0, i as int)),
        decreases len - i,
    {
        let ghost pre = path@.subrange(0, i as int);
        assert(path@.subrange(0, i as int + 1).drop_last() =~= pre);
        if path.get_char(i) == '/' {
            start = i + 1;
        }
        i = i + 1;
        assert(path@.subrange(start as int, i as int) =~= base_name(path@.subrange(0, i as int)));
    }
    assert(path@.subrange(0, len as int) =~= path@);
    path.substring_char(start, len).to_string()
}

/// Whether a root file is a sidecar.
pub fn is_sidecar(name: &str) -> (r: bool)
    ensures
        r == glob_match(SIDECAR_PATTERN@, name@),
{
    pattern_matches(SIDECAR_PATTERN, name)
}

/// The file name of the archive of `project`.
pub fn archive_name(project: &CargoProject) -> (r: String)
    ensures
        r@ == spec_archive_name(project.package.name@),
{
    let mut r = project.package.name.clone();
    r.append(ARCHIVE_EXTENSION);
    r
}

/// The entries of the archive, in order: `artifacts` are the located build
/// outputs, `root_files` the names of the files at the project root.
pub fn plan_archive(
    artifacts: &Vec<String>,
    install: InstallFormat,
    root_files: &Vec<String>,
) -> (r: Vec<ArchiveEntry>)
    ensures
        entry_views(r@) == planned(str_views(artifacts@), install, str_views(root_files@)),
{
    let ghost arts = str_views(artifacts@);
    let ghost files = str_views(root_files@);
    let mut r: Vec<ArchiveEntry> = Vec::new();
    r.push(ArchiveEntry { path: String::from_str(ARTIFACT_DIR), source: None });
    assert(entry_views(r@) =~= seq![(ARTIFACT_DIR@, None::<Seq<char>>)]);
    let mut i: usize = 0;
    while i < artifacts.len()
        invariant
            arts == str_views(artifacts@),
            i <= artifacts@.len(),
            entry_views(r@) == seq![(ARTIFACT_DIR@, None::<Seq<char>>)] + arts.subrange(
                0,
                i as int,
            ).map_values(|a: Seq<char>| artifact_entry(a)),
        decreases artifacts@.len() - i,
    {
        let a = &artifacts[i];
        let ghost before = r@;
        assert(arts[i as int] == a@);
        let mut path = String::from_str(ARTIFACT_DIR);
        let base = file_name(a.as_str());
        path.append(base.as_str());
        r.push(ArchiveEntry { path, source: Some(a.clone()) });
        assert(entry_views(r@) =~= entry_views(before).push(artifact_entry(a@)));
        assert(arts.subrange(0, i as int + 1) =~= arts.subrange(0, i as int).push(a@));
        assert(entry_views(r@) =~= seq![(ARTIFACT_DIR@, None::<Seq<char>>)] + arts.subrange(
            0,
            i as int + 1,
        ).map_values(|a: Seq<char>| artifact_entry(a)));
        i = i + 1;
    }
    assert(arts.subrange(0, artifacts@.len() as int) =~= arts);
    let ghost head = entry_views(r@);
    if install == InstallFormat::Wharf {
        let mut j: usize = 0;
        while j < root_files.len()
            invariant
                files == str_views(root_files@),
                j <= root_files@.len(),
                entry_views(r@) == head + sidecar_entries(files, j as int),
            decreases root_files@.len() - j,
        {
            let f = &root_files[j];
            let ghost before = r@;
            assert(files[j as int] == f@);
            if is_sidecar(f.as_str()) {
                let name = file_name(f.as_str());
                r.push(ArchiveEntry { path: name, source: Some(f.clone()) });
                assert(entry_views(r@) =~= entry_views(before).push((base_name(f@), Some(f@))));
            }
            assert(entry_views(r@) =~= head + sidecar_entries(files, j as int + 1));
            j = j + 1;
        }
    } else {
        assert(entry_views(r@) =~= head + Seq::<EntryView>::empty());
    }
    r
}

} // verus!
