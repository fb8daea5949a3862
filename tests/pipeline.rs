use jellyfish::archive::{archive_name, file_name, is_sidecar, plan_archive, ArchiveEntry};
use jellyfish::detect::{
    detect, format_from_fields, install_format_of, DetectionError,
};
use jellyfish::executor::{build_command, build_result, BuildError, BuildOutcome};
use jellyfish::format::cargo::{CargoProject, InnerPackage};
use jellyfish::format::install::InstallFormat;
use jellyfish::format::out::PackageType;
use jellyfish::format::Format;
use jellyfish::locate::{candidate_paths, locate, str_lt, BUILD_OUTPUT_DIR};
use jellyfish::manifest::{compile, package_type_of, URL_PLACEHOLDER};

const FOO_DESCRIPTOR: &str = "[package]\nname = \"foo\"\nversion = \"1.2.0\"\nedition = \"2021\"\n";

fn project(name: &str, version: &str) -> CargoProject {
    CargoProject {
        package: InnerPackage { name: name.to_string(), version: version.to_string() },
    }
}

fn strings(v: &[&str]) -> Vec<String> {
    v.iter().map(|s| s.to_string()).collect()
}

fn entry(path: &str, source: Option<&str>) -> (String, Option<String>) {
    (path.to_string(), source.map(|s| s.to_string()))
}

fn entries(plan: &[ArchiveEntry]) -> Vec<(String, Option<String>)> {
    plan.iter().map(|e| (e.path.clone(), e.source.clone())).collect()
}

fn cargo_fields(f: &Format) -> (String, String) {
    match f {
        Format::Cargo(p) => (p.package.name.clone(), p.package.version.clone()),
        Format::Unknown => panic!("expected a Cargo project"),
    }
}

#[test]
fn detect_without_descriptor_is_unknown() {
    let (format, install) = detect(None, false).unwrap();
    assert!(matches!(format, Format::Unknown));
    assert_eq!(install, InstallFormat::JellyFish);
}

#[test]
fn detect_reads_name_and_version_verbatim() {
    let (format, _) = detect(Some(FOO_DESCRIPTOR), false).unwrap();
    assert_eq!(cargo_fields(&format), ("foo".to_string(), "1.2.0".to_string()));
    let odd = "[package]\nname = \"ünï-cödé\"\nversion = \"0.0.1-beta+x\"\n";
    let (format, _) = detect(Some(odd), false).unwrap();
    assert_eq!(cargo_fields(&format), ("ünï-cödé".to_string(), "0.0.1-beta+x".to_string()));
}

#[test]
fn detect_all_four_combinations() {
    let cases = [(None, false), (None, true), (Some(FOO_DESCRIPTOR), false), (Some(FOO_DESCRIPTOR), true)];
    for (descriptor, marker) in cases {
        let (format, install) = detect(descriptor, marker).unwrap();
        assert_eq!(matches!(format, Format::Cargo(_)), descriptor.is_some());
        let expected = if marker { InstallFormat::Wharf } else { InstallFormat::JellyFish };
        assert_eq!(install, expected);
    }
}

#[test]
fn detect_malformed_descriptors() {
    let missing_version = "[package]\nname = \"foo\"\n";
    let wrong_type = "[package]\nname = \"foo\"\nversion = 3\n";
    let no_table = "name = \"foo\"\nversion = \"1.0.0\"\n";
    let not_toml = "[package\nname = ";
    let empty_name = "[package]\nname = \"\"\nversion = \"1.0.0\"\n";
    for text in [missing_version, wrong_type, no_table, not_toml, empty_name] {
        assert!(matches!(detect(Some(text), true), Err(DetectionError::MalformedDescriptor)));
    }
}

#[test]
fn fields_to_format() {
    let f = format_from_fields(Some("a".to_string()), Some("1".to_string())).unwrap();
    assert_eq!(cargo_fields(&f), ("a".to_string(), "1".to_string()));
    assert!(format_from_fields(None, Some("1".to_string())).is_err());
    assert!(format_from_fields(Some("a".to_string()), None).is_err());
    assert!(format_from_fields(Some("a".to_string()), Some(String::new())).is_err());
}

#[test]
fn install_format_follows_marker() {
    assert_eq!(install_format_of(true), InstallFormat::Wharf);
    assert_eq!(install_format_of(false), InstallFormat::JellyFish);
}

#[test]
fn build_command_is_release_build() {
    let c = build_command(&Format::Cargo(project("foo", "1.0.0")));
    assert_eq!(c.program, "cargo");
    assert_eq!(c.args, strings(&["build", "--release"]));
}

#[test]
fn build_outcomes() {
    let ok = BuildOutcome::from_exit_code(Some(0));
    assert!(ok.succeeded);
    assert_eq!(build_result(Some(ok)), Ok(ok));
    let failed = BuildOutcome::from_exit_code(Some(101));
    assert!(!failed.succeeded);
    assert_eq!(build_result(Some(failed)), Err(BuildError::BuildFailed { exit_code: Some(101) }));
    let killed = BuildOutcome::from_exit_code(None);
    assert!(!killed.succeeded);
    assert_eq!(build_result(Some(killed)), Err(BuildError::BuildFailed { exit_code: None }));
    assert_eq!(build_result(None), Err(BuildError::ToolNotFound));
}

#[test]
fn string_order() {
    assert!(str_lt("abc", "abd"));
    assert!(str_lt("ab", "abc"));
    assert!(!str_lt("abc", "abc"));
    assert!(!str_lt("b", "abc"));
    assert!(str_lt("", "a"));
}

#[test]
fn candidates_are_sorted() {
    let p = project("foo", "1.0.0");
    let c = candidate_paths(&p, BUILD_OUTPUT_DIR, ".exe");
    assert_eq!(c, strings(&["target/release/foo.exe", "target/release/libfoo.rlib"]));
    let q = project("zed", "1.0.0");
    let c = candidate_paths(&q, "out/", "");
    assert_eq!(c, strings(&["out/libzed.rlib", "out/zed"]));
}

#[test]
fn locate_none_present_is_empty() {
    let c = candidate_paths(&project("foo", "1.0.0"), BUILD_OUTPUT_DIR, "");
    assert!(locate(&c, &vec![false, false]).is_empty());
}

#[test]
fn locate_both_present_is_sorted_and_repeatable() {
    let p = project("zed", "1.0.0");
    let c = candidate_paths(&p, BUILD_OUTPUT_DIR, "");
    let first = locate(&c, &vec![true, true]);
    assert_eq!(first, strings(&["target/release/libzed.rlib", "target/release/zed"]));
    let again = locate(&candidate_paths(&p, BUILD_OUTPUT_DIR, ""), &vec![true, true]);
    assert_eq!(first, again);
}

#[test]
fn locate_keeps_only_present() {
    let c = strings(&["a", "b", "c"]);
    assert_eq!(locate(&c, &vec![false, true, true]), strings(&["b", "c"]));
}

#[test]
fn file_names() {
    assert_eq!(file_name("target/release/foo"), "foo");
    assert_eq!(file_name("foo.rope"), "foo.rope");
    assert_eq!(file_name("a/b/"), "");
    assert_eq!(file_name(""), "");
}

#[test]
fn sidecar_pattern() {
    assert!(is_sidecar("build.rope"));
    assert!(is_sidecar(".rope"));
    assert!(!is_sidecar("build.rope.bak"));
    assert!(!is_sidecar("Cargo.toml"));
}

#[test]
fn archive_file_name() {
    assert_eq!(archive_name(&project("foo", "1.0.0")), "foo.jellyfish");
}

#[test]
fn empty_standard_archive_has_only_bin() {
    let plan = plan_archive(&vec![], InstallFormat::JellyFish, &strings(&["x.rope"]));
    assert_eq!(entries(&plan), vec![entry("bin/", None)]);
}

#[test]
fn standard_archive_skips_sidecars() {
    let plan = plan_archive(
        &strings(&["target/release/foo"]),
        InstallFormat::JellyFish,
        &strings(&["a.rope", "Cargo.toml"]),
    );
    assert_eq!(
        entries(&plan),
        vec![entry("bin/", None), entry("bin/foo", Some("target/release/foo"))]
    );
}

#[test]
fn wharf_archive_takes_every_sidecar() {
    let plan = plan_archive(
        &strings(&["target/release/libfoo.rlib"]),
        InstallFormat::Wharf,
        &strings(&["a.rope", "Cargo.toml", "build.rope", "notes.rope.txt"]),
    );
    assert_eq!(
        entries(&plan),
        vec![
            entry("bin/", None),
            entry("bin/libfoo.rlib", Some("target/release/libfoo.rlib")),
            entry("a.rope", Some("a.rope")),
            entry("build.rope", Some("build.rope")),
        ]
    );
}

#[test]
fn manifest_without_override_uses_placeholder() {
    let m = compile(Format::Cargo(project("foo", "1.2.0")), InstallFormat::JellyFish, None);
    assert_eq!(m.install.url, "<INSERT DOWNLOAD URL>");
    assert_eq!(m.install.url, URL_PLACEHOLDER);
    assert_eq!(m.install.type_, PackageType::JellyFish);
}

#[test]
fn manifest_with_override_and_wharf() {
    let m = compile(
        Format::Cargo(project("bar", "0.3.0")),
        InstallFormat::Wharf,
        Some("https://example.org/bar.jellyfish".to_string()),
    );
    assert_eq!(m.name, "bar");
    assert_eq!(m.friendly_name, "bar");
    assert_eq!(m.version, "0.3.0");
    assert_eq!(m.install.url, "https://example.org/bar.jellyfish");
    assert_eq!(m.install.type_, PackageType::Wharf);
}

#[test]
fn package_type_tags() {
    assert_eq!(package_type_of(InstallFormat::JellyFish), PackageType::JellyFish);
    assert_eq!(package_type_of(InstallFormat::Wharf), PackageType::Wharf);
}

#[test]
fn end_to_end_foo() {
    let (format, install) = detect(Some(FOO_DESCRIPTOR), false).unwrap();
    assert_eq!(install, InstallFormat::JellyFish);
    let outcome = build_result(Some(BuildOutcome::from_exit_code(Some(0)))).unwrap();
    assert!(outcome.succeeded);
    let p = match &format {
        Format::Cargo(p) => p,
        Format::Unknown => panic!("expected a Cargo project"),
    };
    let candidates = candidate_paths(p, BUILD_OUTPUT_DIR, "");
    let present: Vec<bool> = candidates.iter().map(|c| c == "target/release/foo").collect();
    let artifacts = locate(&candidates, &present);
    assert_eq!(archive_name(p), "foo.jellyfish");
    let plan = plan_archive(&artifacts, install, &strings(&["Cargo.toml"]));
    assert_eq!(
        entries(&plan),
        vec![entry("bin/", None), entry("bin/foo", Some("target/release/foo"))]
    );
    let m = compile(format, install, Some("https://x/y".to_string()));
    assert_eq!(m.name, "foo");
    assert_eq!(m.friendly_name, "foo");
    assert_eq!(m.version, "1.2.0");
    assert_eq!(m.install.url, "https://x/y");
    assert_eq!(m.install.type_, PackageType::JellyFish);
}
