use pip_compile::command::reconstruct_command;
use pip_compile::environment::{
    InterpreterRequest, InterpreterVersion, VersionRequest, needs_separate_top_level_index,
    plan_interpreter_request, should_warn_version_mismatch,
};
use pip_compile::errors::CompileError;
use pip_compile::indexes::{Index, IndexLocations, IndexOrigin};
use pip_compile::invoker::{
    DiagnosticKind, FailureDisposition, Pin, ResolverFailure, classify_failure, filter_preferences,
};
use pip_compile::isolation::{BuildIsolationMode, decide_build_isolation};
use pip_compile::options::{
    AnnotationKind, BuildRestrictions, PackageChoice, UpgradePolicy, combine_choice,
};
use pip_compile::pipeline::{Settled, SourceSpecification, build_resolution_request, settle_outcome};
use pip_compile::render::{RenderOptions, ResolvedEntry, ResolvedGraph, render_text};
use pip_compile::sources::{
    ExtrasRequest, Requirement, SourceKind, check_extras_requestable, validate_static_extras,
};

fn s(x: &str) -> String {
    String::from(x)
}

fn strings(xs: &[&str]) -> Vec<String> {
    xs.iter().map(|x| String::from(*x)).collect()
}

fn requirement(name: &str, specifier: &str) -> Requirement {
    Requirement { name: s(name), specifier: s(specifier), extras: Vec::new(), marker: None }
}

fn entry(name: &str, version: &str) -> ResolvedEntry {
    ResolvedEntry {
        name: s(name),
        version: s(version),
        extras: Vec::new(),
        marker: None,
        hashes: Vec::new(),
        dependents: Vec::new(),
        index_url: None,
    }
}

fn plain_options() -> RenderOptions {
    RenderOptions {
        include_header: false,
        include_marker_expression: false,
        include_index_url: false,
        include_find_links: false,
        include_build_options: false,
        include_extras: false,
        include_markers: false,
        include_annotations: false,
        include_index_annotation: false,
        annotation_style: AnnotationKind::LineAnnotations,
        generate_hashes: false,
    }
}

fn no_indexes() -> IndexLocations {
    IndexLocations { indexes: Vec::new(), flat: Vec::new(), no_index: false }
}

fn no_restrictions() -> BuildRestrictions {
    BuildRestrictions { no_binary: PackageChoice::NoPackages, no_build: PackageChoice::NoPackages }
}

fn index(url: &str, is_default: bool) -> Index {
    Index {
        url: s(url),
        origin: IndexOrigin::CommandLineOrigin,
        is_default,
        credentials: None,
    }
}

#[test]
fn reconstructs_without_index_urls() {
    let args = strings(&["--index-url", "https://x", "--upgrade", "foo"]);
    let out = reconstruct_command("uv", &args, false, false, None);
    assert_eq!(out, "uv foo");
}

#[test]
fn reconstructs_without_upgrade_package() {
    let args = strings(&["-P", "pkg", "--quiet", "bar"]);
    let out = reconstruct_command("uv", &args, false, false, None);
    assert_eq!(out, "uv bar");
}

#[test]
fn reconstructs_without_joined_find_links() {
    let args = strings(&["--find-links=./local", "baz"]);
    let out = reconstruct_command("uv", &args, false, false, None);
    assert_eq!(out, "uv baz");
}

#[test]
fn reconstructs_with_custom_command() {
    let args = strings(&["--upgrade", "foo"]);
    let out = reconstruct_command("uv", &args, false, false, Some(s("make lock")));
    assert_eq!(out, "make lock");
}

#[test]
fn reconstruction_keeps_index_urls_when_asked() {
    let args = strings(&["--index-url", "https://x", "foo"]);
    let out = reconstruct_command("uv", &args, true, false, None);
    assert_eq!(out, "uv --index-url https://x foo");
}

#[test]
fn reconstruction_drops_attached_short_flags() {
    let args = strings(&["-fxyz", "-v", "-q", "-U", "--upgrade-package=zip", "keep"]);
    let out = reconstruct_command("uv", &args, false, false, None);
    assert_eq!(out, "uv keep");
}

#[test]
fn reconstruction_of_no_arguments_keeps_program_name() {
    let args: Vec<String> = Vec::new();
    let out = reconstruct_command("uv", &args, false, false, None);
    assert_eq!(out, "uv ");
}

#[test]
fn extras_without_capable_source_fail() {
    let extras = ExtrasRequest::Listed(strings(&["fancy"]));
    let kinds = vec![SourceKind::RequirementsFile, SourceKind::NamedPackage];
    let r = check_extras_requestable(&extras, &kinds);
    assert!(matches!(r, Err(CompileError::ExtrasWithoutSource)));
    assert_eq!(
        r.unwrap_err().describe(),
        "Requesting extras requires a `pyproject.toml`, `setup.cfg`, or `setup.py` file."
    );
}

#[test]
fn extras_with_capable_source_pass() {
    let extras = ExtrasRequest::Listed(strings(&["fancy"]));
    let kinds = vec![SourceKind::RequirementsFile, SourceKind::PyprojectToml];
    assert!(check_extras_requestable(&extras, &kinds).is_ok());
}

#[test]
fn empty_extras_never_fail_capability() {
    let kinds = vec![SourceKind::RequirementsFile];
    assert!(check_extras_requestable(&ExtrasRequest::NoExtras, &kinds).is_ok());
    assert!(check_extras_requestable(&ExtrasRequest::Listed(Vec::new()), &kinds).is_ok());
}

#[test]
fn unused_extras_are_listed_sorted_and_once() {
    let extras = ExtrasRequest::Listed(strings(&["zeta", "alpha", "zeta", "used"]));
    let trees: Vec<String> = Vec::new();
    let used = strings(&["used"]);
    let r = validate_static_extras(&extras, &trees, &used);
    match r {
        Err(CompileError::UnusedExtras(names)) => {
            assert_eq!(names, strings(&["alpha", "zeta"]));
            let e = CompileError::UnusedExtras(names);
            assert_eq!(e.describe(), "Requested extras not found: alpha, zeta");
        }
        _ => panic!("expected the unused-extras rejection"),
    }
}

#[test]
fn one_unused_extra_reads_singular() {
    let e = CompileError::UnusedExtras(strings(&["solo"]));
    assert_eq!(e.describe(), "Requested extra not found: solo");
}

#[test]
fn source_trees_defer_extras_validation() {
    let extras = ExtrasRequest::Listed(strings(&["later"]));
    let trees = strings(&["./proj"]);
    let used: Vec<String> = Vec::new();
    assert!(validate_static_extras(&extras, &trees, &used).is_ok());
}

#[test]
fn workspace_constraints_follow_explicit_ones() {
    let explicit = vec![requirement("a", ">=1"), requirement("b", "<2")];
    let workspace = vec![requirement("c", "==3")];
    let merged = pip_compile::sources::merge_with_workspace(explicit, workspace);
    assert_eq!(merged.len(), 3);
    assert_eq!(merged[0].name, "a");
    assert_eq!(merged[1].name, "b");
    assert_eq!(merged[2].name, "c");
}

#[test]
fn classification_covers_every_failure_shape() {
    match classify_failure(ResolverFailure::NoSolution(s("conflict"))) {
        FailureDisposition::ReportAndFail(d) => {
            assert!(matches!(d.kind, DiagnosticKind::NoSolutionDiagnostic));
            assert!(d.package.is_none());
            assert_eq!(d.detail, "conflict");
        }
        _ => panic!("expected a diagnostic"),
    }
    match classify_failure(ResolverFailure::DownloadAndBuildFailure {
        name: s("lxml"),
        version: s("5.0"),
        cause: s("boom"),
    }) {
        FailureDisposition::ReportAndFail(d) => {
            assert!(matches!(d.kind, DiagnosticKind::DownloadAndBuildDiagnostic));
            assert_eq!(d.package, Some((s("lxml"), s("5.0"))));
        }
        _ => panic!("expected a diagnostic"),
    }
    match classify_failure(ResolverFailure::NativeBuildFailure {
        name: s("numpy"),
        version: s("2.0"),
        cause: s("cc"),
    }) {
        FailureDisposition::ReportAndFail(d) => {
            assert!(matches!(d.kind, DiagnosticKind::NativeBuildDiagnostic));
        }
        _ => panic!("expected a diagnostic"),
    }
    match classify_failure(ResolverFailure::OtherFailure(s("io broke"))) {
        FailureDisposition::PropagateFatal(m) => assert_eq!(m, "io broke"),
        _ => panic!("expected fatal propagation"),
    }
}

#[test]
fn preferences_follow_the_upgrade_policy() {
    let prior = vec![
        Pin { name: s("a"), version: s("1") },
        Pin { name: s("b"), version: s("2") },
    ];
    let kept = filter_preferences(&prior, &UpgradePolicy::NoUpgrades);
    assert_eq!(kept.len(), 2);
    let none = filter_preferences(&prior, &UpgradePolicy::UpgradeAll);
    assert_eq!(none.len(), 0);
    let some = filter_preferences(&prior, &UpgradePolicy::UpgradeNamed(strings(&["a"])));
    assert_eq!(some.len(), 1);
    assert_eq!(some[0].name, "b");
}

#[test]
fn isolation_modes_are_mutually_exclusive() {
    assert!(matches!(
        decide_build_isolation(true, Vec::new()),
        BuildIsolationMode::SharedAll
    ));
    assert!(matches!(
        decide_build_isolation(false, Vec::new()),
        BuildIsolationMode::Isolated
    ));
    match decide_build_isolation(false, strings(&["numpy"])) {
        BuildIsolationMode::SharedNamed(names) => assert_eq!(names, strings(&["numpy"])),
        _ => panic!("expected the named exemption"),
    }
}

#[test]
fn build_restriction_combination() {
    match combine_choice(
        PackageChoice::ListedPackages(strings(&["a"])),
        PackageChoice::ListedPackages(strings(&["b"])),
    ) {
        PackageChoice::ListedPackages(v) => assert_eq!(v, strings(&["a", "b"])),
        _ => panic!("expected the concatenated list"),
    }
    assert!(matches!(
        combine_choice(PackageChoice::AllPackages, PackageChoice::NoPackages),
        PackageChoice::AllPackages
    ));
    assert!(matches!(
        combine_choice(PackageChoice::NoPackages, PackageChoice::NoPackages),
        PackageChoice::NoPackages
    ));
}

#[test]
fn interpreter_request_precedence() {
    let explicit = Some(s("pypy@3.10"));
    let version = Some(VersionRequest { major: 3, minor: 11, patch: None });
    match plan_interpreter_request(&explicit, &version) {
        InterpreterRequest::ExplicitInterpreter(t) => assert_eq!(t, "pypy@3.10"),
        _ => panic!("an explicit interpreter string wins"),
    }
    match plan_interpreter_request(&None, &version) {
        InterpreterRequest::BestForVersion(v) => {
            assert_eq!(v.major, 3);
            assert_eq!(v.minor, 11);
        }
        _ => panic!("a requested version wins over the default"),
    }
    assert!(matches!(
        plan_interpreter_request(&None, &None),
        InterpreterRequest::SystemDefault
    ));
}

#[test]
fn separate_index_only_for_a_requested_version() {
    assert!(needs_separate_top_level_index(&Some(VersionRequest {
        major: 3,
        minor: 11,
        patch: None
    })));
    assert!(!needs_separate_top_level_index(&None));
}

#[test]
fn version_mismatch_warning_policy() {
    let interp = InterpreterVersion { major: 3, minor: 12, patch: 4 };
    let builds_on = PackageChoice::NoPackages;
    let builds_off = PackageChoice::AllPackages;
    // an unspecified patch level alone stays silent
    let req = VersionRequest { major: 3, minor: 12, patch: None };
    assert!(!should_warn_version_mismatch(&req, &interp, &builds_on));
    // a differing requested patch level warns
    let req = VersionRequest { major: 3, minor: 12, patch: Some(5) };
    assert!(should_warn_version_mismatch(&req, &interp, &builds_on));
    // a differing minor warns even without a patch level
    let req = VersionRequest { major: 3, minor: 11, patch: None };
    assert!(should_warn_version_mismatch(&req, &interp, &builds_on));
    // disabled builds never warn
    let req = VersionRequest { major: 3, minor: 11, patch: None };
    assert!(!should_warn_version_mismatch(&req, &interp, &builds_off));
    // an exact match never warns
    let req = VersionRequest { major: 3, minor: 12, patch: Some(4) };
    assert!(!should_warn_version_mismatch(&req, &interp, &builds_on));
}

#[test]
fn index_combination_keeps_an_existing_default() {
    let cli = IndexLocations {
        indexes: vec![index("https://main", true)],
        flat: Vec::new(),
        no_index: false,
    };
    let combined = cli.combine(
        &strings(&["https://extra"]),
        &Some(s("https://inline")),
        &strings(&["./links"]),
        false,
    );
    assert_eq!(combined.indexes.len(), 3);
    assert!(combined.indexes[0].is_default);
    assert!(!combined.indexes[1].is_default);
    assert!(!combined.indexes[2].is_default);
    assert_eq!(combined.indexes[2].url, "https://inline");
    assert_eq!(combined.flat.len(), 1);
    assert_eq!(combined.flat[0].url, "./links");
}

#[test]
fn inline_index_becomes_default_when_none_was_set() {
    let combined = no_indexes().combine(&Vec::new(), &Some(s("https://inline")), &Vec::new(), false);
    assert_eq!(combined.indexes.len(), 1);
    assert!(combined.indexes[0].is_default);
}

#[test]
fn no_index_set_anywhere_suppresses_indexes() {
    let combined = no_indexes().combine(&Vec::new(), &None, &Vec::new(), true);
    assert!(combined.no_index);
    let cli = IndexLocations { indexes: Vec::new(), flat: Vec::new(), no_index: true };
    let combined = cli.combine(&Vec::new(), &None, &Vec::new(), false);
    assert!(combined.no_index);
}

#[test]
fn credentials_are_collected_in_order() {
    let mut with_creds = index("https://one", true);
    with_creds.credentials = Some(s("SECRET-REDACTED"));
    let locations = IndexLocations {
        indexes: vec![with_creds, index("https://two", false)],
        flat: Vec::new(),
        no_index: false,
    };
    let pairs = locations.credentials_to_persist();
    assert_eq!(pairs.len(), 1);
    assert_eq!(pairs[0].0, "https://one");
}

#[test]
fn passthrough_error_texts() {
    let e = CompileError::InterpreterNotFound(s("no interpreter matches 3.13"));
    assert_eq!(e.describe(), "no interpreter matches 3.13");
    let e = CompileError::FatalError(s("registry unreachable"));
    assert_eq!(e.describe(), "registry unreachable");
}

#[test]
fn no_index_suppresses_credential_persistence() {
    let mut with_creds = index("https://one", true);
    with_creds.credentials = Some(s("SECRET-REDACTED"));
    let locations = IndexLocations { indexes: vec![with_creds], flat: Vec::new(), no_index: true };
    assert_eq!(locations.credentials_to_persist().len(), 0);
}

#[test]
fn rendering_is_idempotent() {
    let graph = ResolvedGraph { entries: vec![entry("pkga", "1.5.0"), entry("pkgb", "2.0")] };
    let no_emit: Vec<String> = Vec::new();
    let o = plain_options();
    let loc = no_indexes();
    let restr = no_restrictions();
    let cmd = s("uv x");
    let one = render_text(&graph, &no_emit, &o, &loc, &restr, &cmd, &None, true);
    let two = render_text(&graph, &no_emit, &o, &loc, &restr, &cmd, &None, true);
    assert_eq!(one, two);
    assert_eq!(one, "pkga==1.5.0\npkgb==2.0\n");
}

#[test]
fn blank_line_appears_exactly_with_a_preamble() {
    let graph = ResolvedGraph { entries: vec![entry("pkga", "1.0")] };
    let no_emit: Vec<String> = Vec::new();
    let mut o = plain_options();
    let restr = no_restrictions();
    let cmd = s("uv");
    let without = render_text(&graph, &no_emit, &o, &no_indexes(), &restr, &cmd, &None, true);
    assert_eq!(without, "pkga==1.0\n");
    o.include_index_url = true;
    let loc = IndexLocations {
        indexes: vec![index("https://main", true)],
        flat: Vec::new(),
        no_index: false,
    };
    let with = render_text(&graph, &no_emit, &o, &loc, &restr, &cmd, &None, true);
    assert_eq!(with, "--index-url https://main\n\npkga==1.0\n");
}

#[test]
fn supplementary_index_lines_are_deduplicated() {
    let graph = ResolvedGraph { entries: vec![entry("pkga", "1.0")] };
    let no_emit: Vec<String> = Vec::new();
    let mut o = plain_options();
    o.include_index_url = true;
    let loc = IndexLocations {
        indexes: vec![
            index("https://dup", false),
            index("https://dup", false),
            index("https://other", false),
        ],
        flat: Vec::new(),
        no_index: false,
    };
    let text = render_text(
        &graph,
        &no_emit,
        &o,
        &loc,
        &no_restrictions(),
        &s("uv"),
        &None,
        true,
    );
    assert_eq!(
        text,
        "--extra-index-url https://dup\n--extra-index-url https://other\n\npkga==1.0\n"
    );
}

#[test]
fn build_option_lines_render_all_and_lists() {
    let graph = ResolvedGraph { entries: vec![entry("pkga", "1.0")] };
    let no_emit: Vec<String> = Vec::new();
    let mut o = plain_options();
    o.include_build_options = true;
    let restr = BuildRestrictions {
        no_binary: PackageChoice::AllPackages,
        no_build: PackageChoice::ListedPackages(strings(&["numpy"])),
    };
    let text = render_text(
        &graph,
        &no_emit,
        &o,
        &no_indexes(),
        &restr,
        &s("uv"),
        &None,
        true,
    );
    assert_eq!(text, "--no-binary :all:\n--only-binary numpy\n\npkga==1.0\n");
}

#[test]
fn excluded_present_name_gets_one_footer_line() {
    let graph = ResolvedGraph { entries: vec![entry("pkga", "1.0"), entry("setuptools", "70.0")] };
    let no_emit = strings(&["setuptools", "missing"]);
    let text = render_text(
        &graph,
        &no_emit,
        &plain_options(),
        &no_indexes(),
        &no_restrictions(),
        &s("uv"),
        &None,
        true,
    );
    assert_eq!(
        text,
        "pkga==1.0\n\n# The following packages were excluded from the output:\n# setuptools\n"
    );
}

#[test]
fn absent_excluded_name_is_a_silent_no_op() {
    let graph = ResolvedGraph { entries: vec![entry("pkga", "1.0")] };
    let no_emit = strings(&["missing"]);
    let text = render_text(
        &graph,
        &no_emit,
        &plain_options(),
        &no_indexes(),
        &no_restrictions(),
        &s("uv"),
        &None,
        true,
    );
    assert_eq!(text, "pkga==1.0\n");
}

#[test]
fn header_and_annotations_render() {
    let mut e = entry("flask", "3.0.0");
    e.extras = strings(&["async"]);
    e.marker = Some(s("python_version >= '3.8'"));
    e.hashes = strings(&["sha256:abc"]);
    e.dependents = strings(&["webapp", "tools"]);
    e.index_url = Some(s("https://main"));
    let graph = ResolvedGraph { entries: vec![e] };
    let no_emit: Vec<String> = Vec::new();
    let o = RenderOptions {
        include_header: true,
        include_marker_expression: false,
        include_index_url: false,
        include_find_links: false,
        include_build_options: false,
        include_extras: true,
        include_markers: true,
        include_annotations: true,
        include_index_annotation: true,
        annotation_style: AnnotationKind::LineAnnotations,
        generate_hashes: true,
    };
    let text = render_text(
        &graph,
        &no_emit,
        &o,
        &no_indexes(),
        &no_restrictions(),
        &s("uv pip compile reqs.in"),
        &None,
        true,
    );
    let expected = "# This file was autogenerated by uv via the following command:\n#    uv pip compile reqs.in\nflask[async]==3.0.0 ; python_version >= '3.8'\n    --hash=sha256:abc\n    # via webapp, tools\n    # from https://main\n";
    assert_eq!(text, expected);
}

#[test]
fn split_annotations_render_one_line_per_dependent() {
    let mut e = entry("idna", "3.7");
    e.dependents = strings(&["requests", "httpx"]);
    let graph = ResolvedGraph { entries: vec![e] };
    let no_emit: Vec<String> = Vec::new();
    let mut o = plain_options();
    o.include_annotations = true;
    o.annotation_style = AnnotationKind::SplitAnnotations;
    let text = render_text(
        &graph,
        &no_emit,
        &o,
        &no_indexes(),
        &no_restrictions(),
        &s("uv"),
        &None,
        true,
    );
    assert_eq!(text, "idna==3.7\n    # via\n    #   requests\n    #   httpx\n");
}

#[test]
fn marker_expression_renders_only_for_specific_mode() {
    let graph = ResolvedGraph { entries: vec![entry("pkga", "1.0")] };
    let no_emit: Vec<String> = Vec::new();
    let mut o = plain_options();
    o.include_marker_expression = true;
    let relevant = Some(s("sys_platform == 'linux'"));
    let specific = render_text(
        &graph,
        &no_emit,
        &o,
        &no_indexes(),
        &no_restrictions(),
        &s("uv"),
        &relevant,
        true,
    );
    assert_eq!(
        specific,
        "# Pinned dependencies known to be valid for:\n#    sys_platform == 'linux'\npkga==1.0\n"
    );
    let universal = render_text(
        &graph,
        &no_emit,
        &o,
        &no_indexes(),
        &no_restrictions(),
        &s("uv"),
        &relevant,
        false,
    );
    assert_eq!(universal, "pkga==1.0\n");
}

fn scenario_sources(requirements: Vec<Requirement>) -> SourceSpecification {
    SourceSpecification {
        project: None,
        requirements,
        constraints: Vec::new(),
        overrides: Vec::new(),
        source_trees: Vec::new(),
        used_extras: Vec::new(),
        index_url: None,
        extra_index_urls: Vec::new(),
        no_index: false,
        find_links: Vec::new(),
        no_binary: PackageChoice::NoPackages,
        no_build: PackageChoice::NoPackages,
    }
}

#[test]
fn two_sources_pin_one_version_in_range() {
    // two requirement sources declare pkga>=1.0 and pkga<2.0
    let kinds = vec![SourceKind::RequirementsFile, SourceKind::RequirementsFile];
    let sources = scenario_sources(vec![requirement("pkga", ">=1.0"), requirement("pkga", "<2.0")]);
    let prior: Vec<Pin> = Vec::new();
    let interp = InterpreterVersion { major: 3, minor: 12, patch: 4 };
    let request = build_resolution_request(
        &kinds,
        sources,
        Vec::new(),
        Vec::new(),
        Vec::new(),
        ExtrasRequest::NoExtras,
        &prior,
        &UpgradePolicy::NoUpgrades,
        no_indexes(),
        no_restrictions(),
        false,
        &None,
        &interp,
        Vec::new(),
        s("python_version == '3.12'"),
        s("cp312-manylinux"),
        false,
        Vec::new(),
        false,
        8,
    )
    .expect("the request must assemble");
    assert_eq!(request.requirements.len(), 2);
    assert_eq!(request.requirements[0].specifier, ">=1.0");
    assert_eq!(request.requirements[1].specifier, "<2.0");
    // the external resolver answers with one pinned version inside [1.0, 2.0)
    let pinned = "1.5.0";
    let graph = ResolvedGraph { entries: vec![entry("pkga", pinned)] };
    let no_emit: Vec<String> = Vec::new();
    let settled = settle_outcome(
        Ok(graph),
        &no_emit,
        &plain_options(),
        &request.indexes,
        &request.restrictions,
        &s("uv"),
        &None,
        true,
    );
    match settled {
        Settled::RenderedArtifact(text) => {
            // a single pin, no preamble, no footer
            assert_eq!(text, "pkga==1.5.0\n");
        }
        _ => panic!("expected a rendered artifact"),
    }
}

#[test]
fn settled_failures_keep_their_classification() {
    let no_emit: Vec<String> = Vec::new();
    let o = plain_options();
    let loc = no_indexes();
    let restr = no_restrictions();
    let cmd = s("uv");
    let settled = settle_outcome(
        Err(ResolverFailure::NoSolution(s("because"))),
        &no_emit,
        &o,
        &loc,
        &restr,
        &cmd,
        &None,
        true,
    );
    assert!(matches!(settled, Settled::FailedWithDiagnostic(_)));
    let settled = settle_outcome(
        Err(ResolverFailure::OtherFailure(s("disk gone"))),
        &no_emit,
        &o,
        &loc,
        &restr,
        &cmd,
        &None,
        true,
    );
    match settled {
        Settled::FatalFailure(m) => assert_eq!(m, "disk gone"),
        _ => panic!("expected fatal propagation"),
    }
}

#[test]
fn request_validation_rejects_unused_extras_before_resolution() {
    let kinds = vec![SourceKind::PyprojectToml];
    let mut sources = scenario_sources(vec![requirement("pkga", ">=1.0")]);
    sources.used_extras = strings(&["real"]);
    let prior: Vec<Pin> = Vec::new();
    let interp = InterpreterVersion { major: 3, minor: 12, patch: 4 };
    let r = build_resolution_request(
        &kinds,
        sources,
        Vec::new(),
        Vec::new(),
        Vec::new(),
        ExtrasRequest::Listed(strings(&["ghost", "real"])),
        &prior,
        &UpgradePolicy::NoUpgrades,
        no_indexes(),
        no_restrictions(),
        false,
        &None,
        &interp,
        Vec::new(),
        s("env"),
        s("tags"),
        false,
        Vec::new(),
        false,
        4,
    );
    match r {
        Err(CompileError::UnusedExtras(names)) => assert_eq!(names, strings(&["ghost"])),
        _ => panic!("expected the unused-extras rejection"),
    }
}
