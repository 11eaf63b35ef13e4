//! The pipeline itself: request assembly from the read sources, and the
//! settling of a resolution outcome into an artifact, a diagnostic, or a
//! fatal error. The external collaborators — source reading, interpreter
//! discovery, the resolver, output commitment — run outside and hand these
//! functions plain values.

use vstd::prelude::*;
use crate::environment::{
    InterpreterVersion, ResolverEnvironment, VersionRequest, derive_environment,
    derive_python_requirement,
};
use crate::errors::CompileError;
use crate::indexes::IndexLocations;
use crate::invoker::{
    Diagnostic, FailureDisposition, Pin, ResolutionRequest, ResolverFailure, assemble_request,
    classify_failure, filter_preferences, kept_preferences,
};
use crate::isolation::decide_build_isolation;
use crate::options::{BuildRestrictions, PackageChoice, UpgradePolicy, combine_restrictions};
use crate::render::{
    RenderOptions, ResolvedGraph, render_text, rendered_text_spec,
};
use crate::sources::{
    ExtrasRequest, Requirement, SourceKind, check_extras_requestable, extras_without_source,
    merge_with_workspace, names_are_unused_extras, static_extras_rejected, validate_static_extras,
};

verus! {

/// Everything the external requirement-source reader hands back: the
/// declared requirements, constraints and overrides, the dynamically
/// derived source trees, the extras the sources use, and the index and
/// build directives discovered inline.
pub struct SourceSpecification {
    pub project: Option<String>,
    pub requirements: Vec<Requirement>,
    pub constraints: Vec<Requirement>,
    pub overrides: Vec<Requirement>,
    pub source_trees: Vec<String>,
    pub used_extras: Vec<String>,
    pub index_url: Option<String>,
    pub extra_index_urls: Vec<String>,
    pub no_index: bool,
    pub find_links: Vec<String>,
    pub no_binary: PackageChoice,
    pub no_build: PackageChoice,
}

/// Assemble the one immutable resolution request from the read sources and
/// the command-line configuration, validating the extras request first.
/// Workspace-derived constraints and overrides are appended strictly after
/// the explicitly supplied ones.
pub fn build_resolution_request(
    source_kinds: &Vec<SourceKind>,
    sources: SourceSpecification,
    workspace_constraints: Vec<Requirement>,
    workspace_overrides: Vec<Requirement>,
    build_constraints: Vec<Requirement>,
    extras: ExtrasRequest,
    prior_pins: &Vec<Pin>,
    upgrade: &UpgradePolicy,
    cli_indexes: IndexLocations,
    cli_restrictions: BuildRestrictions,
    universal: bool,
    python_version: &Option<VersionRequest>,
    interp: &InterpreterVersion,
    supported_markers: Vec<String>,
    marker_env: String,
    tags: String,
    no_build_isolation: bool,
    no_build_isolation_package: Vec<String>,
    generate_hashes: bool,
    concurrency: u64,
) -> (r: Result<ResolutionRequest, CompileError>)
    ensures
        r is Err <==> (extras_without_source(extras, source_kinds@) || static_extras_rejected(
            extras,
            sources.source_trees.deep_view(),
            sources.used_extras.deep_view(),
        )),
        extras_without_source(extras, source_kinds@) ==> (r matches Err(e) && e
            is ExtrasWithoutSource),
        !extras_without_source(extras, source_kinds@) && static_extras_rejected(
            extras,
            sources.source_trees.deep_view(),
            sources.used_extras.deep_view(),
        ) ==> (r matches Err(e) && e matches CompileError::UnusedExtras(names)
            && names_are_unused_extras(
            names.deep_view(),
            extras,
            sources.used_extras.deep_view(),
        )),
        r matches Ok(req) ==> req.requirements == sources.requirements,
        r matches Ok(req) ==> req.constraints@ == sources.constraints@ + workspace_constraints@,
        r matches Ok(req) ==> req.overrides@ == sources.overrides@ + workspace_overrides@,
        r matches Ok(req) ==> req.build_constraints == build_constraints,
        r matches Ok(req) ==> req.source_trees == sources.source_trees,
        r matches Ok(req) ==> req.project == sources.project,
        r matches Ok(req) ==> req.extras == extras,
        r matches Ok(req) ==> req.preferences@ == kept_preferences(prior_pins@, *upgrade),
        r matches Ok(req) ==> (universal ==> req.tags is None && (req.environment matches
            ResolverEnvironment::UniversalEnvironment { markers } && markers == supported_markers)),
        r matches Ok(req) ==> (!universal ==> ((req.tags matches Some(t) && t == tags)
            && (req.environment matches ResolverEnvironment::SpecificEnvironment { marker_env: m }
            && m == marker_env))),
        r matches Ok(req) ==> (req.hash_policy is GenerateHashes <==> generate_hashes),
        r matches Ok(req) ==> req.build_hash_policy is NoHashes,
        r matches Ok(req) ==> (no_build_isolation ==> req.build_isolation is SharedAll),
        r matches Ok(req) ==> (!no_build_isolation && no_build_isolation_package@.len() == 0
            ==> req.build_isolation is Isolated),
        r matches Ok(req) ==> (!no_build_isolation && no_build_isolation_package@.len() > 0 ==> (
        req.build_isolation matches crate::isolation::BuildIsolationMode::SharedNamed(n) && n
            == no_build_isolation_package)),
        r matches Ok(req) ==> req.indexes.no_index == (cli_indexes.no_index || sources.no_index),
        r matches Ok(req) ==> (forall|i: int|
            0 <= i < cli_indexes.indexes@.len() ==> req.indexes.indexes@[i]
                == cli_indexes.indexes@[i]),
        r matches Ok(req) ==> (forall|i: int|
            0 <= i < cli_indexes.flat@.len() ==> req.indexes.flat@[i] == cli_indexes.flat@[i]),
        r matches Ok(req) ==> ((cli_restrictions.no_binary is AllPackages || sources.no_binary
            is AllPackages) <==> req.restrictions.no_binary is AllPackages),
        r matches Ok(req) ==> ((cli_restrictions.no_build is AllPackages || sources.no_build
            is AllPackages) <==> req.restrictions.no_build is AllPackages),
        r matches Ok(req) ==> req.concurrency == concurrency,
{
    // Extras are meaningless without a source able to declare them.
    if let Err(e) = check_extras_requestable(&extras, source_kinds) {
        return Err(e);
    }
    // With every source statically readable, every requested extra must be
    // declared somewhere.
    if let Err(e) = validate_static_extras(&extras, &sources.source_trees, &sources.used_extras) {
        return Err(e);
    }
    let constraints = merge_with_workspace(sources.constraints, workspace_constraints);
    let overrides = merge_with_workspace(sources.overrides, workspace_overrides);
    let preferences = filter_preferences(prior_pins, upgrade);
    let (tags_out, environment) = derive_environment(universal, supported_markers, marker_env, tags);
    let python_requirement = derive_python_requirement(universal, python_version, interp);
    let indexes = cli_indexes.combine(
        &sources.extra_index_urls,
        &sources.index_url,
        &sources.find_links,
        sources.no_index,
    );
    let restrictions = combine_restrictions(cli_restrictions, sources.no_binary, sources.no_build);
    let build_isolation = decide_build_isolation(no_build_isolation, no_build_isolation_package);
    Ok(
        assemble_request(
            sources.requirements,
            constraints,
            overrides,
            build_constraints,
            sources.source_trees,
            sources.project,
            extras,
            preferences,
            environment,
            python_requirement,
            tags_out,
            indexes,
            generate_hashes,
            build_isolation,
            restrictions,
            concurrency,
        ),
    )
}

/// What one invocation settles to after the external resolver has answered:
/// the rendered artifact to commit, a classified diagnostic with a failure
/// exit, or an unclassified fatal error.
pub enum Settled {
    RenderedArtifact(String),
    FailedWithDiagnostic(Diagnostic),
    FatalFailure(String),
}

/// Settle the resolution outcome. A resolved graph renders to the full
/// output text; the three classified failure shapes become diagnostics and
/// a failure exit, never a crash; anything else propagates unmodified.
pub fn settle_outcome(
    outcome: Result<ResolvedGraph, ResolverFailure>,
    no_emit: &Vec<String>,
    o: &RenderOptions,
    locations: &IndexLocations,
    restr: &BuildRestrictions,
    cmd: &String,
    relevant: &Option<String>,
    specific: bool,
) -> (r: Settled)
    ensures
        outcome matches Ok(g) ==> (r matches Settled::RenderedArtifact(text) && text@
            == rendered_text_spec(
            g.entries@,
            no_emit.deep_view(),
            *o,
            locations.indexes@,
            locations.flat@,
            *restr,
            cmd@,
            relevant.deep_view(),
            specific,
        )),
        outcome matches Err(f) ==> ((f matches ResolverFailure::NoSolution(m) ==> (r matches
            Settled::FailedWithDiagnostic(d) && d.kind is NoSolutionDiagnostic && d.package is None
            && d.detail == m)) && (f matches ResolverFailure::DownloadAndBuildFailure {
            name,
            version,
            cause,
        } ==> (r matches Settled::FailedWithDiagnostic(d) && d.kind is DownloadAndBuildDiagnostic
            && d.package == Some((name, version)) && d.detail == cause)) && (f matches
            ResolverFailure::NativeBuildFailure { name, version, cause } ==> (r matches
            Settled::FailedWithDiagnostic(d) && d.kind is NativeBuildDiagnostic && d.package
            == Some((name, version)) && d.detail == cause)) && (f matches
            ResolverFailure::OtherFailure(m) ==> (r matches Settled::FatalFailure(mm) && mm == m))),
{
    match outcome {
        Result::Ok(graph) => {
            let text = render_text(&graph, no_emit, o, locations, restr, cmd, relevant, specific);
            Settled::RenderedArtifact(text)
        },
        Result::Err(f) => match classify_failure(f) {
            FailureDisposition::ReportAndFail(d) => Settled::FailedWithDiagnostic(d),
            FailureDisposition::PropagateFatal(m) => Settled::FatalFailure(m),
        },
    }
}

} // verus!
