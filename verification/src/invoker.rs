//! Resolution invocation: assembling the one immutable resolution request,
//! filtering prior pins into soft preferences, and classifying the external
//! resolver's failures into a fixed taxonomy.

use vstd::prelude::*;
use crate::environment::{PythonRequirement, ResolverEnvironment};
use crate::indexes::IndexLocations;
use crate::isolation::BuildIsolationMode;
use crate::options::{BuildRestrictions, HashPolicy, UpgradePolicy, choose_hash_policy};
use crate::sources::{ExtrasRequest, Requirement};
use crate::text::{contains_string, clone_string};

verus! {

/// One previously pinned package version.
pub struct Pin {
    pub name: String,
    pub version: String,
}

/// The pins kept as soft preferences under the upgrade policy: upgrading
/// everything keeps none, upgrading nothing keeps all, and upgrading named
/// packages drops exactly the pins with those names.
pub open spec fn kept_preferences(prior: Seq<Pin>, policy: UpgradePolicy) -> Seq<Pin>
    decreases prior.len(),
{
    match policy {
        UpgradePolicy::UpgradeAll => Seq::empty(),
        UpgradePolicy::NoUpgrades => prior,
        UpgradePolicy::UpgradeNamed(names) => if prior.len() == 0 {
            Seq::empty()
        } else {
            kept_preferences(prior.drop_last(), policy) + (if names.deep_view().contains(
                prior.last().name@,
            ) {
                Seq::empty()
            } else {
                seq![prior.last()]
            })
        },
    }
}

/// Copy a pin, keeping its fields.
fn clone_pin(p: &Pin) -> (r: Pin)
    ensures
        r == *p,
{
    Pin { name: p.name.clone(), version: p.version.clone() }
}

/// Keep prior pins as soft preferences, as the upgrade policy allows.
pub fn filter_preferences(prior: &Vec<Pin>, policy: &UpgradePolicy) -> (r: Vec<Pin>)
    ensures
        r@ == kept_preferences(prior@, *policy),
{
    match policy {
        UpgradePolicy::UpgradeAll => Vec::new(),
        UpgradePolicy::NoUpgrades => {
            let mut r: Vec<Pin> = Vec::new();
            let mut i: usize = 0;
            while i < prior.len()
                invariant
                    i <= prior.len(),
                    r@.len() == i,
                    forall|k: int| 0 <= k < i ==> r@[k] == prior@[k],
                decreases prior.len() - i,
            {
                r.push(clone_pin(&prior[i]));
                i = i + 1;
            }
            proof {
                assert(r@ =~= prior@);
            }
            r
        },
        UpgradePolicy::UpgradeNamed(names) => {
            let mut r: Vec<Pin> = Vec::new();
            let mut i: usize = 0;
            proof {
                assert(prior@.take(0) =~= Seq::<Pin>::empty());
            }
            while i < prior.len()
                invariant
                    i <= prior.len(),
                    *policy == UpgradePolicy::UpgradeNamed(*names),
                    r@ == kept_preferences(prior@.take(i as int), *policy),
                decreases prior.len() - i,
            {
                let ghost before = r@;
                if !contains_string(names, prior[i].name.as_str()) {
                    r.push(clone_pin(&prior[i]));
                }
                proof {
                    let p = prior@;
                    assert(p.take(i as int + 1).drop_last() =~= p.take(i as int));
                    assert(p.take(i as int + 1).last() == p[i as int]);
                    if names.deep_view().contains(p[i as int].name@) {
                        assert(r@ =~= before + Seq::<Pin>::empty());
                    } else {
                        assert(r@ =~= before + seq![p[i as int]]);
                    }
                }
                i = i + 1;
            }
            proof {
                assert(prior@.take(prior.len() as int) =~= prior@);
            }
            r
        },
    }
}

/// The one immutable request handed to the external resolver: the merged
/// sources, the environment, the index configuration, the policies, and the
/// concurrency budget, threaded through opaquely.
pub struct ResolutionRequest {
    pub requirements: Vec<Requirement>,
    pub constraints: Vec<Requirement>,
    pub overrides: Vec<Requirement>,
    pub build_constraints: Vec<Requirement>,
    pub source_trees: Vec<String>,
    pub project: Option<String>,
    pub extras: ExtrasRequest,
    pub preferences: Vec<Pin>,
    pub environment: ResolverEnvironment,
    pub python_requirement: PythonRequirement,
    pub tags: Option<String>,
    pub indexes: IndexLocations,
    pub hash_policy: HashPolicy,
    pub build_hash_policy: HashPolicy,
    pub build_isolation: BuildIsolationMode,
    pub restrictions: BuildRestrictions,
    pub concurrency: u64,
}

/// Assemble the resolution request. Every part is carried over unchanged;
/// the resolution hashes are generated when asked and never enforced, and
/// builds never enforce hashes at all.
pub fn assemble_request(
    requirements: Vec<Requirement>,
    constraints: Vec<Requirement>,
    overrides: Vec<Requirement>,
    build_constraints: Vec<Requirement>,
    source_trees: Vec<String>,
    project: Option<String>,
    extras: ExtrasRequest,
    preferences: Vec<Pin>,
    environment: ResolverEnvironment,
    python_requirement: PythonRequirement,
    tags: Option<String>,
    indexes: IndexLocations,
    generate_hashes: bool,
    build_isolation: BuildIsolationMode,
    restrictions: BuildRestrictions,
    concurrency: u64,
) -> (r: ResolutionRequest)
    ensures
        r.requirements == requirements,
        r.constraints == constraints,
        r.overrides == overrides,
        r.build_constraints == build_constraints,
        r.source_trees == source_trees,
        r.project == project,
        r.extras == extras,
        r.preferences == preferences,
        r.environment == environment,
        r.python_requirement == python_requirement,
        r.tags == tags,
        r.indexes == indexes,
        r.hash_policy is GenerateHashes <==> generate_hashes,
        r.build_hash_policy is NoHashes,
        r.build_isolation == build_isolation,
        r.restrictions == restrictions,
        r.concurrency == concurrency,
{
    ResolutionRequest {
        requirements,
        constraints,
        overrides,
        build_constraints,
        source_trees,
        project,
        extras,
        preferences,
        environment,
        python_requirement,
        tags,
        indexes,
        hash_policy: choose_hash_policy(generate_hashes),
        build_hash_policy: HashPolicy::NoHashes,
        build_isolation,
        restrictions,
        concurrency,
    }
}

/// The closed set of failure shapes the external resolver reports.
pub enum ResolverFailure {
    /// No combination of versions satisfies all constraints; carries the
    /// resolver's full conflict explanation.
    NoSolution(String),
    /// Fetching and building the metadata of one package version failed.
    DownloadAndBuildFailure { name: String, version: String, cause: String },
    /// Natively building one package version failed.
    NativeBuildFailure { name: String, version: String, cause: String },
    /// Any other resolver-internal error, surfaced unmodified.
    OtherFailure(String),
}

/// Which diagnostic wording a reported failure gets.
pub enum DiagnosticKind {
    NoSolutionDiagnostic,
    DownloadAndBuildDiagnostic,
    NativeBuildDiagnostic,
}

/// One user-facing diagnostic: its wording, the package identity where one
/// is to blame, and the underlying cause.
pub struct Diagnostic {
    pub kind: DiagnosticKind,
    pub package: Option<(String, String)>,
    pub detail: String,
}

/// What becomes of a failure: the three classified kinds are reported as
/// diagnostics and the invocation exits as a failure, never a crash; any
/// other error propagates unmodified as fatal.
pub enum FailureDisposition {
    ReportAndFail(Diagnostic),
    PropagateFatal(String),
}

/// Classify one resolver failure. Classification happens at this one point,
/// and resolution is never retried.
pub fn classify_failure(f: ResolverFailure) -> (r: FailureDisposition)
    ensures
        r is ReportAndFail <==> !(f is OtherFailure),
        f matches ResolverFailure::NoSolution(m) ==> (r matches FailureDisposition::ReportAndFail(d)
            && d.kind is NoSolutionDiagnostic && d.package is None && d.detail == m),
        f matches ResolverFailure::DownloadAndBuildFailure { name, version, cause } ==> (r matches
            FailureDisposition::ReportAndFail(d) && d.kind is DownloadAndBuildDiagnostic
            && d.package == Some((name, version)) && d.detail == cause),
        f matches ResolverFailure::NativeBuildFailure { name, version, cause } ==> (r matches
            FailureDisposition::ReportAndFail(d) && d.kind is NativeBuildDiagnostic && d.package
            == Some((name, version)) && d.detail == cause),
        f matches ResolverFailure::OtherFailure(m) ==> (r matches
            FailureDisposition::PropagateFatal(mm) && mm == m),
{
    match f {
        ResolverFailure::NoSolution(m) => FailureDisposition::ReportAndFail(
            Diagnostic {
                kind: DiagnosticKind::NoSolutionDiagnostic,
                package: Option::None,
                detail: m,
            },
        ),
        ResolverFailure::DownloadAndBuildFailure { name, version, cause } => {
            FailureDisposition::ReportAndFail(
                Diagnostic {
                    kind: DiagnosticKind::DownloadAndBuildDiagnostic,
                    package: Option::Some((name, version)),
                    detail: cause,
                },
            )
        },
        ResolverFailure::NativeBuildFailure { name, version, cause } => {
            FailureDisposition::ReportAndFail(
                Diagnostic {
                    kind: DiagnosticKind::NativeBuildDiagnostic,
                    package: Option::Some((name, version)),
                    detail: cause,
                },
            )
        },
        ResolverFailure::OtherFailure(m) => FailureDisposition::PropagateFatal(m),
    }
}

} // verus!
