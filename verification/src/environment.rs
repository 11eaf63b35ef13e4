//! Environment derivation: choosing the interpreter request, the
//! version-mismatch warning policy, and the universal or specific resolution
//! environment.

use vstd::prelude::*;
use crate::options::PackageChoice;

verus! {

/// A requested interpreter version: major.minor with an optional patch level.
#[derive(Clone, Copy)]
pub struct VersionRequest {
    pub major: u32,
    pub minor: u32,
    pub patch: Option<u32>,
}

/// The version of a discovered interpreter.
#[derive(Clone, Copy)]
pub struct InterpreterVersion {
    pub major: u32,
    pub minor: u32,
    pub patch: u32,
}

/// How the interpreter to resolve and build with is chosen.
pub enum InterpreterRequest {
    /// Resolve a literal request string exactly.
    ExplicitInterpreter(String),
    /// Search for the best available interpreter matching a version.
    BestForVersion(VersionRequest),
    /// Fall back to a system default.
    SystemDefault,
}

/// An explicit interpreter string wins over a requested version, which wins
/// over the system default.
pub fn plan_interpreter_request(python: &Option<String>, python_version: &Option<VersionRequest>)
    -> (r: InterpreterRequest)
    ensures
        (*python) matches Some(s) ==> (r matches InterpreterRequest::ExplicitInterpreter(t) && t@
            == s@),
        python is None ==> ((*python_version) matches Some(v) ==> (r
            == InterpreterRequest::BestForVersion(v))),
        python is None && python_version is None ==> r is SystemDefault,
{
    match python {
        Option::Some(s) => InterpreterRequest::ExplicitInterpreter(s.clone()),
        Option::None => match python_version {
            Option::Some(v) => InterpreterRequest::BestForVersion(*v),
            Option::None => InterpreterRequest::SystemDefault,
        },
    }
}

/// The requested and the discovered version agree on major and minor.
pub open spec fn matches_without_patch(req: VersionRequest, interp: InterpreterVersion) -> bool {
    req.major == interp.major && req.minor == interp.minor
}

/// The two name the same release; an absent patch level counts as zero.
pub open spec fn same_release(req: VersionRequest, interp: InterpreterVersion) -> bool {
    &&& req.major == interp.major
    &&& req.minor == interp.minor
    &&& match req.patch {
        Option::Some(p) => p == interp.patch,
        Option::None => interp.patch == 0,
    }
}

/// Warn only when builds are enabled, the versions differ, and either a
/// patch level was requested or major/minor themselves differ — so a
/// difference only in an unspecified patch level stays silent.
pub open spec fn warn_on_mismatch(
    req: VersionRequest,
    interp: InterpreterVersion,
    builds_allowed: bool,
) -> bool {
    &&& builds_allowed
    &&& !same_release(req, interp)
    &&& (req.patch is Some || !matches_without_patch(req, interp))
}

/// Decide the version-mismatch warning. Builds are enabled exactly when the
/// "no source build" restriction selects no packages.
pub fn should_warn_version_mismatch(
    req: &VersionRequest,
    interp: &InterpreterVersion,
    no_build: &PackageChoice,
) -> (r: bool)
    ensures
        r == warn_on_mismatch(*req, *interp, no_build is NoPackages),
{
    let builds_allowed = match no_build {
        PackageChoice::NoPackages => true,
        _ => false,
    };
    let same = req.major == interp.major && req.minor == interp.minor && (match req.patch {
        Option::Some(p) => p == interp.patch,
        Option::None => interp.patch == 0,
    });
    let patch_requested = match req.patch {
        Option::Some(_) => true,
        Option::None => false,
    };
    let without_patch = req.major == interp.major && req.minor == interp.minor;
    builds_allowed && !same && (patch_requested || !without_patch)
}

/// A lower bound on acceptable interpreter versions.
#[derive(Clone, Copy)]
pub struct VersionBound {
    pub major: u32,
    pub minor: u32,
    pub patch: Option<u32>,
}

/// The environment a resolution must be valid for: either a disjunction of
/// supported marker environments (universal) or one concrete marker
/// environment (specific). Platform tags exist only in specific mode.
pub enum ResolverEnvironment {
    UniversalEnvironment { markers: Vec<String> },
    SpecificEnvironment { marker_env: String },
}

/// The interpreter-version requirement handed to the resolver.
pub enum PythonRequirement {
    /// Universal mode: any interpreter at or above the bound.
    LowerBounded(VersionBound),
    /// Specific mode with an explicitly requested version.
    RequestedVersion(VersionRequest),
    /// Specific mode with the discovered interpreter's own version.
    InterpreterOwn(InterpreterVersion),
}

/// In universal mode the requirement is "at or above" the requested version,
/// or, absent one, the selected interpreter's own version; otherwise it is
/// the requested version, or the interpreter's.
pub fn derive_python_requirement(
    universal: bool,
    python_version: &Option<VersionRequest>,
    interp: &InterpreterVersion,
) -> (r: PythonRequirement)
    ensures
        universal ==> ((*python_version) matches Some(v) ==> (r == PythonRequirement::LowerBounded(
            VersionBound { major: v.major, minor: v.minor, patch: v.patch },
        ))),
        universal && python_version is None ==> (r == PythonRequirement::LowerBounded(
            VersionBound { major: interp.major, minor: interp.minor, patch: Some(interp.patch) },
        )),
        !universal ==> ((*python_version) matches Some(v) ==> (r
            == PythonRequirement::RequestedVersion(v))),
        !universal && python_version is None ==> (r == PythonRequirement::InterpreterOwn(*interp)),
{
    if universal {
        match python_version {
            Option::Some(v) => PythonRequirement::LowerBounded(
                VersionBound { major: v.major, minor: v.minor, patch: v.patch },
            ),
            Option::None => PythonRequirement::LowerBounded(
                VersionBound {
                    major: interp.major,
                    minor: interp.minor,
                    patch: Option::Some(interp.patch),
                },
            ),
        }
    } else {
        match python_version {
            Option::Some(v) => PythonRequirement::RequestedVersion(*v),
            Option::None => PythonRequirement::InterpreterOwn(*interp),
        }
    }
}

/// Source packages are built against the installed interpreter, so when the
/// resolution targets a different requested version, the top-level
/// resolution keeps an in-memory package index of its own, separate from
/// the build-time one, to avoid reusing results across environments.
pub fn needs_separate_top_level_index(python_version: &Option<VersionRequest>) -> (r: bool)
    ensures
        r == (python_version is Some),
{
    match python_version {
        Option::Some(_) => true,
        Option::None => false,
    }
}

/// Pick the resolution environment. Universal mode keeps the caller-declared
/// supported marker environments and computes no platform tags; specific
/// mode carries the concrete marker environment and the tags derived from
/// the interpreter and any platform override.
pub fn derive_environment(
    universal: bool,
    supported_markers: Vec<String>,
    marker_env: String,
    tags: String,
) -> (r: (Option<String>, ResolverEnvironment))
    ensures
        universal ==> r.0 is None,
        universal ==> (r.1 matches ResolverEnvironment::UniversalEnvironment { markers } && markers
            == supported_markers),
        !universal ==> (r.0 matches Some(t) && t == tags),
        !universal ==> (r.1 matches ResolverEnvironment::SpecificEnvironment { marker_env: m } && m
            == marker_env),
{
    if universal {
        (Option::None, ResolverEnvironment::UniversalEnvironment { markers: supported_markers })
    } else {
        (Option::Some(tags), ResolverEnvironment::SpecificEnvironment { marker_env })
    }
}

} // verus!
