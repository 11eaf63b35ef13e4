//! Build isolation policy: whether native builds run in a throwaway
//! environment, a shared one, or a shared one restricted to named packages.

use vstd::prelude::*;

verus! {

/// Exactly one isolation mode per invocation. The shared variants require a
/// concrete interpreter environment to be materialized by the caller.
pub enum BuildIsolationMode {
    /// Every native build runs in a clean, isolated environment.
    Isolated,
    /// Every native build shares one environment from the interpreter.
    SharedAll,
    /// Only the named packages share that environment; the rest build
    /// isolated.
    SharedNamed(Vec<String>),
}

/// A shared interpreter environment must be materialized eagerly.
pub open spec fn isolation_needs_environment(m: BuildIsolationMode) -> bool {
    !(m is Isolated)
}

/// Turn the two mutually exclusive flags into one mode: disabling isolation
/// outright shares the environment with every build; otherwise a nonempty
/// exemption list shares it with those packages only; otherwise isolation is
/// the default and nothing is materialized eagerly.
pub fn decide_build_isolation(no_build_isolation: bool, exempt: Vec<String>) -> (r:
    BuildIsolationMode)
    ensures
        no_build_isolation ==> r is SharedAll,
        !no_build_isolation && exempt@.len() == 0 ==> r is Isolated,
        !no_build_isolation && exempt@.len() > 0 ==> (r matches BuildIsolationMode::SharedNamed(n)
            && n == exempt),
        isolation_needs_environment(r) <==> (no_build_isolation || exempt@.len() > 0),
{
    if no_build_isolation {
        BuildIsolationMode::SharedAll
    } else if exempt.len() == 0 {
        BuildIsolationMode::Isolated
    } else {
        BuildIsolationMode::SharedNamed(exempt)
    }
}

} // verus!
