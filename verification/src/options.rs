//! Shared option types threaded through the pipeline: build restrictions,
//! annotation style, upgrade policy, and the hashing policy.

use vstd::prelude::*;

verus! {

/// Which packages a build restriction ("no binary" / "no source build")
/// applies to.
pub enum PackageChoice {
    NoPackages,
    AllPackages,
    ListedPackages(Vec<String>),
}

/// Merge a restriction given on the command line with one discovered inside a
/// requirements file: "all" wins, "none" yields, and two package lists are
/// concatenated.
pub fn combine_choice(a: PackageChoice, b: PackageChoice) -> (r: PackageChoice)
    ensures
        (a is AllPackages || b is AllPackages) <==> r is AllPackages,
        a is NoPackages && b is NoPackages ==> r is NoPackages,
        a is ListedPackages && b is NoPackages ==> r == a,
        a is NoPackages && b is ListedPackages ==> r == b,
        a matches PackageChoice::ListedPackages(x) ==> (b matches PackageChoice::ListedPackages(y)
            ==> (r matches PackageChoice::ListedPackages(z) && z@ == x@ + y@)),
{
    match (a, b) {
        (PackageChoice::AllPackages, _) => PackageChoice::AllPackages,
        (_, PackageChoice::AllPackages) => PackageChoice::AllPackages,
        (PackageChoice::NoPackages, other) => other,
        (other, PackageChoice::NoPackages) => other,
        (PackageChoice::ListedPackages(mut x), PackageChoice::ListedPackages(mut y)) => {
            x.append(&mut y);
            PackageChoice::ListedPackages(x)
        },
    }
}

/// The build restrictions: packages whose binary form, and packages whose
/// source build, must not be used.
pub struct BuildRestrictions {
    pub no_binary: PackageChoice,
    pub no_build: PackageChoice,
}

/// Merge the command-line build restrictions with those read from the
/// requirement sources, field by field.
pub fn combine_restrictions(a: BuildRestrictions, no_binary: PackageChoice, no_build: PackageChoice)
    -> (r: BuildRestrictions)
    ensures
        (a.no_binary is AllPackages || no_binary is AllPackages) <==> r.no_binary is AllPackages,
        (a.no_build is AllPackages || no_build is AllPackages) <==> r.no_build is AllPackages,
        a.no_binary is NoPackages && no_binary is NoPackages ==> r.no_binary is NoPackages,
        a.no_build is NoPackages && no_build is NoPackages ==> r.no_build is NoPackages,
        a.no_binary is NoPackages && no_binary is ListedPackages ==> r.no_binary == no_binary,
        a.no_build is NoPackages && no_build is ListedPackages ==> r.no_build == no_build,
        a.no_binary is ListedPackages && no_binary is NoPackages ==> r.no_binary == a.no_binary,
        a.no_build is ListedPackages && no_build is NoPackages ==> r.no_build == a.no_build,
{
    BuildRestrictions {
        no_binary: combine_choice(a.no_binary, no_binary),
        no_build: combine_choice(a.no_build, no_build),
    }
}

/// How per-package annotation comments are laid out in the rendered body.
pub enum AnnotationKind {
    LineAnnotations,
    SplitAnnotations,
}

/// Whether previously pinned versions may be kept as soft preferences.
pub enum UpgradePolicy {
    NoUpgrades,
    UpgradeAll,
    UpgradeNamed(Vec<String>),
}

/// Whether the resolution computes content hashes. This pipeline only ever
/// generates hashes for others to enforce later; it never enforces them.
pub enum HashPolicy {
    GenerateHashes,
    NoHashes,
}

/// The hashing policy for the resolution itself: generate when asked,
/// never enforce.
pub fn choose_hash_policy(generate_hashes: bool) -> (r: HashPolicy)
    ensures
        r is GenerateHashes <==> generate_hashes,
{
    if generate_hashes {
        HashPolicy::GenerateHashes
    } else {
        HashPolicy::NoHashes
    }
}

} // verus!
