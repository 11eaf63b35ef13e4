//! Source aggregation: merging requirement, constraint and override sources
//! with workspace-derived lists, and validating requested extras.

use vstd::prelude::*;
use crate::errors::CompileError;
use crate::text::{contains_string, clone_string, sort_dedup, sorted_strs, distinct_strs};

verus! {

/// The kind of a requirement source supplied by the caller.
pub enum SourceKind {
    /// A bare package given on the command line.
    NamedPackage,
    /// A plain requirements file.
    RequirementsFile,
    /// A project metadata table.
    PyprojectToml,
    /// A static project configuration file.
    SetupCfg,
    /// A dynamic project setup script.
    SetupPy,
}

/// Only project-metadata-bearing sources can declare extras.
pub open spec fn kind_allows_extras(k: SourceKind) -> bool {
    match k {
        SourceKind::PyprojectToml => true,
        SourceKind::SetupCfg => true,
        SourceKind::SetupPy => true,
        SourceKind::NamedPackage => false,
        SourceKind::RequirementsFile => false,
    }
}

/// Decide whether a source can declare extras.
pub fn allows_extras(k: &SourceKind) -> (r: bool)
    ensures
        r == kind_allows_extras(*k),
{
    match k {
        SourceKind::PyprojectToml => true,
        SourceKind::SetupCfg => true,
        SourceKind::SetupPy => true,
        SourceKind::NamedPackage => false,
        SourceKind::RequirementsFile => false,
    }
}

/// Some supplied source can declare extras.
pub open spec fn any_source_allows_extras(sources: Seq<SourceKind>) -> bool {
    exists|i: int| 0 <= i < sources.len() && kind_allows_extras(sources[i])
}

/// Decide whether any supplied source can declare extras.
pub fn any_allows_extras(sources: &Vec<SourceKind>) -> (r: bool)
    ensures
        r == any_source_allows_extras(sources@),
{
    let mut i: usize = 0;
    while i < sources.len()
        invariant
            i <= sources.len(),
            forall|j: int| 0 <= j < i ==> !kind_allows_extras(sources@[j]),
        decreases sources.len() - i,
    {
        if allows_extras(&sources[i]) {
            return true;
        }
        i = i + 1;
    }
    false
}

/// What extras the caller asked for.
pub enum ExtrasRequest {
    NoExtras,
    AllExtras,
    Listed(Vec<String>),
}

/// An extras request that asks for nothing.
pub open spec fn extras_empty(e: ExtrasRequest) -> bool {
    match e {
        ExtrasRequest::NoExtras => true,
        ExtrasRequest::AllExtras => false,
        ExtrasRequest::Listed(v) => v@.len() == 0,
    }
}

/// Decide whether an extras request asks for nothing.
pub fn extras_is_empty(e: &ExtrasRequest) -> (r: bool)
    ensures
        r == extras_empty(*e),
{
    match e {
        ExtrasRequest::NoExtras => true,
        ExtrasRequest::AllExtras => false,
        ExtrasRequest::Listed(v) => v.len() == 0,
    }
}

/// A single requirement as the external source reader hands it over:
/// a package name, a verbatim version or location specifier, requested
/// extras, and an optional environment marker.
pub struct Requirement {
    pub name: String,
    pub specifier: String,
    pub extras: Vec<String>,
    pub marker: Option<String>,
}

/// A nonempty extras request with no extras-capable source is rejected
/// before any other work.
pub open spec fn extras_without_source(e: ExtrasRequest, sources: Seq<SourceKind>) -> bool {
    !extras_empty(e) && !any_source_allows_extras(sources)
}

/// Reject extras requested without any source able to declare them. This
/// rejection depends on the request and the source kinds alone: whatever
/// the other inputs, such a request always fails with this configuration
/// error.
pub fn check_extras_requestable(e: &ExtrasRequest, sources: &Vec<SourceKind>) -> (r: Result<
    (),
    CompileError,
>)
    ensures
        r is Err <==> extras_without_source(*e, sources@),
        r is Err ==> r->Err_0 is ExtrasWithoutSource,
{
    if !extras_is_empty(e) && !any_allows_extras(sources) {
        Err(CompileError::ExtrasWithoutSource)
    } else {
        Ok(())
    }
}

/// Workspace-derived entries always follow the explicitly supplied ones in a
/// merged list: the merged list is the explicit list with the workspace list
/// appended after it.
pub proof fn lemma_workspace_entries_follow(explicit: Seq<Requirement>, workspace: Seq<Requirement>)
    ensures
        (explicit + workspace).len() == explicit.len() + workspace.len(),
        forall|i: int| 0 <= i < explicit.len() ==> (explicit + workspace)[i] == explicit[i],
        forall|j: int|
            0 <= j < workspace.len() ==> (explicit + workspace)[explicit.len() + j] == workspace[j],
{
}

/// Append workspace-derived constraints or overrides after the explicitly
/// supplied ones; explicit entries keep their positions.
pub fn merge_with_workspace(explicit: Vec<Requirement>, workspace: Vec<Requirement>) -> (r: Vec<
    Requirement,
>)
    ensures
        r@ == explicit@ + workspace@,
{
    let mut r = explicit;
    let mut w = workspace;
    r.append(&mut w);
    r
}

/// The requested extras that no static source ever declared, sorted and
/// free of repeats.
pub fn unused_extras(requested: &Vec<String>, used: &Vec<String>) -> (r: Vec<String>)
    ensures
        sorted_strs(r.deep_view()),
        distinct_strs(r.deep_view()),
        forall|y: Seq<char>|
            r.deep_view().contains(y) <==> (requested.deep_view().contains(y)
                && !used.deep_view().contains(y)),
{
    let mut tmp: Vec<String> = Vec::new();
    let mut i: usize = 0;
    while i < requested.len()
        invariant
            i <= requested.len(),
            requested.deep_view().len() == requested.len(),
            forall|y: Seq<char>|
                tmp.deep_view().contains(y) ==> (requested.deep_view().take(i as int).contains(y)
                    && !used.deep_view().contains(y)),
            forall|k: int|
                0 <= k < i && !used.deep_view().contains(requested.deep_view()[k])
                    ==> tmp.deep_view().contains(requested.deep_view()[k]),
        decreases requested.len() - i,
    {
        let ghost before = tmp.deep_view();
        if !contains_string(used, requested[i].as_str()) {
            tmp.push(clone_string(&requested[i]));
            proof {
                assert(tmp.deep_view() =~= before.push(requested.deep_view()[i as int]));
            }
        }
        proof {
            let rdv = requested.deep_view();
            assert forall|y: Seq<char>| tmp.deep_view().contains(y) implies (rdv.take(
                i as int + 1,
            ).contains(y) && !used.deep_view().contains(y)) by {
                if before.contains(y) {
                    let w = choose|w: int| 0 <= w < rdv.take(i as int).len() && rdv.take(i as int)[w]
                        == y;
                    assert(rdv.take(i as int + 1)[w] == y);
                } else {
                    assert(y == rdv[i as int]);
                    assert(rdv.take(i as int + 1)[i as int] == y);
                }
            }
            assert forall|k: int|
                0 <= k < i + 1 && !used.deep_view().contains(rdv[k]) implies tmp.deep_view()
                .contains(rdv[k]) by {
                if k < i {
                    assert(before.contains(rdv[k]));
                    let w = choose|w: int| 0 <= w < before.len() && before[w] == rdv[k];
                    assert(tmp.deep_view()[w] == rdv[k]);
                } else {
                    assert(tmp.deep_view()[tmp.deep_view().len() - 1] == rdv[k]);
                }
            }
        }
        i = i + 1;
    }
    proof {
        let rdv = requested.deep_view();
        assert(rdv.take(requested.len() as int) =~= rdv);
        assert forall|y: Seq<char>|
            rdv.contains(y) && !used.deep_view().contains(y) implies tmp.deep_view().contains(
            y,
        ) by {
            let w = choose|w: int| 0 <= w < rdv.len() && rdv[w] == y;
            assert(tmp.deep_view().contains(rdv[w]));
        }
    }
    sort_dedup(&tmp)
}

/// Some requested extra was never declared by any static source.
pub open spec fn has_unused_extra(requested: Seq<Seq<char>>, used: Seq<Seq<char>>) -> bool {
    exists|y: Seq<char>| requested.contains(y) && !used.contains(y)
}

/// Static validation rejects the request exactly when no source tree defers
/// it, the extras are an explicit list, and some listed name was never used.
pub open spec fn static_extras_rejected(
    e: ExtrasRequest,
    source_trees: Seq<Seq<char>>,
    used: Seq<Seq<char>>,
) -> bool {
    &&& source_trees.len() == 0
    &&& match e {
        ExtrasRequest::Listed(req) => has_unused_extra(req.deep_view(), used),
        _ => false,
    }
}

/// The rejection carries exactly the unused names, sorted, each once.
pub open spec fn names_are_unused_extras(
    names: Seq<Seq<char>>,
    e: ExtrasRequest,
    used: Seq<Seq<char>>,
) -> bool {
    &&& sorted_strs(names)
    &&& distinct_strs(names)
    &&& match e {
        ExtrasRequest::Listed(req) => forall|y: Seq<char>|
            names.contains(y) <==> (req.deep_view().contains(y) && !used.contains(y)),
        _ => true,
    }
}

/// When every source is statically readable, every requested extra must have
/// been declared somewhere; the rejection lists all unused names together,
/// sorted, each exactly once, however often they were requested.
pub fn validate_static_extras(e: &ExtrasRequest, source_trees: &Vec<String>, used: &Vec<String>)
    -> (r: Result<(), CompileError>)
    ensures
        r is Err <==> static_extras_rejected(*e, source_trees.deep_view(), used.deep_view()),
        r matches Err(err) ==> (err matches CompileError::UnusedExtras(names)
            && names_are_unused_extras(names.deep_view(), *e, used.deep_view())),
{
    if source_trees.len() == 0 {
        if let ExtrasRequest::Listed(req) = e {
            let names = unused_extras(req, used);
            if names.len() > 0 {
                proof {
                    assert(names.deep_view().contains(names.deep_view()[0]));
                }
                return Err(CompileError::UnusedExtras(names));
            }
            proof {
                if has_unused_extra(req.deep_view(), used.deep_view()) {
                    let y = choose|y: Seq<char>|
                        req.deep_view().contains(y) && !used.deep_view().contains(y);
                    assert(names.deep_view().contains(y));
                }
            }
        }
    }
    Ok(())
}

} // verus!
