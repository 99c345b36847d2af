use vstd::prelude::*;
use vstd::string::*;
use crate::textfmt::concat_str;

verus! {

// The path sandbox: resolves logical file identities to candidate
// physical paths and decides, from the containment and existence facts
// the surrounding I/O layer establishes, whether a resolution is
// granted. Two independent containment domains exist: the workspace
// root, and an optional package repository root.

/// A package specification: namespace, name and version.
pub struct PackageSpec {
    pub namespace: String,
    pub name: String,
    pub version: String,
}

/// A logical file identity: an optional package specification and a
/// root-relative virtual path. Two identities are equal exactly when
/// both components are equal.
pub struct FileIdentity {
    pub package: Option<PackageSpec>,
    pub vpath: String,
}

/// The fixed virtual path of the main in-memory document.
pub open spec fn main_vpath() -> Seq<char> {
    "main.typ"@
}

/// Whether an identity is the main identity: no package specification
/// and the fixed sentinel virtual path.
pub open spec fn is_main_identity(id: FileIdentity) -> bool {
    id.package is None && id.vpath@ == main_vpath()
}

impl FileIdentity {
    /// The main identity: no package, the sentinel virtual path.
    pub fn main() -> (r: FileIdentity)
        ensures
            is_main_identity(r),
    {
        FileIdentity { package: None, vpath: "main.typ".to_owned() }
    }
}

/// A typed resolution failure: the path escapes its containment domain
/// (or no domain is configured for it), or the path does not exist.
#[derive(Clone, Copy, Debug, PartialEq, Eq, Structural)]
pub enum ResolveError {
    AccessDenied,
    NotFound,
}

/// The first step of a resolution: which domain the identity falls in,
/// and the candidate path to check there.
pub enum ResolveStep {
    /// Check under the package repository root.
    Package(String),
    /// Check under the workspace root, with the containment test.
    Workspace(String),
}

/// The candidate path of a package-framed identity under the package
/// repository root: root/namespace/name/version/vpath.
pub open spec fn package_candidate_spec(
    root: Seq<char>,
    namespace: Seq<char>,
    name: Seq<char>,
    version: Seq<char>,
    vpath: Seq<char>,
) -> Seq<char> {
    root + "/"@ + namespace + "/"@ + name + "/"@ + version + "/"@ + vpath
}

/// The candidate path of a plain identity under the workspace root.
pub open spec fn workspace_candidate_spec(root: Seq<char>, vpath: Seq<char>) -> Seq<char> {
    root + "/"@ + vpath
}

/// The outcome of a package resolution, given whether a repository
/// root is configured and whether the candidate path exists.
pub open spec fn package_outcome(has_root: bool, exists: bool, path: Seq<char>) -> Result<
    Seq<char>,
    ResolveError,
> {
    if !has_root {
        Err(ResolveError::AccessDenied)
    } else if !exists {
        Err(ResolveError::NotFound)
    } else {
        Ok(path)
    }
}

/// The outcome of a workspace resolution, given whether the canonical
/// candidate is contained in the canonical root and whether it exists.
pub open spec fn workspace_outcome(contained: bool, exists: bool, path: Seq<char>) -> Result<
    Seq<char>,
    ResolveError,
> {
    if !contained {
        Err(ResolveError::AccessDenied)
    } else if !exists {
        Err(ResolveError::NotFound)
    } else {
        Ok(path)
    }
}

/// Whether `candidate` is `root` itself or lies below it, compared on
/// canonical path bytes: either equal, or `candidate` extends `root`
/// at a path separator.
pub open spec fn descendant_spec(root: Seq<u8>, candidate: Seq<u8>) -> bool {
    ||| candidate == root
    ||| (root.len() > 0 && root.last() == 0x2fu8 && candidate.len() > root.len()
        && candidate.take(root.len() as int) == root)
    ||| (candidate.len() > root.len() && candidate.take(root.len() as int) == root
        && candidate[root.len() as int] == 0x2fu8)
}

/// Decides which containment domain an identity falls in and builds
/// the candidate path to check there. A package-framed identity with
/// no repository root configured is denied outright; nothing else is
/// decided here.
pub fn plan_resolution(
    id: &FileIdentity,
    workspace_root: &str,
    package_root: Option<&String>,
) -> (r: Result<ResolveStep, ResolveError>)
    ensures
        id.package is Some && package_root is None ==> r == Err::<ResolveStep, ResolveError>(
            ResolveError::AccessDenied,
        ),
        id.package matches Some(spec) ==> (package_root matches Some(root) ==> (r matches Ok(
            step,
        ) && step matches ResolveStep::Package(p) && p@ == package_candidate_spec(
            root@,
            spec.namespace@,
            spec.name@,
            spec.version@,
            id.vpath@,
        ))),
        id.package is None ==> (r matches Ok(step) && step matches ResolveStep::Workspace(p)
            && p@ == workspace_candidate_spec(workspace_root@, id.vpath@)),
{
    match &id.package {
        Some(spec) => {
            match package_root {
                Some(root) => {
                    let mut p = concat_str(root.as_str(), "/");
                    p.append(spec.namespace.as_str());
                    p.append("/");
                    p.append(spec.name.as_str());
                    p.append("/");
                    p.append(spec.version.as_str());
                    p.append("/");
                    p.append(id.vpath.as_str());
                    Ok(ResolveStep::Package(p))
                },
                None => Err(ResolveError::AccessDenied),
            }
        },
        None => {
            let mut p = concat_str(workspace_root, "/");
            p.append(id.vpath.as_str());
            Ok(ResolveStep::Workspace(p))
        },
    }
}

/// Whether `candidate` is contained in `root`, both given as canonical
/// path bytes.
pub fn is_descendant(root: &[u8], candidate: &[u8]) -> (r: bool)
    ensures
        r == descendant_spec(root@, candidate@),
{
    let rlen = root.len();
    let clen = candidate.len();
    if clen < rlen {
        proof {
            assert(!descendant_spec(root@, candidate@));
        }
        return false;
    }
    let mut i: usize = 0;
    while i < rlen
        invariant
            rlen == root@.len(),
            clen == candidate@.len(),
            rlen <= clen,
            i <= rlen,
            forall|j: int| 0 <= j < i ==> root@[j] == candidate@[j],
        decreases rlen - i,
    {
        if root[i] != candidate[i] {
            proof {
                assert(candidate@.take(rlen as int)[i as int] != root@[i as int]);
                assert(candidate@ == root@ ==> candidate@[i as int] == root@[i as int]);
                assert(!descendant_spec(root@, candidate@));
            }
            return false;
        }
        i = i + 1;
    }
    proof {
        assert(candidate@.take(rlen as int) =~= root@);
    }
    if clen == rlen {
        proof {
            assert(candidate@ =~= root@);
        }
        true
    } else if rlen > 0 && root[rlen - 1] == 0x2f {
        true
    } else {
        candidate[rlen] == 0x2f
    }
}

/// Completes a package resolution from the existence fact: the typed
/// failure when the candidate is missing, the path itself otherwise.
pub fn finish_package_resolution(path: String, exists: bool) -> (r: Result<String, ResolveError>)
    ensures
        match package_outcome(true, exists, path@) {
            Ok(p) => r matches Ok(q) && q@ == p,
            Err(e) => r == Err::<String, ResolveError>(e),
        },
{
    if exists {
        Ok(path)
    } else {
        Err(ResolveError::NotFound)
    }
}

/// Completes a workspace resolution from the containment and existence
/// facts: escape is denied before existence is even considered.
pub fn finish_workspace_resolution(path: String, contained: bool, exists: bool) -> (r: Result<
    String,
    ResolveError,
>)
    ensures
        match workspace_outcome(contained, exists, path@) {
            Ok(p) => r matches Ok(q) && q@ == p,
            Err(e) => r == Err::<String, ResolveError>(e),
        },
{
    if !contained {
        Err(ResolveError::AccessDenied)
    } else if !exists {
        Err(ResolveError::NotFound)
    } else {
        Ok(path)
    }
}

/// The sandbox invariant: a workspace resolution succeeds exactly when
/// the canonical candidate is contained in the canonical root and the
/// path exists; any escape is denied, regardless of existence; a
/// contained but missing path is a not-found failure; and a
/// package-framed identity is denied whenever no repository root is
/// configured, whatever its components hold.
pub proof fn lemma_sandbox_invariant(contained: bool, exists: bool, path: Seq<char>)
    ensures
        workspace_outcome(contained, exists, path) is Ok <==> contained && exists,
        !contained ==> workspace_outcome(contained, exists, path) == Err::<Seq<char>,
            ResolveError,
        >(ResolveError::AccessDenied),
        contained && !exists ==> workspace_outcome(contained, exists, path) == Err::<Seq<char>,
            ResolveError,
        >(ResolveError::NotFound),
        package_outcome(false, exists, path) == Err::<Seq<char>, ResolveError>(
            ResolveError::AccessDenied,
        ),
{
}

/// Every path joined below a root at a separator is contained in that
/// root: containment never rejects a genuine descendant.
pub proof fn lemma_descendant_of_join(root: Seq<u8>, rest: Seq<u8>)
    ensures
        descendant_spec(root, root + seq![0x2fu8] + rest),
{
    let cand = root + seq![0x2fu8] + rest;
    assert(cand.take(root.len() as int) =~= root);
    assert(cand[root.len() as int] == 0x2fu8);
}

} // verus!
