use vstd::prelude::*;
use vstd::string::*;
use crate::sandbox::{is_main_identity, FileIdentity};
use crate::textfmt::concat_str;

verus! {

// The virtual file system host's own state and construction checks.
// The host composes the path sandbox with the in-memory main document;
// the facts about the file system (existence, directory-ness) are
// established outside and decided on here.

/// Checks the workspace root: it must exist and be a directory. The
/// failure message names the offending path.
pub fn validate_root_path(root: &String, exists: bool, is_dir: bool) -> (r: Result<(), String>)
    ensures
        r is Ok <==> exists && is_dir,
        !exists ==> (r matches Err(m) && m@ == "Root path does not exist: "@ + root@),
        exists && !is_dir ==> (r matches Err(m) && m@ == "Root path is not a directory: "@
            + root@),
{
    if !exists {
        Err(concat_str("Root path does not exist: ", root.as_str()))
    } else if !is_dir {
        Err(concat_str("Root path is not a directory: ", root.as_str()))
    } else {
        Ok(())
    }
}

/// Checks the optional package repository root: when supplied, it must
/// exist and be a directory. The failure message names the path.
pub fn validate_package_path(
    package_path: Option<&String>,
    exists: bool,
    is_dir: bool,
) -> (r: Result<(), String>)
    ensures
        package_path is None ==> r is Ok,
        package_path is Some ==> (r is Ok <==> exists && is_dir),
        package_path matches Some(p) ==> {
            &&& !exists ==> (r matches Err(m) && m@ == "Package path does not exist: "@ + p@)
            &&& exists && !is_dir ==> (r matches Err(m) && m@
                == "Package path is not a directory: "@ + p@)
        },
{
    match package_path {
        None => Ok(()),
        Some(p) => {
            if !exists {
                Err(concat_str("Package path does not exist: ", p.as_str()))
            } else if !is_dir {
                Err(concat_str("Package path is not a directory: ", p.as_str()))
            } else {
                Ok(())
            }
        },
    }
}

/// The host state this layer owns: the two sandbox roots and the text
/// of the always-present in-memory main document.
pub struct HostCore {
    pub root: String,
    pub package_root: Option<String>,
    pub main_text: String,
}

impl HostCore {
    /// A fresh host over the given roots, with an empty main document.
    pub fn new(root: String, package_root: Option<String>) -> (r: Self)
        ensures
            r.root == root,
            r.package_root == package_root,
            r.main_text@ == Seq::<char>::empty(),
    {
        HostCore { root, package_root, main_text: String::new() }
    }

    /// Replaces the main document text atomically: afterwards only the
    /// new text is observable, and the roots are untouched.
    pub fn update_source(&mut self, source_text: &str)
        ensures
            final(self).main_text@ == source_text@,
            final(self).root == old(self).root,
            final(self).package_root == old(self).package_root,
    {
        self.main_text = source_text.to_owned();
    }

    /// Answers a text-source query for an identity. The main identity
    /// is always served from the in-memory text — it is never resolved
    /// through the file system; every other identity must go through
    /// the sandbox.
    pub fn source_query(&self, id: &FileIdentity) -> (r: SourceQuery)
        ensures
            is_main_identity(*id) ==> (r matches SourceQuery::Main(t) && t@
                == self.main_text@),
            !is_main_identity(*id) ==> r is Resolve,
    {
        match &id.package {
            Some(_) => SourceQuery::Resolve,
            None => {
                let sentinel: String = "main.typ".to_owned();
                if id.vpath.eq(&sentinel) {
                    SourceQuery::Main(self.main_text.clone())
                } else {
                    SourceQuery::Resolve
                }
            },
        }
    }
}

/// The answer to a text-source query: the main text itself, or the
/// instruction to resolve the identity through the sandbox.
pub enum SourceQuery {
    /// The identity is the main identity: this is its current text.
    Main(String),
    /// Not the main identity: resolve it through the sandbox.
    Resolve,
}

} // verus!
