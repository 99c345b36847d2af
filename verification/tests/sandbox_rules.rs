use typst_net_core::sandbox::{
    finish_package_resolution, finish_workspace_resolution, is_descendant, plan_resolution,
    FileIdentity, PackageSpec, ResolveError, ResolveStep,
};

fn plain_identity(vpath: &str) -> FileIdentity {
    FileIdentity { package: None, vpath: vpath.to_string() }
}

fn package_identity(ns: &str, name: &str, version: &str, vpath: &str) -> FileIdentity {
    FileIdentity {
        package: Some(PackageSpec {
            namespace: ns.to_string(),
            name: name.to_string(),
            version: version.to_string(),
        }),
        vpath: vpath.to_string(),
    }
}

#[test]
fn package_without_repository_root_is_denied() {
    let id = package_identity("preview", "mylib", "0.1.0", "lib.typ");
    let r = plan_resolution(&id, "/workspace", None);
    assert!(matches!(r, Err(ResolveError::AccessDenied)));
}

#[test]
fn traversal_in_package_framing_without_root_is_denied() {
    // A namespace holding `..` changes nothing: no repository root, no access.
    let id = package_identity("..", "secret", "0.0.0", "secret.typ");
    let r = plan_resolution(&id, "/workspace", None);
    assert!(matches!(r, Err(ResolveError::AccessDenied)));
}

#[test]
fn package_candidate_joins_all_components() {
    let id = package_identity("preview", "mylib", "0.1.0", "lib.typ");
    let repo = "/repo".to_string();
    let r = plan_resolution(&id, "/workspace", Some(&repo));
    match r {
        Ok(ResolveStep::Package(p)) => assert_eq!(p, "/repo/preview/mylib/0.1.0/lib.typ"),
        _ => panic!("expected a package step"),
    }
}

#[test]
fn workspace_candidate_joins_root_and_vpath() {
    let id = plain_identity("sub/data.txt");
    let r = plan_resolution(&id, "/workspace", None);
    match r {
        Ok(ResolveStep::Workspace(p)) => assert_eq!(p, "/workspace/sub/data.txt"),
        _ => panic!("expected a workspace step"),
    }
}

#[test]
fn descendant_accepts_paths_below_root() {
    assert!(is_descendant(b"/a", b"/a/b"));
    assert!(is_descendant(b"/a", b"/a"));
    assert!(is_descendant(b"/", b"/a"));
    assert!(is_descendant(b"/a/b", b"/a/b/c/d"));
    assert!(is_descendant(b"/a/", b"/a/b"));
}

#[test]
fn descendant_rejects_escapes() {
    assert!(!is_descendant(b"/a", b"/ab"));
    assert!(!is_descendant(b"/a/b", b"/a"));
    assert!(!is_descendant(b"/a", b"/etc/passwd"));
    assert!(!is_descendant(b"/workspace", b"/"));
}

#[test]
fn escape_is_denied_before_existence_is_considered() {
    let r = finish_workspace_resolution("/etc/passwd".to_string(), false, true);
    assert!(matches!(r, Err(ResolveError::AccessDenied)));
}

#[test]
fn contained_missing_path_is_not_found() {
    let r = finish_workspace_resolution("/workspace/missing.typ".to_string(), true, false);
    assert!(matches!(r, Err(ResolveError::NotFound)));
}

#[test]
fn contained_existing_path_resolves() {
    let r = finish_workspace_resolution("/workspace/main.typ".to_string(), true, true);
    assert_eq!(r.unwrap(), "/workspace/main.typ".to_string());
}

#[test]
fn missing_package_file_is_not_found() {
    let r = finish_package_resolution("/repo/preview/x/0.1.0/lib.typ".to_string(), false);
    assert!(matches!(r, Err(ResolveError::NotFound)));
}

#[test]
fn main_identity_shape() {
    let id = FileIdentity::main();
    assert!(id.package.is_none());
    assert_eq!(id.vpath, "main.typ");
}
