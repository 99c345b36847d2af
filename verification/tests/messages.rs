use typst_net_core::host::{validate_package_path, validate_root_path, HostCore, SourceQuery};
use typst_net_core::sandbox::FileIdentity;
use typst_net_core::textfmt::{concat_str, join_all, usize_to_string};
use typst_net_core::typst_backend::pdf_error_message;
use typst_net_core::types::{DiagnosticSeverity, SourceLocation};

#[test]
fn decimal_rendering_is_exact() {
    assert_eq!(usize_to_string(0), "0");
    assert_eq!(usize_to_string(7), "7");
    assert_eq!(usize_to_string(42), "42");
    assert_eq!(usize_to_string(90210), "90210");
}

#[test]
fn join_handles_zero_one_and_many() {
    assert_eq!(join_all(&Vec::new(), "; "), "");
    assert_eq!(join_all(&vec!["only".to_string()], "; "), "only");
    let many = vec!["a".to_string(), "b".to_string(), "c".to_string()];
    assert_eq!(join_all(&many, "; "), "a; b; c");
}

#[test]
fn concat_is_plain_concatenation() {
    assert_eq!(concat_str("ab", "cd"), "abcd");
    assert_eq!(concat_str("", "x"), "x");
}

#[test]
fn pdf_error_joins_engine_messages() {
    let msgs = vec!["glyph missing".to_string(), "bad outline".to_string()];
    assert_eq!(
        pdf_error_message(&msgs),
        "PDF rendering failed: glyph missing; bad outline"
    );
}

#[test]
fn root_validation_messages_name_the_path() {
    let root = "/no/such/dir".to_string();
    let err = validate_root_path(&root, false, false).unwrap_err();
    assert_eq!(err, "Root path does not exist: /no/such/dir");

    let err = validate_root_path(&root, true, false).unwrap_err();
    assert_eq!(err, "Root path is not a directory: /no/such/dir");

    assert!(validate_root_path(&root, true, true).is_ok());
}

#[test]
fn package_path_validation_messages_name_the_path() {
    assert!(validate_package_path(None, false, false).is_ok());

    let p = "/no/repo".to_string();
    let err = validate_package_path(Some(&p), false, false).unwrap_err();
    assert_eq!(err, "Package path does not exist: /no/repo");

    let err = validate_package_path(Some(&p), true, false).unwrap_err();
    assert_eq!(err, "Package path is not a directory: /no/repo");

    assert!(validate_package_path(Some(&p), true, true).is_ok());
}

#[test]
fn host_update_source_replaces_main_text() {
    let mut host = HostCore::new("/workspace".to_string(), None);
    assert_eq!(host.main_text, "");
    host.update_source("= First");
    assert_eq!(host.main_text, "= First");
    host.update_source("= Second\nMore content.");
    assert_eq!(host.main_text, "= Second\nMore content.");
    assert_eq!(host.root, "/workspace");
}

#[test]
fn severity_codes_are_stable() {
    assert_eq!(DiagnosticSeverity::Error.code(), 0);
    assert_eq!(DiagnosticSeverity::Warning.code(), 1);
    assert_eq!(DiagnosticSeverity::Hint.code(), 2);
}

#[test]
fn default_location_is_absent() {
    let loc = SourceLocation::default();
    assert_eq!(loc.line, 0);
    assert_eq!(loc.column, 0);
    assert_eq!(loc.length, 0);
}

#[test]
fn main_identity_is_served_from_memory() {
    let mut host = HostCore::new("/workspace".to_string(), None);
    host.update_source("= Main");
    match host.source_query(&FileIdentity::main()) {
        SourceQuery::Main(text) => assert_eq!(text, "= Main"),
        SourceQuery::Resolve => panic!("main must come from memory"),
    }

    let other = FileIdentity { package: None, vpath: "other.typ".to_string() };
    assert!(matches!(host.source_query(&other), SourceQuery::Resolve));
}
