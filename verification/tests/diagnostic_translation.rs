use typst_net_core::compiler::convert_backend_diagnostic;
use typst_net_core::typst_backend::{translate_diagnostic, BackendLocation, DiagnosticSeverity};
use typst_net_core::types::DiagnosticSeverity as BoundarySeverity;

#[test]
fn hints_are_folded_in_order() {
    let hints = vec!["try this".to_string(), "or that".to_string()];
    let d = translate_diagnostic(
        DiagnosticSeverity::Error,
        "something broke".to_string(),
        &hints,
        None,
    );
    assert_eq!(d.message, "something broke\nHint: try this\nHint: or that");
    assert!(d.location.is_none());
}

#[test]
fn no_hints_leave_message_unchanged() {
    let d = translate_diagnostic(
        DiagnosticSeverity::Warning,
        "plain".to_string(),
        &Vec::new(),
        None,
    );
    assert_eq!(d.message, "plain");
}

#[test]
fn span_at_line_three_reports_three_one() {
    let text = b"line one\nline two\nthird".to_vec();
    let start = "line one\nline two\n".len();
    let d = translate_diagnostic(
        DiagnosticSeverity::Error,
        "oops".to_string(),
        &Vec::new(),
        Some((text, start, start + 5)),
    );
    assert_eq!(d.location, Some(BackendLocation { line: 3, column: 1, length: 5 }));
}

#[test]
fn unresolvable_span_has_absent_location() {
    // An offset past the end of the source resolves to no location.
    let text = b"tiny".to_vec();
    let d = translate_diagnostic(
        DiagnosticSeverity::Error,
        "oops".to_string(),
        &Vec::new(),
        Some((text, 10, 12)),
    );
    assert!(d.location.is_none());
}

#[test]
fn conversion_keeps_severity_and_location() {
    let hints = Vec::new();
    let text = b"a\nbc".to_vec();
    let backend = translate_diagnostic(
        DiagnosticSeverity::Warning,
        "watch out".to_string(),
        &hints,
        Some((text, 2, 4)),
    );
    let record = convert_backend_diagnostic(backend);
    assert!(matches!(record.severity, BoundarySeverity::Warning));
    assert_eq!(record.message, b"watch out".to_vec());
    assert_eq!(record.message_len, 9);
    assert_eq!(record.location.line, 2);
    assert_eq!(record.location.column, 1);
    assert_eq!(record.location.length, 2);
}

#[test]
fn conversion_records_absent_location_as_zeros() {
    let backend = translate_diagnostic(
        DiagnosticSeverity::Error,
        "nowhere".to_string(),
        &Vec::new(),
        None,
    );
    let record = convert_backend_diagnostic(backend);
    assert!(matches!(record.severity, BoundarySeverity::Error));
    assert_eq!(record.location.line, 0);
    assert_eq!(record.location.column, 0);
    assert_eq!(record.location.length, 0);
}
