use typst_net_core::memory::{
    create_diagnostic, diagnostics_to_array, string_to_buffer, vec_to_buffer,
    vecs_to_buffer_array,
};
use typst_net_core::types::DiagnosticSeverity;
use typst_net_core::typst_net_reset_cache;

#[test]
fn test_string_to_buffer() {
    let s = "hello world".to_string();
    let buffer = string_to_buffer(s);

    assert!(!buffer.data.is_empty());
    assert_eq!(buffer.len, 11);
    assert_eq!(buffer.data, b"hello world".to_vec());
}

#[test]
fn test_vec_to_buffer() {
    let v = vec![1, 2, 3, 4, 5];
    let buffer = vec_to_buffer(v);

    assert!(!buffer.data.is_empty());
    assert_eq!(buffer.len, 5);
    assert_eq!(buffer.data, vec![1, 2, 3, 4, 5]);
}

#[test]
fn test_vecs_to_buffer_array() {
    let vecs = vec![vec![1, 2, 3], vec![4, 5, 6]];
    let array = vecs_to_buffer_array(vecs);

    assert!(!array.buffers.is_empty());
    assert_eq!(array.len, 2);
    assert_eq!(array.buffers[0].data, vec![1, 2, 3]);
    assert_eq!(array.buffers[1].data, vec![4, 5, 6]);
}

#[test]
fn test_vecs_to_buffer_array_empty() {
    let array = vecs_to_buffer_array(Vec::new());
    assert_eq!(array.len, 0);
    assert!(array.buffers.is_empty());
}

#[test]
fn test_diagnostics_array_roundtrip() {
    let diag1 = create_diagnostic(
        DiagnosticSeverity::Error,
        "error 1".to_string(),
        Some((10, 5, 3)),
    );

    let diag2 = create_diagnostic(
        DiagnosticSeverity::Warning,
        "warning 1".to_string(),
        Some((20, 10, 5)),
    );

    let diagnostics = vec![diag1, diag2];
    let (arr, len) = diagnostics_to_array(diagnostics);

    assert!(!arr.is_empty());
    assert_eq!(len, 2);
    assert_eq!(arr[0].message, b"error 1".to_vec());
    assert_eq!(arr[1].message, b"warning 1".to_vec());
    assert_eq!(arr[1].location.line, 20);
}

#[test]
fn test_create_diagnostic_values() {
    let diag = create_diagnostic(
        DiagnosticSeverity::Error,
        "test error".to_string(),
        Some((10, 5, 3)),
    );

    assert_eq!(diag.location.line, 10);
    assert_eq!(diag.location.column, 5);
    assert_eq!(diag.location.length, 3);
    assert!(!diag.message.is_empty());
    assert_eq!(diag.message_len, "test error".len());
}

#[test]
fn test_create_diagnostic_absent_location() {
    let diag = create_diagnostic(DiagnosticSeverity::Warning, "w".to_string(), None);
    assert_eq!(diag.location.line, 0);
    assert_eq!(diag.location.column, 0);
    assert_eq!(diag.location.length, 0);
}

#[test]
fn test_cache_reset() {
    // Should not panic
    typst_net_reset_cache(30);
    typst_net_reset_cache(0);
}
