use typst_net_core::compiler::{parse_custom_font_paths, parse_inputs};
use typst_net_core::types::CompilerOptions;

fn options_with_inputs(json: &str) -> CompilerOptions {
    CompilerOptions {
        include_system_fonts: true,
        inputs_json: Some(json.to_string()),
        custom_font_paths: None,
        package_path: None,
    }
}

fn options_with_font_paths(json: &str) -> CompilerOptions {
    CompilerOptions {
        include_system_fonts: true,
        inputs_json: None,
        custom_font_paths: Some(json.to_string()),
        package_path: None,
    }
}

#[test]
fn absent_inputs_are_accepted() {
    let opts = CompilerOptions::default();
    assert_eq!(parse_inputs(&opts).unwrap(), None);
}

#[test]
fn well_formed_inputs_pass_through() {
    let opts = options_with_inputs("{\"key\": \"value\", \"number\": \"42\"}");
    let r = parse_inputs(&opts).unwrap();
    assert_eq!(r.unwrap(), "{\"key\": \"value\", \"number\": \"42\"}");
}

#[test]
fn malformed_inputs_are_rejected_with_message() {
    let opts = options_with_inputs("{unclosed");
    let err = parse_inputs(&opts).unwrap_err();
    assert!(err.starts_with("Invalid inputs JSON: "));
}

#[test]
fn absent_font_paths_yield_none() {
    let opts = CompilerOptions::default();
    assert_eq!(parse_custom_font_paths(&opts).unwrap().len(), 0);
}

#[test]
fn font_paths_array_is_decoded() {
    let opts = options_with_font_paths("[\"/fonts/a\", \"/fonts/b\"]");
    let paths = parse_custom_font_paths(&opts).unwrap();
    assert_eq!(paths, vec!["/fonts/a".to_string(), "/fonts/b".to_string()]);
}

#[test]
fn font_paths_of_wrong_shape_are_rejected() {
    let opts = options_with_font_paths("{\"not\": \"an array\"}");
    let err = parse_custom_font_paths(&opts).unwrap_err();
    assert!(err.starts_with("Invalid font paths JSON: "));
}

#[test]
fn default_options_are_all_empty() {
    let opts = CompilerOptions::default();
    assert!(!opts.include_system_fonts);
    assert!(opts.inputs_json.is_none());
    assert!(opts.custom_font_paths.is_none());
    assert!(opts.package_path.is_none());
}
