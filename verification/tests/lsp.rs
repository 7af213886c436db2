use duelscript::v2::lsp::{compute_diagnostics, hover_help, keywords};

#[test]
fn test_diagnostics_for_valid_source() {
    let source = r#"card "Test" { id: 1 type: Normal Spell effect "Draw" { speed: 1 resolve { draw 2 } } }"#;
    let diags = compute_diagnostics(source);
    assert!(diags.is_empty(), "Expected no diagnostics for valid source, got: {:?}", diags);
}

#[test]
fn test_diagnostics_for_invalid_source() {
    let source = "not valid duelscript at all";
    let diags = compute_diagnostics(source);
    assert!(!diags.is_empty(), "Expected parse error diagnostics");
}

#[test]
fn test_hover_known_keywords() {
    assert!(hover_help("card").is_some());
    assert!(hover_help("draw").is_some());
    assert!(hover_help("speed").is_some());
    assert!(hover_help("xyzfoo").is_none());
}

#[test]
fn test_completion_list() {
    assert!(keywords().iter().any(|(k, _)| *k == "card"));
    assert!(keywords().iter().any(|(k, _)| *k == "ritual_summon"));
}


