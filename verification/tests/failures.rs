use semantic_units::error::ParseError;

#[test]
fn every_failure_has_its_message() {
    assert_eq!(ParseError::MissingExtension.message(), "No file extension");
    assert_eq!(
        ParseError::UnsupportedLanguage { extension: "xyz".to_string() }.message(),
        "Unsupported file extension: xyz"
    );
    assert_eq!(
        ParseError::UnsupportedFormat { extension: "ini".to_string() }.message(),
        "Unsupported config file extension: ini"
    );
    assert_eq!(ParseError::AdapterNotFound.message(), "Parser not found");
    assert_eq!(ParseError::ParseFailure.message(), "Failed to parse file");
    assert_eq!(
        ParseError::StructuralParseFailure { message: "JSON parse error: x".to_string() }.message(),
        "JSON parse error: x"
    );
}

#[test]
fn a_cloned_failure_keeps_its_kind_and_text() {
    let e = ParseError::UnsupportedLanguage { extension: "xyz".to_string() };
    let c = e.clone();
    assert!(matches!(c, ParseError::UnsupportedLanguage { ref extension } if extension == "xyz"));
    assert_eq!(c.message(), e.message());
}
