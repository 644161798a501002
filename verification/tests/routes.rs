use semantic_units::error::ParseError;
use semantic_units::language::SupportedLanguage;
use semantic_units::route::{format_for, language_for, route, Route};
use semantic_units::section::ConfigFormat;

#[test]
fn no_extension_is_refused_by_every_choice() {
    assert!(matches!(language_for(None), Err(ParseError::MissingExtension)));
    assert!(matches!(format_for(None), Err(ParseError::MissingExtension)));
    assert!(matches!(route(None), Err(ParseError::MissingExtension)));
}

#[test]
fn an_extension_of_a_language_chooses_it() {
    assert_eq!(language_for(Some("py")).unwrap(), SupportedLanguage::Python);
    assert_eq!(language_for(Some("hh")).unwrap(), SupportedLanguage::Cpp);
    assert_eq!(language_for(Some("c")).unwrap(), SupportedLanguage::C);
    assert_eq!(route(Some("rs")).unwrap(), Route::Code(SupportedLanguage::Rust));
    assert_eq!(route(Some("sql")).unwrap(), Route::Code(SupportedLanguage::Sql));
}

#[test]
fn an_extension_of_a_format_chooses_it() {
    assert_eq!(format_for(Some("json")).unwrap(), ConfigFormat::Json);
    assert_eq!(format_for(Some("yaml")).unwrap(), ConfigFormat::Yaml);
    assert_eq!(format_for(Some("yml")).unwrap(), ConfigFormat::Yaml);
    assert_eq!(format_for(Some("toml")).unwrap(), ConfigFormat::Toml);
    assert_eq!(route(Some("json")).unwrap(), Route::Config(ConfigFormat::Json));
    assert_eq!(route(Some("yml")).unwrap(), Route::Config(ConfigFormat::Yaml));
    assert_eq!(route(Some("toml")).unwrap(), Route::Config(ConfigFormat::Toml));
}

#[test]
fn an_unknown_extension_is_unsupported_with_its_text() {
    assert!(matches!(
        language_for(Some("xyz")),
        Err(ParseError::UnsupportedLanguage { ref extension }) if extension == "xyz"
    ));
    assert!(matches!(
        language_for(Some("json")),
        Err(ParseError::UnsupportedLanguage { ref extension }) if extension == "json"
    ));
    assert!(matches!(
        language_for(Some("")),
        Err(ParseError::UnsupportedLanguage { ref extension }) if extension.is_empty()
    ));
    assert!(matches!(
        format_for(Some("xyz")),
        Err(ParseError::UnsupportedFormat { ref extension }) if extension == "xyz"
    ));
    assert!(matches!(
        format_for(Some("py")),
        Err(ParseError::UnsupportedFormat { ref extension }) if extension == "py"
    ));
    assert!(matches!(
        route(Some("xyz")),
        Err(ParseError::UnsupportedLanguage { ref extension }) if extension == "xyz"
    ));
    assert!(matches!(
        route(Some("PY")),
        Err(ParseError::UnsupportedLanguage { ref extension }) if extension == "PY"
    ));
}
