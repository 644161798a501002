use semantic_units::section::ConfigFormat;
use semantic_units::language::{SupportedLanguage, LANGUAGE_COUNT};
use semantic_units::unit::UnitKind;

#[test]
fn every_known_extension_names_its_language() {
    let table = [
        ("py", SupportedLanguage::Python),
        ("js", SupportedLanguage::JavaScript),
        ("jsx", SupportedLanguage::JavaScript),
        ("mjs", SupportedLanguage::JavaScript),
        ("ts", SupportedLanguage::TypeScript),
        ("tsx", SupportedLanguage::TypeScript),
        ("java", SupportedLanguage::Java),
        ("go", SupportedLanguage::Go),
        ("rs", SupportedLanguage::Rust),
        ("rb", SupportedLanguage::Ruby),
        ("c", SupportedLanguage::C),
        ("cpp", SupportedLanguage::Cpp),
        ("cc", SupportedLanguage::Cpp),
        ("cxx", SupportedLanguage::Cpp),
        ("hpp", SupportedLanguage::Cpp),
        ("h", SupportedLanguage::Cpp),
        ("hxx", SupportedLanguage::Cpp),
        ("hh", SupportedLanguage::Cpp),
        ("cs", SupportedLanguage::CSharp),
        ("sql", SupportedLanguage::Sql),
        ("php", SupportedLanguage::Php),
    ];
    for (ext, lang) in table {
        assert_eq!(SupportedLanguage::from_extension(ext), Some(lang), "extension {}", ext);
    }
}

#[test]
fn other_extensions_name_no_language() {
    for ext in ["", "xyz", "PY", "json", "yaml", "toml", "p", "pyc", "rss"] {
        assert_eq!(SupportedLanguage::from_extension(ext), None, "extension {:?}", ext);
    }
}

#[test]
fn language_names_are_the_variant_names() {
    let names = [
        "Python", "JavaScript", "TypeScript", "Java", "Go", "Rust", "Ruby", "C", "Cpp", "CSharp",
        "Sql", "Php",
    ];
    assert_eq!(names.len(), LANGUAGE_COUNT);
    for (i, name) in names.iter().enumerate() {
        let lang = SupportedLanguage::from_index(i);
        assert_eq!(lang.label(), *name);
        assert_eq!(format!("{:?}", lang), *name);
        assert_eq!(lang.index(), i);
    }
}

#[test]
fn patterns_capture_the_whole_construct_under_the_kind_name() {
    for i in 0..LANGUAGE_COUNT {
        let lang = SupportedLanguage::from_index(i);
        assert!(lang.function_query().contains("@function"), "{:?}", lang);
        assert!(lang.class_query().contains("@class"), "{:?}", lang);
    }
}

#[test]
fn c_and_cpp_share_the_function_pattern_but_not_the_class_pattern() {
    assert_eq!(SupportedLanguage::C.function_query(), SupportedLanguage::Cpp.function_query());
    assert!(SupportedLanguage::Cpp.class_query().contains("class_specifier"));
    assert!(!SupportedLanguage::C.class_query().contains("class_specifier"));
    assert!(SupportedLanguage::Python.function_query().contains("(function_definition"));
    assert!(SupportedLanguage::Sql.function_query().contains("(create_function) @function"));
}

#[test]
fn config_extensions_name_their_format() {
    assert_eq!(ConfigFormat::from_extension("json"), Some(ConfigFormat::Json));
    assert_eq!(ConfigFormat::from_extension("yaml"), Some(ConfigFormat::Yaml));
    assert_eq!(ConfigFormat::from_extension("yml"), Some(ConfigFormat::Yaml));
    assert_eq!(ConfigFormat::from_extension("toml"), Some(ConfigFormat::Toml));
    assert_eq!(ConfigFormat::from_extension("ini"), None);
    assert_eq!(ConfigFormat::from_extension("JSON"), None);
    assert_eq!(ConfigFormat::from_extension(""), None);
    assert_eq!(ConfigFormat::Json.label(), "Json");
    assert_eq!(ConfigFormat::Yaml.label(), "Yaml");
    assert_eq!(ConfigFormat::Toml.label(), "Toml");
}

#[test]
fn unit_kinds_carry_their_tag() {
    assert_eq!(UnitKind::Function.label(), "function");
    assert_eq!(UnitKind::Class.label(), "class");
}
