//! The registry of supported programming languages: which file extensions
//! belong to which language, and the two structural patterns by which the
//! function-like and the class-like constructs of a language are found.

use crate::text::{chars_eq, chars_of};
use vstd::prelude::*;

verus! {

/// The number of supported languages.
pub const LANGUAGE_COUNT: usize = 12;

/// A supported programming language.
#[derive(Clone, Copy, Debug, PartialEq, Eq, Structural)]
pub enum SupportedLanguage {
    Python,
    JavaScript,
    TypeScript,
    Java,
    Go,
    Rust,
    Ruby,
    C,
    Cpp,
    CSharp,
    Sql,
    Php,
}

/// A structural pattern of the registry.
pub const PYTHON_FUNCTIONS: &'static str = r#"
                (function_definition
                  name: (identifier) @name
                  parameters: (parameters) @params
                  body: (block) @body) @function
                "#;

/// A structural pattern of the registry.
pub const PYTHON_CLASSES: &'static str = r#"
                (class_definition
                  name: (identifier) @name
                  body: (block) @body) @class
                "#;

/// A structural pattern of the registry.
pub const JAVASCRIPT_FUNCTIONS: &'static str = r#"
                (function_declaration
                  name: (identifier) @name
                  parameters: (formal_parameters) @params
                  body: (statement_block) @body) @function
                "#;

/// A structural pattern of the registry.
pub const JAVASCRIPT_CLASSES: &'static str = r#"
                (class_declaration
                  name: (identifier) @name
                  body: (class_body) @body) @class
                "#;

/// A structural pattern of the registry.
pub const TYPESCRIPT_FUNCTIONS: &'static str = r#"
                (function_declaration
                  name: (identifier) @name
                  parameters: (formal_parameters) @params
                  body: (statement_block) @body) @function
                "#;

/// A structural pattern of the registry.
pub const TYPESCRIPT_CLASSES: &'static str = r#"
                (class_declaration
                  name: (_) @name
                  body: (class_body) @body) @class
                "#;

/// A structural pattern of the registry.
pub const JAVA_FUNCTIONS: &'static str = r#"
                (method_declaration
                  name: (identifier) @name
                  parameters: (formal_parameters) @params
                  body: (block) @body) @function
                "#;

/// A structural pattern of the registry.
pub const JAVA_CLASSES: &'static str = r#"
                (class_declaration
                  name: (identifier) @name
                  body: (class_body) @body) @class
                "#;

/// A structural pattern of the registry.
pub const GO_FUNCTIONS: &'static str = r#"
                (function_declaration
                  name: (identifier) @name
                  parameters: (parameter_list) @params
                  body: (block) @body) @function
                "#;

/// A structural pattern of the registry.
pub const GO_CLASSES: &'static str = r#"
                (type_declaration
                  (type_spec
                    name: (type_identifier) @name
                    type: (struct_type) @body)) @class
                "#;

/// A structural pattern of the registry.
pub const RUST_FUNCTIONS: &'static str = r#"
                (function_item
                  name: (identifier) @name
                  parameters: (parameters) @params
                  body: (block) @body) @function
                "#;

/// A structural pattern of the registry.
pub const RUST_CLASSES: &'static str = r#"
                (struct_item
                  name: (type_identifier) @name
                  body: (field_declaration_list) @body) @class
                "#;

/// A structural pattern of the registry.
pub const RUBY_FUNCTIONS: &'static str = r#"
                (method
                  name: (_) @name
                  parameters: (method_parameters)? @params) @function
                "#;

/// A structural pattern of the registry.
pub const RUBY_CLASSES: &'static str = r#"
                [(class
                  name: (constant) @name)
                 (module
                  name: (constant) @name)] @class
                "#;

/// A structural pattern of the registry.
pub const C_FUNCTIONS: &'static str = r#"
                (function_definition
                  declarator: (function_declarator
                    declarator: (_) @name)
                  body: (compound_statement) @body) @function
                "#;

/// A structural pattern of the registry.
pub const C_CLASSES: &'static str = r#"
                (struct_specifier
                  name: (type_identifier) @name
                  body: (field_declaration_list) @body) @class
                "#;

/// A structural pattern of the registry.
pub const CPP_CLASSES: &'static str = r#"
                [(class_specifier
                  name: (type_identifier) @name
                  body: (field_declaration_list) @body)
                 (struct_specifier
                  name: (type_identifier) @name
                  body: (field_declaration_list) @body)] @class
                "#;

/// A structural pattern of the registry.
pub const CSHARP_FUNCTIONS: &'static str = r#"
                (method_declaration
                  name: (identifier) @name) @function
                "#;

/// A structural pattern of the registry.
pub const CSHARP_CLASSES: &'static str = r#"
                [(class_declaration
                  name: (identifier) @name)
                 (interface_declaration
                  name: (identifier) @name)
                 (struct_declaration
                  name: (identifier) @name)] @class
                "#;

/// A structural pattern of the registry.
pub const SQL_FUNCTIONS: &'static str = r#"
                (create_function) @function
                "#;

/// A structural pattern of the registry.
pub const SQL_CLASSES: &'static str = r#"
                [
                  (create_table) @class
                  (create_view) @class
                ]
                "#;

/// A structural pattern of the registry.
pub const PHP_FUNCTIONS: &'static str = r#"
                (function_definition
                  name: (name) @name
                  parameters: (formal_parameters) @params
                  body: (compound_statement) @body) @function
                "#;

/// A structural pattern of the registry.
pub const PHP_CLASSES: &'static str = r#"
                [(class_declaration
                  name: (name) @name
                  body: (declaration_list) @body)
                 (interface_declaration
                  name: (name) @name
                  body: (declaration_list) @body)
                 (trait_declaration
                  name: (name) @name
                  body: (declaration_list) @body)] @class
                "#;

/// Whether the code points `ext` spell `lit`.
fn spells(ext: &Vec<char>, lit: &str) -> (r: bool)
    ensures
        r == (ext@ == lit@),
{
    let l = chars_of(lit);
    chars_eq(ext, &l)
}

impl SupportedLanguage {
    /// The language that files with the extension `ext` are written in.
    pub open spec fn for_extension(ext: Seq<char>) -> Option<SupportedLanguage> {
        if ext == "py"@ {
            Some(SupportedLanguage::Python)
        } else if ext == "js"@ || ext == "jsx"@ || ext == "mjs"@ {
            Some(SupportedLanguage::JavaScript)
        } else if ext == "ts"@ || ext == "tsx"@ {
            Some(SupportedLanguage::TypeScript)
        } else if ext == "java"@ {
            Some(SupportedLanguage::Java)
        } else if ext == "go"@ {
            Some(SupportedLanguage::Go)
        } else if ext == "rs"@ {
            Some(SupportedLanguage::Rust)
        } else if ext == "rb"@ {
            Some(SupportedLanguage::Ruby)
        } else if ext == "c"@ {
            Some(SupportedLanguage::C)
        } else if ext == "cpp"@ || ext == "cc"@ || ext == "cxx"@ || ext == "hpp"@ || ext == "h"@ || ext == "hxx"@ || ext == "hh"@ {
            Some(SupportedLanguage::Cpp)
        } else if ext == "cs"@ {
            Some(SupportedLanguage::CSharp)
        } else if ext == "sql"@ {
            Some(SupportedLanguage::Sql)
        } else if ext == "php"@ {
            Some(SupportedLanguage::Php)
        } else {
            None
        }
    }

    /// The language that files with the extension `ext` are written in, or
    /// `None` where the extension belongs to no supported language.
    pub fn from_extension(ext: &str) -> (r: Option<SupportedLanguage>)
        ensures
            r == Self::for_extension(ext@),
    {
        let e = chars_of(ext);
        if spells(&e, "py") {
            Some(SupportedLanguage::Python)
        } else if spells(&e, "js") || spells(&e, "jsx") || spells(&e, "mjs") {
            Some(SupportedLanguage::JavaScript)
        } else if spells(&e, "ts") || spells(&e, "tsx") {
            Some(SupportedLanguage::TypeScript)
        } else if spells(&e, "java") {
            Some(SupportedLanguage::Java)
        } else if spells(&e, "go") {
            Some(SupportedLanguage::Go)
        } else if spells(&e, "rs") {
            Some(SupportedLanguage::Rust)
        } else if spells(&e, "rb") {
            Some(SupportedLanguage::Ruby)
        } else if spells(&e, "c") {
            Some(SupportedLanguage::C)
        } else if spells(&e, "cpp") || spells(&e, "cc") || spells(&e, "cxx") || spells(&e, "hpp") || spells(&e, "h") || spells(&e, "hxx") || spells(&e, "hh") {
            Some(SupportedLanguage::Cpp)
        } else if spells(&e, "cs") {
            Some(SupportedLanguage::CSharp)
        } else if spells(&e, "sql") {
            Some(SupportedLanguage::Sql)
        } else if spells(&e, "php") {
            Some(SupportedLanguage::Php)
        } else {
            None
        }
    }

    /// The language whose grammar files of this language are parsed with: C
    /// is parsed with the grammar of C++, every other language with its own.
    pub open spec fn parsed_as(self) -> SupportedLanguage {
        match self {
            SupportedLanguage::C => SupportedLanguage::Cpp,
            _ => self,
        }
    }

    /// The name of the language, as units and results carry it.
    pub open spec fn name(self) -> Seq<char> {
        match self {
            SupportedLanguage::Python => "Python"@,
            SupportedLanguage::JavaScript => "JavaScript"@,
            SupportedLanguage::TypeScript => "TypeScript"@,
            SupportedLanguage::Java => "Java"@,
            SupportedLanguage::Go => "Go"@,
            SupportedLanguage::Rust => "Rust"@,
            SupportedLanguage::Ruby => "Ruby"@,
            SupportedLanguage::C => "C"@,
            SupportedLanguage::Cpp => "Cpp"@,
            SupportedLanguage::CSharp => "CSharp"@,
            SupportedLanguage::Sql => "Sql"@,
            SupportedLanguage::Php => "Php"@,
        }
    }

    /// The name of the language as a string.
    pub fn label(&self) -> (s: String)
        ensures
            s@ == self.name(),
    {
        match self {
            SupportedLanguage::Python => "Python".to_owned(),
            SupportedLanguage::JavaScript => "JavaScript".to_owned(),
            SupportedLanguage::TypeScript => "TypeScript".to_owned(),
            SupportedLanguage::Java => "Java".to_owned(),
            SupportedLanguage::Go => "Go".to_owned(),
            SupportedLanguage::Rust => "Rust".to_owned(),
            SupportedLanguage::Ruby => "Ruby".to_owned(),
            SupportedLanguage::C => "C".to_owned(),
            SupportedLanguage::Cpp => "Cpp".to_owned(),
            SupportedLanguage::CSharp => "CSharp".to_owned(),
            SupportedLanguage::Sql => "Sql".to_owned(),
            SupportedLanguage::Php => "Php".to_owned(),
        }
    }

    /// The position of the language in the registry.
    pub open spec fn ordinal(self) -> int {
        match self {
            SupportedLanguage::Python => 0,
            SupportedLanguage::JavaScript => 1,
            SupportedLanguage::TypeScript => 2,
            SupportedLanguage::Java => 3,
            SupportedLanguage::Go => 4,
            SupportedLanguage::Rust => 5,
            SupportedLanguage::Ruby => 6,
            SupportedLanguage::C => 7,
            SupportedLanguage::Cpp => 8,
            SupportedLanguage::CSharp => 9,
            SupportedLanguage::Sql => 10,
            SupportedLanguage::Php => 11,
        }
    }

    /// The position of the language in the registry.
    pub fn index(&self) -> (i: usize)
        ensures
            i == self.ordinal(),
            i < LANGUAGE_COUNT,
    {
        match self {
            SupportedLanguage::Python => 0,
            SupportedLanguage::JavaScript => 1,
            SupportedLanguage::TypeScript => 2,
            SupportedLanguage::Java => 3,
            SupportedLanguage::Go => 4,
            SupportedLanguage::Rust => 5,
            SupportedLanguage::Ruby => 6,
            SupportedLanguage::C => 7,
            SupportedLanguage::Cpp => 8,
            SupportedLanguage::CSharp => 9,
            SupportedLanguage::Sql => 10,
            SupportedLanguage::Php => 11,
        }
    }

    /// The language at position `i` of the registry.
    pub open spec fn at(i: int) -> SupportedLanguage {
        if i == 0 {
            SupportedLanguage::Python
        } else if i == 1 {
            SupportedLanguage::JavaScript
        } else if i == 2 {
            SupportedLanguage::TypeScript
        } else if i == 3 {
            SupportedLanguage::Java
        } else if i == 4 {
            SupportedLanguage::Go
        } else if i == 5 {
            SupportedLanguage::Rust
        } else if i == 6 {
            SupportedLanguage::Ruby
        } else if i == 7 {
            SupportedLanguage::C
        } else if i == 8 {
            SupportedLanguage::Cpp
        } else if i == 9 {
            SupportedLanguage::CSharp
        } else if i == 10 {
            SupportedLanguage::Sql
        } else {
            SupportedLanguage::Php
        }
    }

    /// The language at position `i` of the registry.
    pub fn from_index(i: usize) -> (lang: SupportedLanguage)
        requires
            i < LANGUAGE_COUNT,
        ensures
            lang == Self::at(i as int),
            lang.ordinal() == i,
    {
        if i == 0 {
            SupportedLanguage::Python
        } else if i == 1 {
            SupportedLanguage::JavaScript
        } else if i == 2 {
            SupportedLanguage::TypeScript
        } else if i == 3 {
            SupportedLanguage::Java
        } else if i == 4 {
            SupportedLanguage::Go
        } else if i == 5 {
            SupportedLanguage::Rust
        } else if i == 6 {
            SupportedLanguage::Ruby
        } else if i == 7 {
            SupportedLanguage::C
        } else if i == 8 {
            SupportedLanguage::Cpp
        } else if i == 9 {
            SupportedLanguage::CSharp
        } else if i == 10 {
            SupportedLanguage::Sql
        } else {
            SupportedLanguage::Php
        }
    }

    /// The structural pattern that finds the function-like constructs of the
    /// language.
    pub open spec fn function_pattern(self) -> Seq<char> {
        match self {
            SupportedLanguage::Python => PYTHON_FUNCTIONS@,
            SupportedLanguage::JavaScript => JAVASCRIPT_FUNCTIONS@,
            SupportedLanguage::TypeScript => TYPESCRIPT_FUNCTIONS@,
            SupportedLanguage::Java => JAVA_FUNCTIONS@,
            SupportedLanguage::Go => GO_FUNCTIONS@,
            SupportedLanguage::Rust => RUST_FUNCTIONS@,
            SupportedLanguage::Ruby => RUBY_FUNCTIONS@,
            SupportedLanguage::C => C_FUNCTIONS@,
            SupportedLanguage::Cpp => C_FUNCTIONS@,
            SupportedLanguage::CSharp => CSHARP_FUNCTIONS@,
            SupportedLanguage::Sql => SQL_FUNCTIONS@,
            SupportedLanguage::Php => PHP_FUNCTIONS@,
        }
    }

    /// The structural pattern that finds the function-like constructs of the
    /// language.
    pub fn function_query(&self) -> (q: &'static str)
        ensures
            q@ == self.function_pattern(),
    {
        match self {
            SupportedLanguage::Python => PYTHON_FUNCTIONS,
            SupportedLanguage::JavaScript => JAVASCRIPT_FUNCTIONS,
            SupportedLanguage::TypeScript => TYPESCRIPT_FUNCTIONS,
            SupportedLanguage::Java => JAVA_FUNCTIONS,
            SupportedLanguage::Go => GO_FUNCTIONS,
            SupportedLanguage::Rust => RUST_FUNCTIONS,
            SupportedLanguage::Ruby => RUBY_FUNCTIONS,
            SupportedLanguage::C => C_FUNCTIONS,
            SupportedLanguage::Cpp => C_FUNCTIONS,
            SupportedLanguage::CSharp => CSHARP_FUNCTIONS,
            SupportedLanguage::Sql => SQL_FUNCTIONS,
            SupportedLanguage::Php => PHP_FUNCTIONS,
        }
    }

    /// The structural pattern that finds the class-like constructs of the
    /// language.
    pub open spec fn class_pattern(self) -> Seq<char> {
        match self {
            SupportedLanguage::Python => PYTHON_CLASSES@,
            SupportedLanguage::JavaScript => JAVASCRIPT_CLASSES@,
            SupportedLanguage::TypeScript => TYPESCRIPT_CLASSES@,
            SupportedLanguage::Java => JAVA_CLASSES@,
            SupportedLanguage::Go => GO_CLASSES@,
            SupportedLanguage::Rust => RUST_CLASSES@,
            SupportedLanguage::Ruby => RUBY_CLASSES@,
            SupportedLanguage::C => C_CLASSES@,
            SupportedLanguage::Cpp => CPP_CLASSES@,
            SupportedLanguage::CSharp => CSHARP_CLASSES@,
            SupportedLanguage::Sql => SQL_CLASSES@,
            SupportedLanguage::Php => PHP_CLASSES@,
        }
    }

    /// The structural pattern that finds the class-like constructs of the
    /// language.
    pub fn class_query(&self) -> (q: &'static str)
        ensures
            q@ == self.class_pattern(),
    {
        match self {
            SupportedLanguage::Python => PYTHON_CLASSES,
            SupportedLanguage::JavaScript => JAVASCRIPT_CLASSES,
            SupportedLanguage::TypeScript => TYPESCRIPT_CLASSES,
            SupportedLanguage::Java => JAVA_CLASSES,
            SupportedLanguage::Go => GO_CLASSES,
            SupportedLanguage::Rust => RUST_CLASSES,
            SupportedLanguage::Ruby => RUBY_CLASSES,
            SupportedLanguage::C => C_CLASSES,
            SupportedLanguage::Cpp => CPP_CLASSES,
            SupportedLanguage::CSharp => CSHARP_CLASSES,
            SupportedLanguage::Sql => SQL_CLASSES,
            SupportedLanguage::Php => PHP_CLASSES,
        }
    }
}

} // verus!
