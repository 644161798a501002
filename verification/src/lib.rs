//! Extraction of semantic units (functions, class-like definitions and
//! top-level configuration sections) from source text.
//!
//! Source code is parsed with the grammars of `tree-sitter`; JSON, YAML and
//! TOML documents with `serde_json`, `serde_yaml` and `toml`. What those
//! crates return is taken on trust, in `grammar`, `formats`, `parallel`,
//! `extension` and `clock`; everything the library makes of it is proved.
//! A TOML text is handed to its parser only after `nesting` has found that
//! it does not nest too deep.

pub mod adapter;
pub mod capture;
pub mod clock;
pub mod config;
pub mod dispatch;
pub mod embedding;
pub mod error;
pub mod extension;
pub mod extract;
pub mod formats;
pub mod grammar;
pub mod language;
pub mod nesting;
pub mod outcome;
pub mod parallel;
pub mod position;
pub mod route;
pub mod section;
pub mod text;
pub mod unit;

pub use adapter::CodeParser;
pub use config::{parse_config_file, parse_json, parse_toml, parse_yaml};
pub use dispatch::{batch_parse_files, parse_source_file};
pub use error::ParseError;
pub use language::SupportedLanguage;
pub use position::find_key_lines;
pub use unit::{ParseResult, SemanticUnit};
