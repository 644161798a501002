//! Why an extraction failed.

use vstd::prelude::*;
use vstd::string::StringExecFns;

verus! {

/// The reason an extraction did not produce a result.
#[derive(Debug)]
pub enum ParseError {
    /// The path has no file extension.
    MissingExtension,
    /// The extension names no supported programming language.
    UnsupportedLanguage { extension: String },
    /// The extension names no supported configuration format.
    UnsupportedFormat { extension: String },
    /// No parser is at hand for a supported language.
    AdapterNotFound,
    /// The grammar produced no syntax tree at all.
    ParseFailure,
    /// The text is not valid data of its configuration format; `message`
    /// names the format and holds what its parser reported.
    StructuralParseFailure { message: String },
}

/// What a [`ParseError`] holds, as mathematical values.
pub enum ParseErrorView {
    MissingExtension,
    UnsupportedLanguage { extension: Seq<char> },
    UnsupportedFormat { extension: Seq<char> },
    AdapterNotFound,
    ParseFailure,
    StructuralParseFailure { message: Seq<char> },
}

impl View for ParseError {
    type V = ParseErrorView;

    open spec fn view(&self) -> ParseErrorView {
        match self {
            ParseError::MissingExtension => ParseErrorView::MissingExtension,
            ParseError::UnsupportedLanguage { extension } => ParseErrorView::UnsupportedLanguage {
                extension: extension@,
            },
            ParseError::UnsupportedFormat { extension } => ParseErrorView::UnsupportedFormat {
                extension: extension@,
            },
            ParseError::AdapterNotFound => ParseErrorView::AdapterNotFound,
            ParseError::ParseFailure => ParseErrorView::ParseFailure,
            ParseError::StructuralParseFailure { message } => ParseErrorView::StructuralParseFailure {
                message: message@,
            },
        }
    }
}

impl ParseErrorView {
    /// The descriptive message of the error.
    pub open spec fn message(self) -> Seq<char> {
        match self {
            ParseErrorView::MissingExtension => "No file extension"@,
            ParseErrorView::UnsupportedLanguage { extension } => "Unsupported file extension: "@
                + extension,
            ParseErrorView::UnsupportedFormat { extension } => "Unsupported config file extension: "@
                + extension,
            ParseErrorView::AdapterNotFound => "Parser not found"@,
            ParseErrorView::ParseFailure => "Failed to parse file"@,
            ParseErrorView::StructuralParseFailure { message } => message,
        }
    }
}

impl ParseError {
    /// The descriptive message of the error, as handed to a caller that wants
    /// text only.
    pub fn message(&self) -> (s: String)
        ensures
            s@ == self@.message(),
    {
        match self {
            ParseError::MissingExtension => "No file extension".to_owned(),
            ParseError::UnsupportedLanguage { extension } => {
                "Unsupported file extension: ".to_owned().concat(extension.as_str())
            },
            ParseError::UnsupportedFormat { extension } => {
                "Unsupported config file extension: ".to_owned().concat(extension.as_str())
            },
            ParseError::AdapterNotFound => "Parser not found".to_owned(),
            ParseError::ParseFailure => "Failed to parse file".to_owned(),
            ParseError::StructuralParseFailure { message } => message.clone(),
        }
    }
}

impl Clone for ParseError {
    fn clone(&self) -> (r: Self)
        ensures
            r@ == self@,
    {
        match self {
            ParseError::MissingExtension => ParseError::MissingExtension,
            ParseError::UnsupportedLanguage { extension } => ParseError::UnsupportedLanguage {
                extension: extension.clone(),
            },
            ParseError::UnsupportedFormat { extension } => ParseError::UnsupportedFormat {
                extension: extension.clone(),
            },
            ParseError::AdapterNotFound => ParseError::AdapterNotFound,
            ParseError::ParseFailure => ParseError::ParseFailure,
            ParseError::StructuralParseFailure { message } => ParseError::StructuralParseFailure {
                message: message.clone(),
            },
        }
    }
}

} // verus!
