//! What the extension of a path decides: whether a file is refused, read as
//! configuration, or read as source code of a language.

use crate::error::{ParseError, ParseErrorView};
use crate::language::SupportedLanguage;
use crate::section::ConfigFormat;
use vstd::prelude::*;

verus! {

/// The extractor that a file goes to.
#[derive(Clone, Copy, Debug, PartialEq, Eq, Structural)]
pub enum Route {
    /// The section extractor, for a document of the given format.
    Config(ConfigFormat),
    /// The structural extractor, for source code of the given language.
    Code(SupportedLanguage),
}

/// The view of an optional extension.
pub open spec fn extension_view(extension: Option<&str>) -> Option<Seq<char>> {
    match extension {
        Some(e) => Some(e@),
        None => None,
    }
}

/// The language of a file by its extension: a path without extension is
/// refused as such, an extension of no supported language as unsupported.
pub open spec fn language_choice(extension: Option<Seq<char>>) -> Result<
    SupportedLanguage,
    ParseErrorView,
> {
    match extension {
        None => Err(ParseErrorView::MissingExtension),
        Some(ext) => match SupportedLanguage::for_extension(ext) {
            Some(lang) => Ok(lang),
            None => Err(ParseErrorView::UnsupportedLanguage { extension: ext }),
        },
    }
}

/// The configuration format of a file by its extension: a path without
/// extension is refused as such, an extension of no configuration format as
/// unsupported.
pub open spec fn format_choice(extension: Option<Seq<char>>) -> Result<ConfigFormat, ParseErrorView> {
    match extension {
        None => Err(ParseErrorView::MissingExtension),
        Some(ext) => match ConfigFormat::for_extension(ext) {
            Some(format) => Ok(format),
            None => Err(ParseErrorView::UnsupportedFormat { extension: ext }),
        },
    }
}

/// The extractor that a file goes to by its extension: the section
/// extractor for an extension of a configuration format, else the
/// structural extractor, which refuses what it has no language for.
pub open spec fn route_choice(extension: Option<Seq<char>>) -> Result<Route, ParseErrorView> {
    match format_choice(extension) {
        Ok(format) => Ok(Route::Config(format)),
        Err(_) => match language_choice(extension) {
            Ok(lang) => Ok(Route::Code(lang)),
            Err(e) => Err(e),
        },
    }
}

/// The view of a choice that may have failed.
pub open spec fn choice_view<T>(choice: Result<T, ParseError>) -> Result<T, ParseErrorView> {
    match choice {
        Ok(t) => Ok(t),
        Err(e) => Err(e@),
    }
}

/// Tells the language of a file from its extension.
pub fn language_for(extension: Option<&str>) -> (r: Result<SupportedLanguage, ParseError>)
    ensures
        choice_view(r) == language_choice(extension_view(extension)),
{
    match extension {
        None => Err(ParseError::MissingExtension),
        Some(ext) => match SupportedLanguage::from_extension(ext) {
            Some(lang) => Ok(lang),
            None => Err(ParseError::UnsupportedLanguage { extension: ext.to_owned() }),
        },
    }
}

/// Tells the configuration format of a file from its extension.
pub fn format_for(extension: Option<&str>) -> (r: Result<ConfigFormat, ParseError>)
    ensures
        choice_view(r) == format_choice(extension_view(extension)),
{
    match extension {
        None => Err(ParseError::MissingExtension),
        Some(ext) => match ConfigFormat::from_extension(ext) {
            Some(format) => Ok(format),
            None => Err(ParseError::UnsupportedFormat { extension: ext.to_owned() }),
        },
    }
}

/// Tells from its extension which extractor a file goes to.
pub fn route(extension: Option<&str>) -> (r: Result<Route, ParseError>)
    ensures
        choice_view(r) == route_choice(extension_view(extension)),
{
    match format_for(extension) {
        Ok(format) => Ok(Route::Config(format)),
        Err(_) => match language_for(extension) {
            Ok(lang) => Ok(Route::Code(lang)),
            Err(e) => Err(e),
        },
    }
}

/// The extension as borrowed text.
pub fn borrowed(extension: &Option<String>) -> (r: Option<&str>)
    ensures
        extension_view(r) == crate::text::text_view(*extension),
{
    match extension {
        Some(e) => Some(e.as_str()),
        None => None,
    }
}

} // verus!
