//! Detection of a document's markup language from its file path.
//!
//! Detection that fails is not an error: the document falls back to HTML,
//! which also lets files with unknown extensions (such as `.svg`) be
//! formatted.

use vstd::prelude::*;

verus! {

/// The markup language of a document.
#[derive(Clone, Copy, Debug, PartialEq, Eq, Structural)]
pub enum Language {
    Html,
    Vue,
    Svelte,
    Astro,
    Angular,
    Jinja,
    Vento,
    Mustache,
    Xml,
}

/// The language that detection assigns to a file path, if any; a function
/// of the path alone.
pub uninterp spec fn detected_language(path: Seq<char>) -> Option<Language>;

/// Relies on `markup_fmt::detect_language`: the language is chosen by the
/// path's extension (and, for `.html`, its stem), so it depends on the
/// path alone.
#[verifier::external_body]
fn detect_language_raw(path: &str) -> (r: Option<Language>)
    ensures
        r == detected_language(path@),
{
    markup_fmt::detect_language(std::path::Path::new(path)).map(|l| match l {
        markup_fmt::Language::Html => Language::Html,
        markup_fmt::Language::Vue => Language::Vue,
        markup_fmt::Language::Svelte => Language::Svelte,
        markup_fmt::Language::Astro => Language::Astro,
        markup_fmt::Language::Angular => Language::Angular,
        markup_fmt::Language::Jinja => Language::Jinja,
        markup_fmt::Language::Vento => Language::Vento,
        markup_fmt::Language::Mustache => Language::Mustache,
        markup_fmt::Language::Xml => Language::Xml,
    })
}

/// The language a document is formatted as: what detection assigns to its
/// path, or HTML when detection assigns none.
pub fn detect_document_language(path: &str) -> (r: Language)
    ensures
        r == match detected_language(path@) {
            Some(l) => l,
            None => Language::Html,
        },
{
    match detect_language_raw(path) {
        Some(l) => l,
        None => Language::Html,
    }
}

} // verus!
