//! The typed domains of the recognized settings, and the parsers that take
//! an untyped scalar into them.
//!
//! Enumerated values are matched case- and separator-insensitively: both the
//! compact spelling of a multi-word label (`langAttribute`) and a
//! separator-delimited one (`lang-attribute`) name the same variant.

use crate::text::matches_label;
use crate::text::normal_form;
use vstd::prelude::*;

verus! {

/// Preferred quote character for attribute values.
#[derive(Clone, Copy, Debug, PartialEq, Eq, Structural)]
pub enum Quotes {
    Double,
    Single,
}

/// The external formatter family that script fragments are delegated to.
#[derive(Clone, Copy, Debug, PartialEq, Eq, Structural)]
pub enum ScriptFormatter {
    Dprint,
    Biome,
}

/// How whitespace around element content is treated.
#[derive(Clone, Copy, Debug, PartialEq, Eq, Structural)]
pub enum WhitespaceSensitivity {
    Css,
    Strict,
    Ignore,
}

/// What is done with a custom block: kept and formatted according to its
/// language attribute, squashed into its parent, or dropped entirely.
#[derive(Clone, Copy, Debug, PartialEq, Eq, Structural)]
pub enum CustomBlockPolicy {
    LangAttribute,
    Squash,
    Omit,
}

/// An embedded language that per-language overrides can be scoped to.
#[derive(Clone, Copy, Debug, PartialEq, Eq, Structural)]
pub enum LangScope {
    Vue,
    Svelte,
    Astro,
    Html,
}

/// The quote style named by `s`, if any.
pub open spec fn quotes_of(s: Seq<char>) -> Option<Quotes> {
    if normal_form(s) == "double"@ {
        Some(Quotes::Double)
    } else if normal_form(s) == "single"@ {
        Some(Quotes::Single)
    } else {
        None
    }
}

/// Parses a quote style value.
pub fn parse_quotes(s: &str) -> (r: Option<Quotes>)
    ensures
        r == quotes_of(s@),
{
    if matches_label(s, "double") {
        Some(Quotes::Double)
    } else if matches_label(s, "single") {
        Some(Quotes::Single)
    } else {
        None
    }
}

/// The formatter family named by `s`, if any.
pub open spec fn script_formatter_of(s: Seq<char>) -> Option<ScriptFormatter> {
    if normal_form(s) == "dprint"@ {
        Some(ScriptFormatter::Dprint)
    } else if normal_form(s) == "biome"@ {
        Some(ScriptFormatter::Biome)
    } else {
        None
    }
}

/// Parses a formatter family value.
pub fn parse_script_formatter(s: &str) -> (r: Option<ScriptFormatter>)
    ensures
        r == script_formatter_of(s@),
{
    if matches_label(s, "dprint") {
        Some(ScriptFormatter::Dprint)
    } else if matches_label(s, "biome") {
        Some(ScriptFormatter::Biome)
    } else {
        None
    }
}

/// The whitespace sensitivity named by `s`, if any.
pub open spec fn whitespace_sensitivity_of(s: Seq<char>) -> Option<WhitespaceSensitivity> {
    if normal_form(s) == "css"@ {
        Some(WhitespaceSensitivity::Css)
    } else if normal_form(s) == "strict"@ {
        Some(WhitespaceSensitivity::Strict)
    } else if normal_form(s) == "ignore"@ {
        Some(WhitespaceSensitivity::Ignore)
    } else {
        None
    }
}

/// Parses a whitespace sensitivity value.
pub fn parse_whitespace_sensitivity(s: &str) -> (r: Option<WhitespaceSensitivity>)
    ensures
        r == whitespace_sensitivity_of(s@),
{
    if matches_label(s, "css") {
        Some(WhitespaceSensitivity::Css)
    } else if matches_label(s, "strict") {
        Some(WhitespaceSensitivity::Strict)
    } else if matches_label(s, "ignore") {
        Some(WhitespaceSensitivity::Ignore)
    } else {
        None
    }
}

/// The custom block policy named by `s`, if any.
pub open spec fn custom_block_policy_of(s: Seq<char>) -> Option<CustomBlockPolicy> {
    if normal_form(s) == "langattribute"@ {
        Some(CustomBlockPolicy::LangAttribute)
    } else if normal_form(s) == "squash"@ {
        Some(CustomBlockPolicy::Squash)
    } else if normal_form(s) == "none"@ {
        Some(CustomBlockPolicy::Omit)
    } else {
        None
    }
}

/// Parses a custom block policy value.
pub fn parse_custom_block_policy(s: &str) -> (r: Option<CustomBlockPolicy>)
    ensures
        r == custom_block_policy_of(s@),
{
    if matches_label(s, "langattribute") {
        Some(CustomBlockPolicy::LangAttribute)
    } else if matches_label(s, "squash") {
        Some(CustomBlockPolicy::Squash)
    } else if matches_label(s, "none") {
        Some(CustomBlockPolicy::Omit)
    } else {
        None
    }
}

/// The language scope named by `s`, if any.
pub open spec fn lang_scope_of(s: Seq<char>) -> Option<LangScope> {
    if normal_form(s) == "vue"@ {
        Some(LangScope::Vue)
    } else if normal_form(s) == "svelte"@ {
        Some(LangScope::Svelte)
    } else if normal_form(s) == "astro"@ {
        Some(LangScope::Astro)
    } else if normal_form(s) == "html"@ {
        Some(LangScope::Html)
    } else {
        None
    }
}

/// Parses a language scope segment.
pub fn parse_lang_scope(s: &str) -> (r: Option<LangScope>)
    ensures
        r == lang_scope_of(s@),
{
    if matches_label(s, "vue") {
        Some(LangScope::Vue)
    } else if matches_label(s, "svelte") {
        Some(LangScope::Svelte)
    } else if matches_label(s, "astro") {
        Some(LangScope::Astro)
    } else if matches_label(s, "html") {
        Some(LangScope::Html)
    } else {
        None
    }
}

} // verus!
