//! Resolution of raw, untyped configuration into a fully populated,
//! validated configuration.
//!
//! Resolution is total: every raw configuration yields a configuration in
//! which every field has a concrete value, together with one diagnostic per
//! key whose value failed validation.  An invalid value never unseats the
//! seeded default, and an unrecognized key — in particular a key scoped to
//! an unknown language — is ignored.

use crate::custom_block::BlockRule;
use crate::custom_block::BlockRuleView;
use crate::custom_block::CustomBlockStore;
use crate::custom_block::CustomBlockStoreView;
use crate::keys::KeyShape;
use crate::keys::ParsedKey;
use crate::keys::key_shape;
use crate::keys::parse_key;
use crate::options::CustomBlockPolicy;
use crate::options::LangScope;
use crate::options::Quotes;
use crate::options::ScriptFormatter;
use crate::options::WhitespaceSensitivity;
use crate::options::custom_block_policy_of;
use crate::options::lang_scope_of;
use crate::options::parse_custom_block_policy;
use crate::options::parse_lang_scope;
use crate::options::parse_quotes;
use crate::options::parse_script_formatter;
use crate::options::parse_whitespace_sensitivity;
use crate::options::quotes_of;
use crate::options::script_formatter_of;
use crate::options::whitespace_sensitivity_of;
use crate::text::matches_label;
use crate::text::normal_form;
use crate::values::ConfigEntry;
use crate::values::ConfigValue;
use crate::values::Diagnostic;
use crate::values::DiagnosticView;
use crate::values::EntryView;
use crate::values::ValueView;
use crate::values::invalid_value_diagnostic;
use crate::values::make_invalid_value_diagnostic;
use vstd::prelude::*;

verus! {

/// Raw configuration: a sequence of key/value entries as the caller
/// supplied them.  Keys are expected to be unique; entries are applied in
/// order, so a duplicate key behaves as if only its last entry were present.
pub struct RawConfig {
    pub entries: Vec<ConfigEntry>,
}

impl View for RawConfig {
    type V = Seq<EntryView>;

    open spec fn view(&self) -> Seq<EntryView> {
        self.entries.deep_view()
    }
}

impl RawConfig {
    /// An empty raw configuration.
    pub fn new() -> (r: RawConfig)
        ensures
            r@ == Seq::<EntryView>::empty(),
    {
        let r = RawConfig { entries: Vec::new() };
        proof {
            assert(r@ =~= Seq::<EntryView>::empty());
        }
        r
    }

    /// Appends one entry.
    pub fn insert(&mut self, key: String, value: ConfigValue)
        ensures
            final(self)@ == old(self)@.push(EntryView { key: key@, value: value@ }),
    {
        let ghost target = old(self)@.push(EntryView { key: key@, value: value@ });
        self.entries.push(ConfigEntry { key, value });
        proof {
            assert(self@ =~= target);
        }
    }
}

/// Fallback values supplied by the host for settings shared across
/// formatters; a field left `None` falls back to a built-in default.
#[derive(Clone, Copy, Debug)]
pub struct GlobalDefaults {
    pub line_width: Option<u32>,
    pub use_tabs: Option<bool>,
    pub indent_width: Option<u8>,
}

impl Default for GlobalDefaults {
    /// Global defaults that leave every fallback to its built-in value.
    fn default() -> (r: GlobalDefaults)
        ensures
            r.line_width is None,
            r.use_tabs is None,
            r.indent_width is None,
    {
        GlobalDefaults { line_width: None, use_tabs: None, indent_width: None }
    }
}

/// Document-wide layout settings.
pub struct LayoutConfig {
    pub print_width: usize,
    pub use_tabs: bool,
    pub indent_width: usize,
}

/// View of a [`LayoutConfig`].
#[verifier::ext_equal]
pub struct LayoutConfigView {
    pub print_width: int,
    pub use_tabs: bool,
    pub indent_width: int,
}

impl View for LayoutConfig {
    type V = LayoutConfigView;

    open spec fn view(&self) -> LayoutConfigView {
        LayoutConfigView {
            print_width: self.print_width as int,
            use_tabs: self.use_tabs,
            indent_width: self.indent_width as int,
        }
    }
}

/// Language-level settings: the document-wide base value of each setting
/// together with its per-language overrides, and the custom block tiers.
pub struct LanguageConfig {
    pub quotes: Quotes,
    pub script_formatter: Option<ScriptFormatter>,
    pub script_indent: bool,
    pub vue_script_indent: Option<bool>,
    pub svelte_script_indent: Option<bool>,
    pub astro_script_indent: Option<bool>,
    pub html_script_indent: Option<bool>,
    pub style_indent: bool,
    pub vue_style_indent: Option<bool>,
    pub svelte_style_indent: Option<bool>,
    pub astro_style_indent: Option<bool>,
    pub html_style_indent: Option<bool>,
    pub whitespace_sensitivity: WhitespaceSensitivity,
    pub component_whitespace_sensitivity: Option<WhitespaceSensitivity>,
    pub custom_blocks: CustomBlockStore,
}

/// View of a [`LanguageConfig`].
#[verifier::ext_equal]
pub struct LanguageConfigView {
    pub quotes: Quotes,
    pub script_formatter: Option<ScriptFormatter>,
    pub script_indent: bool,
    pub vue_script_indent: Option<bool>,
    pub svelte_script_indent: Option<bool>,
    pub astro_script_indent: Option<bool>,
    pub html_script_indent: Option<bool>,
    pub style_indent: bool,
    pub vue_style_indent: Option<bool>,
    pub svelte_style_indent: Option<bool>,
    pub astro_style_indent: Option<bool>,
    pub html_style_indent: Option<bool>,
    pub whitespace_sensitivity: WhitespaceSensitivity,
    pub component_whitespace_sensitivity: Option<WhitespaceSensitivity>,
    pub custom_blocks: CustomBlockStoreView,
}

impl View for LanguageConfig {
    type V = LanguageConfigView;

    open spec fn view(&self) -> LanguageConfigView {
        LanguageConfigView {
            quotes: self.quotes,
            script_formatter: self.script_formatter,
            script_indent: self.script_indent,
            vue_script_indent: self.vue_script_indent,
            svelte_script_indent: self.svelte_script_indent,
            astro_script_indent: self.astro_script_indent,
            html_script_indent: self.html_script_indent,
            style_indent: self.style_indent,
            vue_style_indent: self.vue_style_indent,
            svelte_style_indent: self.svelte_style_indent,
            astro_style_indent: self.astro_style_indent,
            html_style_indent: self.html_style_indent,
            whitespace_sensitivity: self.whitespace_sensitivity,
            component_whitespace_sensitivity: self.component_whitespace_sensitivity,
            custom_blocks: self.custom_blocks@,
        }
    }
}

/// A fully populated configuration: every field has a concrete value.
pub struct ResolvedConfig {
    pub layout: LayoutConfig,
    pub language: LanguageConfig,
}

/// View of a [`ResolvedConfig`].
#[verifier::ext_equal]
pub struct ResolvedConfigView {
    pub layout: LayoutConfigView,
    pub language: LanguageConfigView,
}

impl View for ResolvedConfig {
    type V = ResolvedConfigView;

    open spec fn view(&self) -> ResolvedConfigView {
        ResolvedConfigView { layout: self.layout@, language: self.language@ }
    }
}

/// The custom block tiers with nothing configured.
pub open spec fn empty_store() -> CustomBlockStoreView {
    CustomBlockStoreView {
        base_default: None,
        vue_default: None,
        svelte_default: None,
        astro_default: None,
        html_default: None,
        rules: Seq::<BlockRuleView>::empty(),
    }
}

/// The configuration that resolution starts from: every field seeded from
/// the global defaults, or from a built-in default where the host supplies
/// none.
pub open spec fn default_config(g: GlobalDefaults) -> ResolvedConfigView {
    ResolvedConfigView {
        layout: LayoutConfigView {
            print_width: match g.line_width {
                Some(w) => w as int,
                None => 80,
            },
            use_tabs: match g.use_tabs {
                Some(b) => b,
                None => false,
            },
            indent_width: match g.indent_width {
                Some(w) => w as int,
                None => 2,
            },
        },
        language: LanguageConfigView {
            quotes: Quotes::Double,
            script_formatter: None,
            script_indent: false,
            vue_script_indent: None,
            svelte_script_indent: None,
            astro_script_indent: None,
            html_script_indent: None,
            style_indent: false,
            vue_style_indent: None,
            svelte_style_indent: None,
            astro_style_indent: None,
            html_style_indent: None,
            whitespace_sensitivity: WhitespaceSensitivity::Css,
            component_whitespace_sensitivity: None,
            custom_blocks: empty_store(),
        },
    }
}

/// What one raw entry does to the configuration.
pub enum Effect {
    /// The key is not recognized (or is scoped to an unknown language): the
    /// entry is ignored.
    NoEffect,
    /// The key is recognized but its value fails validation: one diagnostic
    /// is reported and nothing changes.
    Invalid,
    SetPrintWidth(int),
    SetUseTabs(bool),
    SetIndentWidth(int),
    SetQuotes(Quotes),
    SetScriptFormatter(ScriptFormatter),
    SetWhitespaceSensitivity(WhitespaceSensitivity),
    SetComponentWhitespaceSensitivity(WhitespaceSensitivity),
    SetScriptIndent(bool),
    SetLangScriptIndent(LangScope, bool),
    SetStyleIndent(bool),
    SetLangStyleIndent(LangScope, bool),
    SetBaseBlockPolicy(CustomBlockPolicy),
    SetLangBlockPolicy(LangScope, CustomBlockPolicy),
    SetBlockRule(LangScope, Seq<char>, CustomBlockPolicy),
}

/// The effect of a bare (document-wide) setting key.
pub open spec fn bare_effect(name: Seq<char>, v: ValueView) -> Effect {
    if normal_form(name) == "printwidth"@ {
        match v {
            ValueView::Int(i) => if 1 <= i <= u32::MAX as int {
                Effect::SetPrintWidth(i)
            } else {
                Effect::Invalid
            },
            _ => Effect::Invalid,
        }
    } else if normal_form(name) == "usetabs"@ {
        match v {
            ValueView::Bool(b) => Effect::SetUseTabs(b),
            _ => Effect::Invalid,
        }
    } else if normal_form(name) == "indentwidth"@ {
        match v {
            ValueView::Int(i) => if 1 <= i <= u8::MAX as int {
                Effect::SetIndentWidth(i)
            } else {
                Effect::Invalid
            },
            _ => Effect::Invalid,
        }
    } else if normal_form(name) == "quotes"@ {
        match v {
            ValueView::Str(s) => match quotes_of(s) {
                Some(q) => Effect::SetQuotes(q),
                None => Effect::Invalid,
            },
            _ => Effect::Invalid,
        }
    } else if normal_form(name) == "scriptformatter"@ {
        match v {
            ValueView::Str(s) => match script_formatter_of(s) {
                Some(f) => Effect::SetScriptFormatter(f),
                None => Effect::Invalid,
            },
            _ => Effect::Invalid,
        }
    } else if normal_form(name) == "whitespacesensitivity"@ {
        match v {
            ValueView::Str(s) => match whitespace_sensitivity_of(s) {
                Some(w) => Effect::SetWhitespaceSensitivity(w),
                None => Effect::Invalid,
            },
            _ => Effect::Invalid,
        }
    } else if normal_form(name) == "scriptindent"@ {
        match v {
            ValueView::Bool(b) => Effect::SetScriptIndent(b),
            _ => Effect::Invalid,
        }
    } else if normal_form(name) == "styleindent"@ {
        match v {
            ValueView::Bool(b) => Effect::SetStyleIndent(b),
            _ => Effect::Invalid,
        }
    } else if normal_form(name) == "customblock"@ {
        match v {
            ValueView::Str(s) => match custom_block_policy_of(s) {
                Some(p) => Effect::SetBaseBlockPolicy(p),
                None => Effect::Invalid,
            },
            _ => Effect::Invalid,
        }
    } else {
        Effect::NoEffect
    }
}

/// The effect of a `<scope>.<setting>` key.  A recognized setting under an
/// unknown scope is an opaque, forward-compatible namespace: no effect.
pub open spec fn scoped_effect(scope: Seq<char>, name: Seq<char>, v: ValueView) -> Effect {
    match lang_scope_of(scope) {
        Some(lang) => {
            if normal_form(name) == "scriptindent"@ {
                match v {
                    ValueView::Bool(b) => Effect::SetLangScriptIndent(lang, b),
                    _ => Effect::Invalid,
                }
            } else if normal_form(name) == "styleindent"@ {
                match v {
                    ValueView::Bool(b) => Effect::SetLangStyleIndent(lang, b),
                    _ => Effect::Invalid,
                }
            } else if normal_form(name) == "customblock"@ {
                match v {
                    ValueView::Str(s) => match custom_block_policy_of(s) {
                        Some(p) => Effect::SetLangBlockPolicy(lang, p),
                        None => Effect::Invalid,
                    },
                    _ => Effect::Invalid,
                }
            } else {
                Effect::NoEffect
            }
        },
        None => {
            if normal_form(scope) == "component"@ && normal_form(name)
                == "whitespacesensitivity"@ {
                match v {
                    ValueView::Str(s) => match whitespace_sensitivity_of(s) {
                        Some(w) => Effect::SetComponentWhitespaceSensitivity(w),
                        None => Effect::Invalid,
                    },
                    _ => Effect::Invalid,
                }
            } else {
                Effect::NoEffect
            }
        },
    }
}

/// The effect of a `<scope>.customBlock.<blockName>` key.
pub open spec fn block_effect(scope: Seq<char>, mid: Seq<char>, block: Seq<char>, v: ValueView) -> Effect {
    match lang_scope_of(scope) {
        Some(lang) => {
            if normal_form(mid) == "customblock"@ {
                match v {
                    ValueView::Str(s) => match custom_block_policy_of(s) {
                        Some(p) => Effect::SetBlockRule(lang, block, p),
                        None => Effect::Invalid,
                    },
                    _ => Effect::Invalid,
                }
            } else {
                Effect::NoEffect
            }
        },
        None => Effect::NoEffect,
    }
}

/// The effect of one raw entry, by the shape of its key.
pub open spec fn effect_of(e: EntryView) -> Effect {
    match key_shape(e.key) {
        KeyShape::Bare(name) => bare_effect(name, e.value),
        KeyShape::Scoped(scope, name) => scoped_effect(scope, name, e.value),
        KeyShape::Block(scope, mid, block) => block_effect(scope, mid, block, e.value),
    }
}

/// One effect applied to a configuration.
pub open spec fn apply_effect(c: ResolvedConfigView, eff: Effect) -> ResolvedConfigView {
    match eff {
        Effect::NoEffect => c,
        Effect::Invalid => c,
        Effect::SetPrintWidth(i) => ResolvedConfigView {
            layout: LayoutConfigView { print_width: i, ..c.layout },
            ..c
        },
        Effect::SetUseTabs(b) => ResolvedConfigView {
            layout: LayoutConfigView { use_tabs: b, ..c.layout },
            ..c
        },
        Effect::SetIndentWidth(i) => ResolvedConfigView {
            layout: LayoutConfigView { indent_width: i, ..c.layout },
            ..c
        },
        Effect::SetQuotes(q) => ResolvedConfigView {
            language: LanguageConfigView { quotes: q, ..c.language },
            ..c
        },
        Effect::SetScriptFormatter(f) => ResolvedConfigView {
            language: LanguageConfigView { script_formatter: Some(f), ..c.language },
            ..c
        },
        Effect::SetWhitespaceSensitivity(w) => ResolvedConfigView {
            language: LanguageConfigView { whitespace_sensitivity: w, ..c.language },
            ..c
        },
        Effect::SetComponentWhitespaceSensitivity(w) => ResolvedConfigView {
            language: LanguageConfigView {
                component_whitespace_sensitivity: Some(w),
                ..c.language
            },
            ..c
        },
        Effect::SetScriptIndent(b) => ResolvedConfigView {
            language: LanguageConfigView { script_indent: b, ..c.language },
            ..c
        },
        Effect::SetLangScriptIndent(lang, b) => ResolvedConfigView {
            language: match lang {
                LangScope::Vue => LanguageConfigView { vue_script_indent: Some(b), ..c.language },
                LangScope::Svelte => LanguageConfigView {
                    svelte_script_indent: Some(b),
                    ..c.language
                },
                LangScope::Astro => LanguageConfigView {
                    astro_script_indent: Some(b),
                    ..c.language
                },
                LangScope::Html => LanguageConfigView { html_script_indent: Some(b), ..c.language },
            },
            ..c
        },
        Effect::SetStyleIndent(b) => ResolvedConfigView {
            language: LanguageConfigView { style_indent: b, ..c.language },
            ..c
        },
        Effect::SetLangStyleIndent(lang, b) => ResolvedConfigView {
            language: match lang {
                LangScope::Vue => LanguageConfigView { vue_style_indent: Some(b), ..c.language },
                LangScope::Svelte => LanguageConfigView {
                    svelte_style_indent: Some(b),
                    ..c.language
                },
                LangScope::Astro => LanguageConfigView { astro_style_indent: Some(b), ..c.language },
                LangScope::Html => LanguageConfigView { html_style_indent: Some(b), ..c.language },
            },
            ..c
        },
        Effect::SetBaseBlockPolicy(p) => ResolvedConfigView {
            language: LanguageConfigView {
                custom_blocks: CustomBlockStoreView { base_default: Some(p), ..c.language.custom_blocks },
                ..c.language
            },
            ..c
        },
        Effect::SetLangBlockPolicy(lang, p) => ResolvedConfigView {
            language: LanguageConfigView {
                custom_blocks: match lang {
                    LangScope::Vue => CustomBlockStoreView {
                        vue_default: Some(p),
                        ..c.language.custom_blocks
                    },
                    LangScope::Svelte => CustomBlockStoreView {
                        svelte_default: Some(p),
                        ..c.language.custom_blocks
                    },
                    LangScope::Astro => CustomBlockStoreView {
                        astro_default: Some(p),
                        ..c.language.custom_blocks
                    },
                    LangScope::Html => CustomBlockStoreView {
                        html_default: Some(p),
                        ..c.language.custom_blocks
                    },
                },
                ..c.language
            },
            ..c
        },
        Effect::SetBlockRule(lang, block, p) => ResolvedConfigView {
            language: LanguageConfigView {
                custom_blocks: CustomBlockStoreView {
                    rules: c.language.custom_blocks.rules.push(
                        BlockRuleView { lang, block, policy: p },
                    ),
                    ..c.language.custom_blocks
                },
                ..c.language
            },
            ..c
        },
    }
}

/// The diagnostics one entry contributes: exactly one for a recognized key
/// whose value fails validation, none otherwise.
pub open spec fn diag_delta(e: EntryView) -> Seq<DiagnosticView> {
    if effect_of(e) == Effect::Invalid {
        seq![invalid_value_diagnostic(e.key)]
    } else {
        Seq::<DiagnosticView>::empty()
    }
}

/// The diagnostics of a whole raw configuration, in the order the entries
/// stand in it.
pub open spec fn diags_of(entries: Seq<EntryView>) -> Seq<DiagnosticView>
    decreases entries.len(),
{
    if entries.len() == 0 {
        Seq::<DiagnosticView>::empty()
    } else {
        diags_of(entries.drop_last()) + diag_delta(entries.last())
    }
}

/// The configuration that resolving `entries` against `g` yields: the
/// seeded defaults with every entry's effect applied in order.
pub open spec fn resolved_config_spec(entries: Seq<EntryView>, g: GlobalDefaults) -> ResolvedConfigView
    decreases entries.len(),
{
    if entries.len() == 0 {
        default_config(g)
    } else {
        apply_effect(resolved_config_spec(entries.drop_last(), g), effect_of(entries.last()))
    }
}

impl ResolvedConfig {
    /// The configuration that resolution starts from, seeded from the
    /// global defaults.
    pub fn defaults_from(global: &GlobalDefaults) -> (r: ResolvedConfig)
        ensures
            r@ == default_config(*global),
    {
        let print_width: usize = match global.line_width {
            Some(w) => w as usize,
            None => 80,
        };
        let use_tabs: bool = match global.use_tabs {
            Some(b) => b,
            None => false,
        };
        let indent_width: usize = match global.indent_width {
            Some(w) => w as usize,
            None => 2,
        };
        let r = ResolvedConfig {
            layout: LayoutConfig { print_width, use_tabs, indent_width },
            language: LanguageConfig {
                quotes: Quotes::Double,
                script_formatter: None,
                script_indent: false,
                vue_script_indent: None,
                svelte_script_indent: None,
                astro_script_indent: None,
                html_script_indent: None,
                style_indent: false,
                vue_style_indent: None,
                svelte_style_indent: None,
                astro_style_indent: None,
                html_style_indent: None,
                whitespace_sensitivity: WhitespaceSensitivity::Css,
                component_whitespace_sensitivity: None,
                custom_blocks: CustomBlockStore::new(),
            },
        };
        proof {
            assert(r@ =~= default_config(*global));
        }
        r
    }
}

/// Appends the diagnostic for a key whose value failed validation.
fn push_invalid(diagnostics: &mut Vec<Diagnostic>, key: &String)
    ensures
        final(diagnostics).deep_view() == old(diagnostics).deep_view() + seq![
            invalid_value_diagnostic(key@),
        ],
{
    let d = make_invalid_value_diagnostic(key);
    diagnostics.push(d);
    proof {
        assert(diagnostics.deep_view() =~= old(diagnostics).deep_view() + seq![
            invalid_value_diagnostic(key@),
        ]);
    }
}

/// Applies a bare (document-wide) setting key.
fn apply_bare(
    config: &mut ResolvedConfig,
    diagnostics: &mut Vec<Diagnostic>,
    entry: &ConfigEntry,
    name: &String,
)
    requires
        key_shape(entry.key@) == KeyShape::Bare(name@),
    ensures
        final(config)@ == apply_effect(old(config)@, effect_of(entry@)),
        final(diagnostics).deep_view() == old(diagnostics).deep_view() + diag_delta(entry@),
{
    let ghost unchanged = old(diagnostics).deep_view() + Seq::<DiagnosticView>::empty();
    if matches_label(name.as_str(), "printwidth") {
        match &entry.value {
            ConfigValue::Int(i) => {
                let i = *i;
                if 1 <= i && i <= u32::MAX as i64 {
                    config.layout.print_width = i as usize;
                } else {
                    push_invalid(diagnostics, &entry.key);
                    return;
                }
            },
            _ => {
                push_invalid(diagnostics, &entry.key);
                return;
            },
        }
    } else if matches_label(name.as_str(), "usetabs") {
        match &entry.value {
            ConfigValue::Bool(b) => {
                config.layout.use_tabs = *b;
            },
            _ => {
                push_invalid(diagnostics, &entry.key);
                return;
            },
        }
    } else if matches_label(name.as_str(), "indentwidth") {
        match &entry.value {
            ConfigValue::Int(i) => {
                let i = *i;
                if 1 <= i && i <= u8::MAX as i64 {
                    config.layout.indent_width = i as usize;
                } else {
                    push_invalid(diagnostics, &entry.key);
                    return;
                }
            },
            _ => {
                push_invalid(diagnostics, &entry.key);
                return;
            },
        }
    } else if matches_label(name.as_str(), "quotes") {
        match &entry.value {
            ConfigValue::Str(s) => match parse_quotes(s.as_str()) {
                Some(q) => {
                    config.language.quotes = q;
                },
                None => {
                    push_invalid(diagnostics, &entry.key);
                    return;
                },
            },
            _ => {
                push_invalid(diagnostics, &entry.key);
                return;
            },
        }
    } else if matches_label(name.as_str(), "scriptformatter") {
        match &entry.value {
            ConfigValue::Str(s) => match parse_script_formatter(s.as_str()) {
                Some(f) => {
                    config.language.script_formatter = Some(f);
                },
                None => {
                    push_invalid(diagnostics, &entry.key);
                    return;
                },
            },
            _ => {
                push_invalid(diagnostics, &entry.key);
                return;
            },
        }
    } else if matches_label(name.as_str(), "whitespacesensitivity") {
        match &entry.value {
            ConfigValue::Str(s) => match parse_whitespace_sensitivity(s.as_str()) {
                Some(w) => {
                    config.language.whitespace_sensitivity = w;
                },
                None => {
                    push_invalid(diagnostics, &entry.key);
                    return;
                },
            },
            _ => {
                push_invalid(diagnostics, &entry.key);
                return;
            },
        }
    } else if matches_label(name.as_str(), "scriptindent") {
        match &entry.value {
            ConfigValue::Bool(b) => {
                config.language.script_indent = *b;
            },
            _ => {
                push_invalid(diagnostics, &entry.key);
                return;
            },
        }
    } else if matches_label(name.as_str(), "styleindent") {
        match &entry.value {
            ConfigValue::Bool(b) => {
                config.language.style_indent = *b;
            },
            _ => {
                push_invalid(diagnostics, &entry.key);
                return;
            },
        }
    } else if matches_label(name.as_str(), "customblock") {
        match &entry.value {
            ConfigValue::Str(s) => match parse_custom_block_policy(s.as_str()) {
                Some(p) => {
                    config.language.custom_blocks.base_default = Some(p);
                },
                None => {
                    push_invalid(diagnostics, &entry.key);
                    return;
                },
            },
            _ => {
                push_invalid(diagnostics, &entry.key);
                return;
            },
        }
    }
    proof {
        assert(config@ =~= apply_effect(old(config)@, effect_of(entry@)));
        assert(diagnostics.deep_view() =~= old(diagnostics).deep_view() + diag_delta(entry@));
    }
}

/// Applies a `<scope>.<setting>` key.
fn apply_scoped(
    config: &mut ResolvedConfig,
    diagnostics: &mut Vec<Diagnostic>,
    entry: &ConfigEntry,
    scope: &String,
    name: &String,
)
    requires
        key_shape(entry.key@) == KeyShape::Scoped(scope@, name@),
    ensures
        final(config)@ == apply_effect(old(config)@, effect_of(entry@)),
        final(diagnostics).deep_view() == old(diagnostics).deep_view() + diag_delta(entry@),
{
    match parse_lang_scope(scope.as_str()) {
        Some(lang) => {
            if matches_label(name.as_str(), "scriptindent") {
                match &entry.value {
                    ConfigValue::Bool(b) => {
                        let b = *b;
                        match lang {
                            LangScope::Vue => config.language.vue_script_indent = Some(b),
                            LangScope::Svelte => config.language.svelte_script_indent = Some(b),
                            LangScope::Astro => config.language.astro_script_indent = Some(b),
                            LangScope::Html => config.language.html_script_indent = Some(b),
                        }
                    },
                    _ => {
                        push_invalid(diagnostics, &entry.key);
                        return;
                    },
                }
            } else if matches_label(name.as_str(), "styleindent") {
                match &entry.value {
                    ConfigValue::Bool(b) => {
                        let b = *b;
                        match lang {
                            LangScope::Vue => config.language.vue_style_indent = Some(b),
                            LangScope::Svelte => config.language.svelte_style_indent = Some(b),
                            LangScope::Astro => config.language.astro_style_indent = Some(b),
                            LangScope::Html => config.language.html_style_indent = Some(b),
                        }
                    },
                    _ => {
                        push_invalid(diagnostics, &entry.key);
                        return;
                    },
                }
            } else if matches_label(name.as_str(), "customblock") {
                match &entry.value {
                    ConfigValue::Str(s) => match parse_custom_block_policy(s.as_str()) {
                        Some(p) => {
                            match lang {
                                LangScope::Vue => config.language.custom_blocks.vue_default = Some(
                                    p,
                                ),
                                LangScope::Svelte => config.language.custom_blocks.svelte_default =
                                    Some(p),
                                LangScope::Astro => config.language.custom_blocks.astro_default =
                                    Some(p),
                                LangScope::Html => config.language.custom_blocks.html_default =
                                    Some(p),
                            }
                        },
                        None => {
                            push_invalid(diagnostics, &entry.key);
                            return;
                        },
                    },
                    _ => {
                        push_invalid(diagnostics, &entry.key);
                        return;
                    },
                }
            }
        },
        None => {
            if matches_label(scope.as_str(), "component") && matches_label(
                name.as_str(),
                "whitespacesensitivity",
            ) {
                match &entry.value {
                    ConfigValue::Str(s) => match parse_whitespace_sensitivity(s.as_str()) {
                        Some(w) => {
                            config.language.component_whitespace_sensitivity = Some(w);
                        },
                        None => {
                            push_invalid(diagnostics, &entry.key);
                            return;
                        },
                    },
                    _ => {
                        push_invalid(diagnostics, &entry.key);
                        return;
                    },
                }
            }
        },
    }
    proof {
        assert(config@ =~= apply_effect(old(config)@, effect_of(entry@)));
        assert(diagnostics.deep_view() =~= old(diagnostics).deep_view() + diag_delta(entry@));
    }
}

/// Applies a `<scope>.customBlock.<blockName>` key.
fn apply_block(
    config: &mut ResolvedConfig,
    diagnostics: &mut Vec<Diagnostic>,
    entry: &ConfigEntry,
    scope: &String,
    mid: &String,
    block: String,
)
    requires
        key_shape(entry.key@) == KeyShape::Block(scope@, mid@, block@),
    ensures
        final(config)@ == apply_effect(old(config)@, effect_of(entry@)),
        final(diagnostics).deep_view() == old(diagnostics).deep_view() + diag_delta(entry@),
{
    match parse_lang_scope(scope.as_str()) {
        Some(lang) => {
            if matches_label(mid.as_str(), "customblock") {
                match &entry.value {
                    ConfigValue::Str(s) => match parse_custom_block_policy(s.as_str()) {
                        Some(p) => {
                            let ghost block_view = block@;
                            config.language.custom_blocks.rules.push(
                                BlockRule { lang, block, policy: p },
                            );
                            proof {
                                assert(config.language.custom_blocks.rules.deep_view() =~= old(
                                    config,
                                ).language.custom_blocks.rules.deep_view().push(
                                    BlockRuleView { lang, block: block_view, policy: p },
                                ));
                            }
                        },
                        None => {
                            push_invalid(diagnostics, &entry.key);
                            return;
                        },
                    },
                    _ => {
                        push_invalid(diagnostics, &entry.key);
                        return;
                    },
                }
            }
        },
        None => {},
    }
    proof {
        assert(config@ =~= apply_effect(old(config)@, effect_of(entry@)));
        assert(diagnostics.deep_view() =~= old(diagnostics).deep_view() + diag_delta(entry@));
    }
}

/// Applies one raw entry: the entry's effect on the configuration, plus its
/// diagnostic if its value is invalid.
fn apply_entry(config: &mut ResolvedConfig, diagnostics: &mut Vec<Diagnostic>, entry: &ConfigEntry)
    ensures
        final(config)@ == apply_effect(old(config)@, effect_of(entry@)),
        final(diagnostics).deep_view() == old(diagnostics).deep_view() + diag_delta(entry@),
{
    let parsed = parse_key(entry.key.as_str());
    match parsed {
        ParsedKey::Bare(name) => apply_bare(config, diagnostics, entry, &name),
        ParsedKey::Scoped(scope, name) => apply_scoped(config, diagnostics, entry, &scope, &name),
        ParsedKey::Block(scope, mid, block) => apply_block(
            config,
            diagnostics,
            entry,
            &scope,
            &mid,
            block,
        ),
    }
}

/// A resolved configuration together with the diagnostics that resolution
/// produced.
pub struct ResolveConfigurationResult {
    pub config: ResolvedConfig,
    pub diagnostics: Vec<Diagnostic>,
}

/// Resolves raw configuration against the global defaults.  Resolution is
/// total: it yields a fully populated configuration for every input, plus
/// exactly one diagnostic per recognized key whose value fails validation.
pub fn resolve(raw: &RawConfig, global: &GlobalDefaults) -> (r: ResolveConfigurationResult)
    ensures
        r.config@ == resolved_config_spec(raw@, *global),
        r.diagnostics.deep_view() == diags_of(raw@),
{
    let mut config = ResolvedConfig::defaults_from(global);
    let mut diagnostics: Vec<Diagnostic> = Vec::new();
    let n = raw.entries.len();
    proof {
        assert(raw@.subrange(0, 0) =~= Seq::<EntryView>::empty());
        assert(diagnostics.deep_view() =~= Seq::<DiagnosticView>::empty());
    }
    let mut idx: usize = 0;
    while idx < n
        invariant
            idx <= n,
            n == raw.entries.len(),
            raw@.len() == n,
            config@ == resolved_config_spec(raw@.subrange(0, idx as int), *global),
            diagnostics.deep_view() == diags_of(raw@.subrange(0, idx as int)),
        decreases n - idx,
    {
        let entry = &raw.entries[idx];
        proof {
            let pre = raw@.subrange(0, idx + 1);
            assert(pre.drop_last() =~= raw@.subrange(0, idx as int));
            assert(pre.last() == entry@);
        }
        apply_entry(&mut config, &mut diagnostics, entry);
        idx += 1;
    }
    proof {
        assert(raw@.subrange(0, n as int) =~= raw@);
    }
    ResolveConfigurationResult { config, diagnostics }
}

} // verus!
