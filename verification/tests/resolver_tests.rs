use markup_plugin::MarkupFmtPluginHandler;
use markup_plugin::options::CustomBlockPolicy;
use markup_plugin::options::LangScope;
use markup_plugin::options::Quotes;
use markup_plugin::options::ScriptFormatter;
use markup_plugin::options::WhitespaceSensitivity;
use markup_plugin::resolver::GlobalDefaults;
use markup_plugin::resolver::RawConfig;
use markup_plugin::values::ConfigValue;

fn str_value(s: &str) -> ConfigValue {
    ConfigValue::Str(s.to_string())
}

#[test]
fn test_resolve_config_vue_custom_block_simple() {
    let handler = MarkupFmtPluginHandler;
    let mut config = RawConfig::new();
    config.insert("vue.customBlock".to_string(), str_value("squash"));

    let global_config = GlobalDefaults::default();
    let result = handler.resolve_config(config, &global_config);

    assert_eq!(result.diagnostics.len(), 0);
    assert!(matches!(
        result.config.language.custom_blocks.get(LangScope::Vue, "any-block"),
        CustomBlockPolicy::Squash
    ));
}

#[test]
fn test_resolve_config_vue_custom_block_per_block() {
    let handler = MarkupFmtPluginHandler;
    let mut config = RawConfig::new();
    config.insert("vue.customBlock".to_string(), str_value("langAttribute"));
    config.insert("vue.customBlock.i18n".to_string(), str_value("none"));
    config.insert("vue.customBlock.docs".to_string(), str_value("squash"));

    let global_config = GlobalDefaults::default();
    let result = handler.resolve_config(config, &global_config);

    assert_eq!(result.diagnostics.len(), 0);
    assert!(matches!(
        result.config.language.custom_blocks.get(LangScope::Vue, "i18n"),
        CustomBlockPolicy::Omit
    ));
    assert!(matches!(
        result.config.language.custom_blocks.get(LangScope::Vue, "docs"),
        CustomBlockPolicy::Squash
    ));
    assert!(matches!(
        result.config.language.custom_blocks.get(LangScope::Vue, "unknown"),
        CustomBlockPolicy::LangAttribute
    ));
}

#[test]
fn test_resolve_config_language_specific_script_indent() {
    let handler = MarkupFmtPluginHandler;
    let mut config = RawConfig::new();
    config.insert("scriptIndent".to_string(), ConfigValue::Bool(false));
    config.insert("vue.scriptIndent".to_string(), ConfigValue::Bool(true));
    config.insert("html.scriptIndent".to_string(), ConfigValue::Bool(false));

    let global_config = GlobalDefaults::default();
    let result = handler.resolve_config(config, &global_config);

    assert_eq!(result.diagnostics.len(), 0);
    assert_eq!(result.config.language.script_indent, false);
    assert_eq!(result.config.language.vue_script_indent, Some(true));
    assert_eq!(result.config.language.html_script_indent, Some(false));
}

#[test]
fn test_resolve_config_language_specific_style_indent() {
    let handler = MarkupFmtPluginHandler;
    let mut config = RawConfig::new();
    config.insert("styleIndent".to_string(), ConfigValue::Bool(false));
    config.insert("svelte.styleIndent".to_string(), ConfigValue::Bool(true));
    config.insert("astro.styleIndent".to_string(), ConfigValue::Bool(false));

    let global_config = GlobalDefaults::default();
    let result = handler.resolve_config(config, &global_config);

    assert_eq!(result.diagnostics.len(), 0);
    assert_eq!(result.config.language.style_indent, false);
    assert_eq!(result.config.language.svelte_style_indent, Some(true));
    assert_eq!(result.config.language.astro_style_indent, Some(false));
}

#[test]
fn test_resolve_config_component_whitespace_sensitivity() {
    let handler = MarkupFmtPluginHandler;
    let mut config = RawConfig::new();
    config.insert("whitespaceSensitivity".to_string(), str_value("css"));
    config.insert("component.whitespaceSensitivity".to_string(), str_value("strict"));

    let global_config = GlobalDefaults::default();
    let result = handler.resolve_config(config, &global_config);

    assert_eq!(result.diagnostics.len(), 0);
    assert!(result.config.language.component_whitespace_sensitivity.is_some());
}

#[test]
fn test_resolve_config_invalid_vue_custom_block_value() {
    let handler = MarkupFmtPluginHandler;
    let mut config = RawConfig::new();
    config.insert("vue.customBlock".to_string(), str_value("invalid-value"));

    let global_config = GlobalDefaults::default();
    let result = handler.resolve_config(config, &global_config);

    assert_eq!(result.diagnostics.len(), 1);
    assert_eq!(result.diagnostics[0].property_name, "vue.customBlock");
    assert!(result.diagnostics[0].message.contains("invalid value for config"));
}

#[test]
fn test_resolve_config_invalid_per_block_value() {
    let handler = MarkupFmtPluginHandler;
    let mut config = RawConfig::new();
    config.insert("vue.customBlock".to_string(), str_value("langAttribute"));
    config.insert("vue.customBlock.i18n".to_string(), str_value("invalid"));

    let global_config = GlobalDefaults::default();
    let result = handler.resolve_config(config, &global_config);

    assert_eq!(result.diagnostics.len(), 1);
    assert_eq!(result.diagnostics[0].property_name, "vue.customBlock.i18n");
}

#[test]
fn test_resolve_config_case_variants() {
    let handler = MarkupFmtPluginHandler;
    let mut config = RawConfig::new();
    config.insert("vue.customBlock".to_string(), str_value("langAttribute"));

    let global_config = GlobalDefaults::default();
    let result = handler.resolve_config(config, &global_config);

    assert_eq!(result.diagnostics.len(), 0);
    assert!(matches!(
        result.config.language.custom_blocks.get(LangScope::Vue, "any"),
        CustomBlockPolicy::LangAttribute
    ));
}

#[test]
fn no_relevant_keys_give_defaults_and_no_diagnostics() {
    let handler = MarkupFmtPluginHandler;
    let mut config = RawConfig::new();
    config.insert("somethingUnknown".to_string(), ConfigValue::Bool(true));
    config.insert("elm.scriptIndent".to_string(), ConfigValue::Bool(true));

    let global_config = GlobalDefaults::default();
    let result = handler.resolve_config(config, &global_config);

    assert_eq!(result.diagnostics.len(), 0);
    assert_eq!(result.config.layout.print_width, 80);
    assert_eq!(result.config.layout.use_tabs, false);
    assert_eq!(result.config.layout.indent_width, 2);
    assert!(matches!(result.config.language.quotes, Quotes::Double));
    assert!(result.config.language.script_formatter.is_none());
    assert_eq!(result.config.language.script_indent, false);
    assert_eq!(result.config.language.vue_script_indent, None);
    assert!(matches!(
        result.config.language.whitespace_sensitivity,
        WhitespaceSensitivity::Css
    ));
    assert!(matches!(
        result.config.language.custom_blocks.get(LangScope::Vue, "anything"),
        CustomBlockPolicy::LangAttribute
    ));
}

#[test]
fn global_defaults_seed_the_layout() {
    let handler = MarkupFmtPluginHandler;
    let config = RawConfig::new();
    let global_config = GlobalDefaults {
        line_width: Some(100),
        use_tabs: Some(true),
        indent_width: Some(4),
    };
    let result = handler.resolve_config(config, &global_config);

    assert_eq!(result.diagnostics.len(), 0);
    assert_eq!(result.config.layout.print_width, 100);
    assert_eq!(result.config.layout.use_tabs, true);
    assert_eq!(result.config.layout.indent_width, 4);
}

#[test]
fn hyphenated_spellings_resolve_like_compact_ones() {
    let handler = MarkupFmtPluginHandler;
    let mut config = RawConfig::new();
    config.insert("script-indent".to_string(), ConfigValue::Bool(true));
    config.insert("vue.customBlock".to_string(), str_value("lang-attribute"));

    let global_config = GlobalDefaults::default();
    let result = handler.resolve_config(config, &global_config);

    assert_eq!(result.diagnostics.len(), 0);
    assert_eq!(result.config.language.script_indent, true);
    assert!(matches!(
        result.config.language.custom_blocks.get(LangScope::Vue, "x"),
        CustomBlockPolicy::LangAttribute
    ));
}

#[test]
fn block_rule_order_does_not_matter() {
    let handler = MarkupFmtPluginHandler;
    let mut config = RawConfig::new();
    config.insert("vue.customBlock.i18n".to_string(), str_value("none"));
    config.insert("vue.customBlock".to_string(), str_value("squash"));

    let global_config = GlobalDefaults::default();
    let result = handler.resolve_config(config, &global_config);

    assert_eq!(result.diagnostics.len(), 0);
    assert!(matches!(
        result.config.language.custom_blocks.get(LangScope::Vue, "i18n"),
        CustomBlockPolicy::Omit
    ));
    assert!(matches!(
        result.config.language.custom_blocks.get(LangScope::Vue, "other"),
        CustomBlockPolicy::Squash
    ));
}

#[test]
fn bare_custom_block_sets_the_document_wide_default() {
    let handler = MarkupFmtPluginHandler;
    let mut config = RawConfig::new();
    config.insert("customBlock".to_string(), str_value("none"));

    let global_config = GlobalDefaults::default();
    let result = handler.resolve_config(config, &global_config);

    assert_eq!(result.diagnostics.len(), 0);
    assert!(matches!(
        result.config.language.custom_blocks.get(LangScope::Svelte, "x"),
        CustomBlockPolicy::Omit
    ));
}

#[test]
fn print_width_accepts_positive_integers_only() {
    let handler = MarkupFmtPluginHandler;
    let mut config = RawConfig::new();
    config.insert("printWidth".to_string(), ConfigValue::Int(120));

    let global_config = GlobalDefaults::default();
    let result = handler.resolve_config(config, &global_config);
    assert_eq!(result.diagnostics.len(), 0);
    assert_eq!(result.config.layout.print_width, 120);

    let handler = MarkupFmtPluginHandler;
    let mut config = RawConfig::new();
    config.insert("printWidth".to_string(), ConfigValue::Int(0));
    let result = handler.resolve_config(config, &global_config);
    assert_eq!(result.diagnostics.len(), 1);
    assert_eq!(result.diagnostics[0].property_name, "printWidth");
    assert_eq!(
        result.diagnostics[0].message,
        "invalid value for config `printWidth`: the value is not allowed for this setting"
    );
    assert_eq!(result.config.layout.print_width, 80);
}

#[test]
fn quotes_and_script_formatter_values_parse() {
    let handler = MarkupFmtPluginHandler;
    let mut config = RawConfig::new();
    config.insert("quotes".to_string(), str_value("single"));
    config.insert("scriptFormatter".to_string(), str_value("biome"));

    let global_config = GlobalDefaults::default();
    let result = handler.resolve_config(config, &global_config);
    assert_eq!(result.diagnostics.len(), 0);
    assert!(matches!(result.config.language.quotes, Quotes::Single));
    assert!(matches!(
        result.config.language.script_formatter,
        Some(ScriptFormatter::Biome)
    ));
}

#[test]
fn wrongly_typed_values_are_diagnosed_and_ignored() {
    let handler = MarkupFmtPluginHandler;
    let mut config = RawConfig::new();
    config.insert("scriptIndent".to_string(), str_value("yes"));
    config.insert("quotes".to_string(), str_value("backtick"));

    let global_config = GlobalDefaults::default();
    let result = handler.resolve_config(config, &global_config);
    assert_eq!(result.diagnostics.len(), 2);
    assert_eq!(result.diagnostics[0].property_name, "scriptIndent");
    assert_eq!(result.diagnostics[1].property_name, "quotes");
    assert_eq!(result.config.language.script_indent, false);
    assert!(matches!(result.config.language.quotes, Quotes::Double));
}
