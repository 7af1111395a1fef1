use markup_plugin::MarkupFmtPluginHandler;
use markup_plugin::delegation::DocumentOutcome;
use markup_plugin::delegation::FormatHints;
use markup_plugin::delegation::FragmentFailure;
use markup_plugin::delegation::HostResponse;
use markup_plugin::delegation::build_additional_config;
use markup_plugin::delegation::finish_document;
use markup_plugin::delegation::interpret_host_response;
use markup_plugin::delegation::synthetic_file_name;
use markup_plugin::language::Language;
use markup_plugin::language::detect_document_language;
use markup_plugin::resolver::GlobalDefaults;
use markup_plugin::resolver::RawConfig;
use markup_plugin::values::ConfigValue;

fn resolved_with(entries: Vec<(&str, ConfigValue)>) -> markup_plugin::resolver::ResolvedConfig {
    let handler = MarkupFmtPluginHandler;
    let mut config = RawConfig::new();
    for (key, value) in entries {
        config.insert(key.to_string(), value);
    }
    let result = handler.resolve_config(config, &GlobalDefaults::default());
    assert_eq!(result.diagnostics.len(), 0);
    result.config
}

fn hints(ext: &str, attr: bool) -> FormatHints {
    FormatHints {
        target_extension: ext.to_string(),
        print_width: 72,
        indent_level: 3,
        is_attribute_value_context: attr,
    }
}

fn value_of(config: &markup_plugin::delegation::DelegatedConfig, key: &str) -> Option<ConfigValue> {
    for entry in &config.entries {
        if entry.key == key {
            return Some(match &entry.value {
                ConfigValue::Str(s) => ConfigValue::Str(s.clone()),
                ConfigValue::Bool(b) => ConfigValue::Bool(*b),
                ConfigValue::Int(i) => ConfigValue::Int(*i),
            });
        }
    }
    None
}

fn expect_str(v: Option<ConfigValue>) -> String {
    match v {
        Some(ConfigValue::Str(s)) => s,
        other => panic!("expected a string value, got {:?}", other.is_some()),
    }
}

#[test]
fn delegated_config_always_carries_width_and_indent() {
    let config = resolved_with(vec![]);
    let derived = build_additional_config(&hints("ts", false), &config);
    assert_eq!(derived.entries.len(), 3);
    assert!(matches!(value_of(&derived, "lineWidth"), Some(ConfigValue::Int(72))));
    assert!(matches!(value_of(&derived, "printWidth"), Some(ConfigValue::Int(72))));
    assert!(matches!(value_of(&derived, "fileIndentLevel"), Some(ConfigValue::Int(3))));
    assert!(value_of(&derived, "quoteStyle").is_none());
    assert!(value_of(&derived, "singleLineTopLevelDeclarations").is_none());
}

#[test]
fn attribute_context_forces_opposite_quotes() {
    let config = resolved_with(vec![]);
    let derived = build_additional_config(&hints("ts", true), &config);
    assert_eq!(expect_str(value_of(&derived, "quoteStyle")), "alwaysSingle");

    let config = resolved_with(vec![("quotes", ConfigValue::Str("single".to_string()))]);
    let derived = build_additional_config(&hints("ts", true), &config);
    assert_eq!(expect_str(value_of(&derived, "quoteStyle")), "alwaysDouble");
}

#[test]
fn biome_family_takes_the_preference_form() {
    let config = resolved_with(vec![("scriptFormatter", ConfigValue::Str("biome".to_string()))]);
    let derived = build_additional_config(&hints("ts", true), &config);
    assert_eq!(expect_str(value_of(&derived, "quoteStyle")), "single");

    let config = resolved_with(vec![
        ("scriptFormatter", ConfigValue::Str("biome".to_string())),
        ("quotes", ConfigValue::Str("single".to_string())),
    ]);
    let derived = build_additional_config(&hints("ts", true), &config);
    assert_eq!(expect_str(value_of(&derived, "quoteStyle")), "double");
}

#[test]
fn style_attribute_fragments_stay_single_line() {
    let config = resolved_with(vec![]);
    let derived = build_additional_config(&hints("css", true), &config);
    assert!(matches!(
        value_of(&derived, "singleLineTopLevelDeclarations"),
        Some(ConfigValue::Bool(true))
    ));

    let derived = build_additional_config(&hints("css", false), &config);
    assert!(value_of(&derived, "singleLineTopLevelDeclarations").is_none());
}

#[test]
fn synthetic_identifier_appends_marker_and_extension() {
    assert_eq!(synthetic_file_name("index.vue", "ts"), "index.vue#.ts");
    assert_eq!(synthetic_file_name("a.html", "css"), "a.html#.css");
}

#[test]
fn replacement_bytes_are_decoded() {
    let r = interpret_host_response("orig", HostResponse::Replacement(b"formatted;".to_vec()));
    assert_eq!(r.unwrap(), "formatted;");
}

#[test]
fn invalid_replacement_bytes_fail_the_fragment() {
    let r = interpret_host_response("orig", HostResponse::Replacement(vec![0xff, 0xfe, 0x20]));
    assert!(matches!(r, Err(FragmentFailure::InvalidUtf8)));
}

#[test]
fn no_override_keeps_the_original_text() {
    let r = interpret_host_response("orig", HostResponse::Unchanged);
    assert_eq!(r.unwrap(), "orig");
}

#[test]
fn formatter_errors_carry_their_message() {
    let r = interpret_host_response("orig", HostResponse::Failure("boom".to_string()));
    match r {
        Err(f @ FragmentFailure::Formatter(_)) => assert_eq!(f.message(), "boom"),
        _ => panic!("expected a formatter failure"),
    }
}

#[test]
fn document_failures_are_merged_into_one_report() {
    let r = finish_document(DocumentOutcome::ExternalFailures(vec![
        "first failure".to_string(),
        "second failure".to_string(),
    ]));
    assert_eq!(
        r.unwrap_err(),
        "failed to format code with external formatter:\nfirst failure\nsecond failure\n"
    );
}

#[test]
fn one_failed_fragment_fails_the_whole_document() {
    // one fragment failed to decode while another succeeded: the document
    // reports the failure and no partial output survives
    let r = finish_document(DocumentOutcome::ExternalFailures(vec![
        "external formatter returned invalid UTF-8".to_string(),
    ]));
    let message = r.unwrap_err();
    assert!(message.contains("external formatter returned invalid UTF-8"));
}

#[test]
fn syntax_failures_surface_directly() {
    let r = finish_document(DocumentOutcome::SyntaxViolation("unexpected tag".to_string()));
    assert_eq!(r.unwrap_err(), "unexpected tag");
    let ok = finish_document(DocumentOutcome::Formatted("<p></p>\n".to_string()));
    assert_eq!(ok.unwrap(), "<p></p>\n");
}

#[test]
fn language_detection_falls_back_to_html() {
    assert_eq!(detect_document_language("component.vue"), Language::Vue);
    assert_eq!(detect_document_language("page.svelte"), Language::Svelte);
    assert_eq!(detect_document_language("readme.weird"), Language::Html);
    assert_eq!(detect_document_language("noextension"), Language::Html);
}
