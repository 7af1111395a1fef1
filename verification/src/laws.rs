//! Properties of resolution and delegation, stated and proved once for all
//! inputs.

use crate::custom_block::BlockRuleView;
use crate::custom_block::rule_policy;
use crate::delegation::FormatHintsView;
use crate::delegation::aggregated_failure_message;
use crate::delegation::base_entries;
use crate::delegation::delegated_config_spec;
use crate::delegation::joined_failures;
use crate::delegation::quote_entries;
use crate::delegation::quote_style_value;
use crate::keys::KeyShape;
use crate::keys::first_dot;
use crate::keys::key_shape;
use crate::options::CustomBlockPolicy;
use crate::options::LangScope;
use crate::options::Quotes;
use crate::options::ScriptFormatter;
use crate::options::custom_block_policy_of;
use crate::options::lang_scope_of;
use crate::resolver::Effect;
use crate::resolver::GlobalDefaults;
use crate::resolver::ResolvedConfigView;
use crate::resolver::default_config;
use crate::resolver::diags_of;
use crate::resolver::effect_of;
use crate::resolver::resolved_config_spec;
use crate::text::normal_form;
use crate::values::DiagnosticView;
use crate::values::EntryView;
use crate::values::ValueView;
use crate::values::invalid_value_diagnostic;
use vstd::prelude::*;

verus! {

/// Law: a raw configuration none of whose entries has an effect resolves
/// to exactly the seeded defaults, with no diagnostics.
pub proof fn lemma_irrelevant_keys_give_defaults(entries: Seq<EntryView>, g: GlobalDefaults)
    requires
        forall|i: int|
            0 <= i < entries.len() ==> effect_of(#[trigger] entries[i]) == Effect::NoEffect,
    ensures
        resolved_config_spec(entries, g) == default_config(g),
        diags_of(entries) == Seq::<DiagnosticView>::empty(),
    decreases entries.len(),
{
    if entries.len() > 0 {
        assert(forall|i: int|
            0 <= i < entries.drop_last().len() ==> effect_of(#[trigger] entries.drop_last()[i])
                == Effect::NoEffect);
        lemma_irrelevant_keys_give_defaults(entries.drop_last(), g);
        assert(effect_of(entries.last()) == Effect::NoEffect);
        assert(diags_of(entries) =~= Seq::<DiagnosticView>::empty());
    }
}

/// Law: the compact and the separator-delimited spelling of a multi-word
/// enumerated value name the same variant.
pub proof fn lemma_spellings_agree()
    ensures
        custom_block_policy_of("langAttribute"@) == Some(CustomBlockPolicy::LangAttribute),
        custom_block_policy_of("lang-attribute"@) == Some(CustomBlockPolicy::LangAttribute),
{
    reveal_strlit("langAttribute");
    reveal_strlit("lang-attribute");
    reveal_strlit("langattribute");
    reveal_with_fuel(normal_form, 15);
    assert(normal_form("langAttribute"@) =~= "langattribute"@);
    assert(normal_form("lang-attribute"@) =~= "langattribute"@);
}

/// Normal forms of the key segments and values the concrete laws touch,
/// and their distinctness from the labels tested before them.
proof fn lemma_label_facts()
    ensures
        normal_form("vue"@) == "vue"@,
        normal_form("html"@) == "html"@,
        normal_form("customBlock"@) == "customblock"@,
        normal_form("scriptIndent"@) == "scriptindent"@,
        lang_scope_of("vue"@) == Some(LangScope::Vue),
        lang_scope_of("html"@) == Some(LangScope::Html),
        "customblock"@ != "scriptindent"@,
        "customblock"@ != "styleindent"@,
        "scriptindent"@ != "printwidth"@,
        "scriptindent"@ != "usetabs"@,
        "scriptindent"@ != "indentwidth"@,
        "scriptindent"@ != "quotes"@,
        "scriptindent"@ != "scriptformatter"@,
        "scriptindent"@ != "whitespacesensitivity"@,
        custom_block_policy_of("langAttribute"@) == Some(CustomBlockPolicy::LangAttribute),
        custom_block_policy_of("none"@) == Some(CustomBlockPolicy::Omit),
        custom_block_policy_of("squash"@) == Some(CustomBlockPolicy::Squash),
        custom_block_policy_of("invalid-value"@) is None,
        custom_block_policy_of("invalid"@) is None,
{
    reveal_strlit("vue");
    reveal_strlit("svelte");
    reveal_strlit("astro");
    reveal_strlit("html");
    reveal_strlit("customBlock");
    reveal_strlit("customblock");
    reveal_strlit("scriptIndent");
    reveal_strlit("scriptindent");
    reveal_strlit("styleindent");
    reveal_strlit("printwidth");
    reveal_strlit("usetabs");
    reveal_strlit("indentwidth");
    reveal_strlit("quotes");
    reveal_strlit("scriptformatter");
    reveal_strlit("whitespacesensitivity");
    reveal_strlit("langAttribute");
    reveal_strlit("langattribute");
    reveal_strlit("squash");
    reveal_strlit("none");
    reveal_strlit("invalid-value");
    reveal_strlit("invalid");
    reveal_with_fuel(normal_form, 15);
    assert(normal_form("vue"@) =~= "vue"@);
    assert(normal_form("html"@) =~= "html"@);
    assert(normal_form("customBlock"@) =~= "customblock"@);
    assert(normal_form("scriptIndent"@) =~= "scriptindent"@);
    assert(normal_form("langAttribute"@) =~= "langattribute"@);
    assert(normal_form("squash"@) =~= "squash"@);
    assert(normal_form("none"@) =~= "none"@);
    assert("customblock"@ != "styleindent"@) by {
        assert("customblock"@[0] == 'c');
        assert("styleindent"@[0] == 's');
    }
    let iv = normal_form("invalid-value"@);
    assert(iv =~= Seq::<char>::empty().push('i').push('n').push('v').push('a').push('l').push(
        'i',
    ).push('d').push('v').push('a').push('l').push('u').push('e'));
    assert(iv.len() == 12);
    let inv = normal_form("invalid"@);
    assert(inv =~= Seq::<char>::empty().push('i').push('n').push('v').push('a').push('l').push(
        'i',
    ).push('d'));
    assert(inv.len() == 7);
    assert(iv != "langattribute"@ && iv != "squash"@ && iv != "none"@);
    assert(inv != "langattribute"@ && inv != "squash"@ && inv != "none"@);
}

/// The shape of the key `vue.customBlock`.
proof fn lemma_key_vue_custom_block()
    ensures
        key_shape("vue.customBlock"@) == KeyShape::Scoped("vue"@, "customBlock"@),
{
    reveal_strlit("vue.customBlock");
    reveal_strlit("vue");
    reveal_strlit("customBlock");
    reveal_with_fuel(first_dot, 17);
    let k = "vue.customBlock"@;
    assert(k[3] == '.');
    assert(first_dot(k) == 3);
    assert(k.subrange(0, 3) =~= "vue"@);
    assert(k.subrange(4, 15) =~= "customBlock"@);
    assert(first_dot("customBlock"@) == -1);
}

/// The shapes of the block-specific keys `vue.customBlock.i18n` and
/// `vue.customBlock.docs`.
proof fn lemma_keys_vue_block_rules()
    ensures
        key_shape("vue.customBlock.i18n"@) == KeyShape::Block("vue"@, "customBlock"@, "i18n"@),
        key_shape("vue.customBlock.docs"@) == KeyShape::Block("vue"@, "customBlock"@, "docs"@),
        "i18n"@ != "docs"@,
{
    reveal_strlit("vue.customBlock.i18n");
    reveal_strlit("vue.customBlock.docs");
    reveal_strlit("vue");
    reveal_strlit("customBlock");
    reveal_strlit("i18n");
    reveal_strlit("docs");
    reveal_with_fuel(first_dot, 18);
    let k1 = "vue.customBlock.i18n"@;
    assert(k1[3] == '.');
    assert(first_dot(k1) == 3);
    assert(k1.subrange(0, 3) =~= "vue"@);
    let r1 = k1.subrange(4, 20);
    assert(r1[11] == '.');
    assert(first_dot(r1) == 11);
    assert(r1.subrange(0, 11) =~= "customBlock"@);
    assert(r1.subrange(12, 16) =~= "i18n"@);
    let k2 = "vue.customBlock.docs"@;
    assert(k2[3] == '.');
    assert(first_dot(k2) == 3);
    assert(k2.subrange(0, 3) =~= "vue"@);
    let r2 = k2.subrange(4, 20);
    assert(r2[11] == '.');
    assert(first_dot(r2) == 11);
    assert(r2.subrange(0, 11) =~= "customBlock"@);
    assert(r2.subrange(12, 16) =~= "docs"@);
    assert("i18n"@[0] == 'i');
    assert("docs"@[0] == 'd');
}

/// Law: a per-language custom block default covers every block name under
/// that language and leaves every other language untouched.
pub proof fn lemma_language_policy_scope(name: Seq<char>, g: GlobalDefaults)
    ensures
        ({
            let entries = seq![
                EntryView { key: "vue.customBlock"@, value: ValueView::Str("squash"@) },
            ];
            let c = resolved_config_spec(entries, g);
            c.language.custom_blocks.lookup(LangScope::Vue, name) == CustomBlockPolicy::Squash
                && c.language.custom_blocks.lookup(LangScope::Svelte, name)
                == default_config(g).language.custom_blocks.lookup(LangScope::Svelte, name)
                && c.language.custom_blocks.lookup(LangScope::Astro, name)
                == default_config(g).language.custom_blocks.lookup(LangScope::Astro, name)
                && c.language.custom_blocks.lookup(LangScope::Html, name)
                == default_config(g).language.custom_blocks.lookup(LangScope::Html, name)
                && diags_of(entries) == Seq::<DiagnosticView>::empty()
        }),
{
    lemma_key_vue_custom_block();
    lemma_label_facts();
    reveal_with_fuel(resolved_config_spec, 3);
    reveal_with_fuel(diags_of, 3);
    let entries = seq![EntryView { key: "vue.customBlock"@, value: ValueView::Str("squash"@) }];
    assert(entries.drop_last() =~= Seq::<EntryView>::empty());
    assert(effect_of(entries[0]) == Effect::SetLangBlockPolicy(
        LangScope::Vue,
        CustomBlockPolicy::Squash,
    ));
    assert(diags_of(entries) =~= Seq::<DiagnosticView>::empty());
    reveal_with_fuel(rule_policy, 2);
}

/// Law: the three custom block tiers resolve by specificity.  With a
/// per-language default and two block-specific policies under `vue`, the
/// named blocks get their own policy and every other name falls back to the
/// per-language default.
pub proof fn lemma_block_policy_precedence(name: Seq<char>, g: GlobalDefaults)
    requires
        name != "i18n"@,
        name != "docs"@,
    ensures
        ({
            let entries = seq![
                EntryView { key: "vue.customBlock"@, value: ValueView::Str("langAttribute"@) },
                EntryView { key: "vue.customBlock.i18n"@, value: ValueView::Str("none"@) },
                EntryView { key: "vue.customBlock.docs"@, value: ValueView::Str("squash"@) },
            ];
            let c = resolved_config_spec(entries, g);
            c.language.custom_blocks.lookup(LangScope::Vue, "i18n"@) == CustomBlockPolicy::Omit
                && c.language.custom_blocks.lookup(LangScope::Vue, "docs"@)
                == CustomBlockPolicy::Squash && c.language.custom_blocks.lookup(
                LangScope::Vue,
                name,
            ) == CustomBlockPolicy::LangAttribute && diags_of(entries) == Seq::<
                DiagnosticView,
            >::empty()
        }),
{
    lemma_key_vue_custom_block();
    lemma_keys_vue_block_rules();
    lemma_label_facts();
    reveal_with_fuel(resolved_config_spec, 5);
    reveal_with_fuel(diags_of, 5);
    let e1 = EntryView { key: "vue.customBlock"@, value: ValueView::Str("langAttribute"@) };
    let e2 = EntryView { key: "vue.customBlock.i18n"@, value: ValueView::Str("none"@) };
    let e3 = EntryView { key: "vue.customBlock.docs"@, value: ValueView::Str("squash"@) };
    let entries = seq![e1, e2, e3];
    assert(entries.drop_last() =~= seq![e1, e2]);
    assert(seq![e1, e2].drop_last() =~= seq![e1]);
    assert(seq![e1].drop_last() =~= Seq::<EntryView>::empty());
    assert(effect_of(e1) == Effect::SetLangBlockPolicy(
        LangScope::Vue,
        CustomBlockPolicy::LangAttribute,
    ));
    assert(effect_of(e2) == Effect::SetBlockRule(LangScope::Vue, "i18n"@, CustomBlockPolicy::Omit));
    assert(effect_of(e3) == Effect::SetBlockRule(
        LangScope::Vue,
        "docs"@,
        CustomBlockPolicy::Squash,
    ));
    let c = resolved_config_spec(entries, g);
    assert(diags_of(entries) =~= Seq::<DiagnosticView>::empty());
    reveal_with_fuel(rule_policy, 4);
    let rules = c.language.custom_blocks.rules;
    assert(rules.len() == 2);
    assert(rules.drop_last() =~= rules.subrange(0, 1));
    assert(rules.drop_last().drop_last() =~= Seq::<BlockRuleView>::empty());
}

/// Law: an invalid per-language custom block value yields exactly one
/// diagnostic naming the key, and every lookup under that language falls
/// back to the document-wide default.
pub proof fn lemma_invalid_language_policy(name: Seq<char>, g: GlobalDefaults)
    ensures
        ({
            let entries = seq![
                EntryView { key: "vue.customBlock"@, value: ValueView::Str("invalid-value"@) },
            ];
            let c = resolved_config_spec(entries, g);
            diags_of(entries) == seq![invalid_value_diagnostic("vue.customBlock"@)]
                && c.language.custom_blocks.lookup(LangScope::Vue, name)
                == CustomBlockPolicy::LangAttribute
        }),
{
    lemma_key_vue_custom_block();
    lemma_label_facts();
    reveal_with_fuel(resolved_config_spec, 3);
    reveal_with_fuel(diags_of, 3);
    let e1 = EntryView { key: "vue.customBlock"@, value: ValueView::Str("invalid-value"@) };
    let entries = seq![e1];
    assert(entries.drop_last() =~= Seq::<EntryView>::empty());
    assert(effect_of(e1) == Effect::Invalid);
    assert(diags_of(entries) =~= seq![invalid_value_diagnostic("vue.customBlock"@)]);
    reveal_with_fuel(rule_policy, 2);
}

/// Law: an invalid block-specific value yields exactly one diagnostic
/// naming the block-specific key, and the block falls back to the
/// per-language default, not to the invalid value.
pub proof fn lemma_invalid_block_rule(g: GlobalDefaults)
    ensures
        ({
            let entries = seq![
                EntryView { key: "vue.customBlock"@, value: ValueView::Str("langAttribute"@) },
                EntryView { key: "vue.customBlock.i18n"@, value: ValueView::Str("invalid"@) },
            ];
            let c = resolved_config_spec(entries, g);
            diags_of(entries) == seq![invalid_value_diagnostic("vue.customBlock.i18n"@)]
                && c.language.custom_blocks.lookup(LangScope::Vue, "i18n"@)
                == CustomBlockPolicy::LangAttribute
        }),
{
    lemma_key_vue_custom_block();
    lemma_keys_vue_block_rules();
    lemma_label_facts();
    reveal_with_fuel(resolved_config_spec, 4);
    reveal_with_fuel(diags_of, 4);
    let e1 = EntryView { key: "vue.customBlock"@, value: ValueView::Str("langAttribute"@) };
    let e2 = EntryView { key: "vue.customBlock.i18n"@, value: ValueView::Str("invalid"@) };
    let entries = seq![e1, e2];
    assert(entries.drop_last() =~= seq![e1]);
    assert(seq![e1].drop_last() =~= Seq::<EntryView>::empty());
    assert(effect_of(e1) == Effect::SetLangBlockPolicy(
        LangScope::Vue,
        CustomBlockPolicy::LangAttribute,
    ));
    assert(effect_of(e2) == Effect::Invalid);
    assert(diags_of(entries) =~= seq![invalid_value_diagnostic("vue.customBlock.i18n"@)]);
    reveal_with_fuel(rule_policy, 2);
}

/// The shapes of the script indentation keys.
proof fn lemma_script_indent_keys()
    ensures
        key_shape("scriptIndent"@) == KeyShape::Bare("scriptIndent"@),
        key_shape("vue.scriptIndent"@) == KeyShape::Scoped("vue"@, "scriptIndent"@),
        key_shape("html.scriptIndent"@) == KeyShape::Scoped("html"@, "scriptIndent"@),
{
    reveal_strlit("scriptIndent");
    reveal_strlit("vue.scriptIndent");
    reveal_strlit("html.scriptIndent");
    reveal_strlit("vue");
    reveal_strlit("html");
    reveal_with_fuel(first_dot, 19);
    assert(first_dot("scriptIndent"@) == -1);
    let k1 = "vue.scriptIndent"@;
    assert(k1[3] == '.');
    assert(first_dot(k1) == 3);
    assert(k1.subrange(0, 3) =~= "vue"@);
    assert(k1.subrange(4, 16) =~= "scriptIndent"@);
    let k2 = "html.scriptIndent"@;
    assert(k2[4] == '.');
    assert(first_dot(k2) == 4);
    assert(k2.subrange(0, 4) =~= "html"@);
    assert(k2.subrange(5, 17) =~= "scriptIndent"@);
}

/// Law: a per-language indentation override binds only its own language;
/// the base value stays for every other language.
pub proof fn lemma_script_indent_overrides(g: GlobalDefaults)
    ensures
        ({
            let entries = seq![
                EntryView { key: "scriptIndent"@, value: ValueView::Bool(false) },
                EntryView { key: "vue.scriptIndent"@, value: ValueView::Bool(true) },
                EntryView { key: "html.scriptIndent"@, value: ValueView::Bool(false) },
            ];
            let c = resolved_config_spec(entries, g);
            c.language.script_indent == false && c.language.vue_script_indent == Some(true)
                && c.language.html_script_indent == Some(false)
                && c.language.svelte_script_indent is None
                && c.language.astro_script_indent is None && diags_of(entries) == Seq::<
                DiagnosticView,
            >::empty()
        }),
{
    lemma_script_indent_keys();
    lemma_label_facts();
    reveal_with_fuel(resolved_config_spec, 5);
    reveal_with_fuel(diags_of, 5);
    let e1 = EntryView { key: "scriptIndent"@, value: ValueView::Bool(false) };
    let e2 = EntryView { key: "vue.scriptIndent"@, value: ValueView::Bool(true) };
    let e3 = EntryView { key: "html.scriptIndent"@, value: ValueView::Bool(false) };
    let entries = seq![e1, e2, e3];
    assert(entries.drop_last() =~= seq![e1, e2]);
    assert(seq![e1, e2].drop_last() =~= seq![e1]);
    assert(seq![e1].drop_last() =~= Seq::<EntryView>::empty());
    assert(effect_of(e1) == Effect::SetScriptIndent(false));
    assert(effect_of(e2) == Effect::SetLangScriptIndent(LangScope::Vue, true));
    assert(effect_of(e3) == Effect::SetLangScriptIndent(LangScope::Html, false));
    assert(diags_of(entries) =~= Seq::<DiagnosticView>::empty());
}

/// Law: in an attribute-value context the derived configuration forces the
/// quote style opposite to the parent's, in the form the formatter family
/// takes; outside an attribute-value context it forces none.
pub proof fn lemma_attribute_quote_override(h: FormatHintsView, c: ResolvedConfigView)
    ensures
        h.is_attribute_value_context ==> delegated_config_spec(h, c)[3] == (EntryView {
            key: "quoteStyle"@,
            value: ValueView::Str(
                quote_style_value(c.language.quotes, c.language.script_formatter),
            ),
        }),
        c.language.quotes == Quotes::Double && c.language.script_formatter != Some(
            ScriptFormatter::Biome,
        ) ==> quote_style_value(c.language.quotes, c.language.script_formatter)
            == "alwaysSingle"@,
        c.language.quotes == Quotes::Single && c.language.script_formatter != Some(
            ScriptFormatter::Biome,
        ) ==> quote_style_value(c.language.quotes, c.language.script_formatter)
            == "alwaysDouble"@,
        c.language.quotes == Quotes::Double && c.language.script_formatter == Some(
            ScriptFormatter::Biome,
        ) ==> quote_style_value(c.language.quotes, c.language.script_formatter) == "single"@,
        c.language.quotes == Quotes::Single && c.language.script_formatter == Some(
            ScriptFormatter::Biome,
        ) ==> quote_style_value(c.language.quotes, c.language.script_formatter) == "double"@,
        !h.is_attribute_value_context ==> forall|i: int|
            0 <= i < delegated_config_spec(h, c).len() ==> (#[trigger] delegated_config_spec(
                h,
                c,
            )[i]).key != "quoteStyle"@,
{
    reveal_strlit("quoteStyle");
    reveal_strlit("lineWidth");
    reveal_strlit("printWidth");
    reveal_strlit("fileIndentLevel");
    if h.is_attribute_value_context {
        assert(delegated_config_spec(h, c)[3] == quote_entries(h, c)[0]);
    } else {
        assert(delegated_config_spec(h, c) =~= base_entries(h));
        assert forall|i: int| 0 <= i < delegated_config_spec(h, c).len() implies (
        #[trigger] delegated_config_spec(h, c)[i]).key != "quoteStyle"@ by {
            assert("printWidth"@[0] == 'p');
            assert("quoteStyle"@[0] == 'q');
        }
    }
}

/// Law: a stylesheet fragment inside an attribute value is forced to
/// single-line top-level declarations; any other fragment is not.
pub proof fn lemma_style_attribute_single_line(h: FormatHintsView, c: ResolvedConfigView)
    ensures
        h.is_attribute_value_context && h.target_extension == "css"@
            ==> delegated_config_spec(h, c)[4] == (EntryView {
            key: "singleLineTopLevelDeclarations"@,
            value: ValueView::Bool(true),
        }),
        !(h.is_attribute_value_context && h.target_extension == "css"@) ==> forall|i: int|
            0 <= i < delegated_config_spec(h, c).len() ==> (#[trigger] delegated_config_spec(
                h,
                c,
            )[i]).key != "singleLineTopLevelDeclarations"@,
{
    reveal_strlit("quoteStyle");
    reveal_strlit("lineWidth");
    reveal_strlit("printWidth");
    reveal_strlit("fileIndentLevel");
    reveal_strlit("singleLineTopLevelDeclarations");
    if h.is_attribute_value_context && h.target_extension == "css"@ {
        assert(base_entries(h).len() + quote_entries(h, c).len() == 4);
        assert(delegated_config_spec(h, c)[4] == (EntryView {
            key: "singleLineTopLevelDeclarations"@,
            value: ValueView::Bool(true),
        }));
    } else {
        assert forall|i: int| 0 <= i < delegated_config_spec(h, c).len() implies (
        #[trigger] delegated_config_spec(h, c)[i]).key != "singleLineTopLevelDeclarations"@ by {
            assert("lineWidth"@.len() == 9);
            assert("printWidth"@.len() == 10);
            assert("fileIndentLevel"@.len() == 15);
            assert("quoteStyle"@.len() == 10);
            assert("singleLineTopLevelDeclarations"@.len() == 30);
        }
    }
}

/// Each collected failure message appears inside the joined report.
proof fn lemma_joined_contains(msgs: Seq<Seq<char>>, k: int)
    requires
        0 <= k < msgs.len(),
    ensures
        exists|i: int|
            0 <= i && i + msgs[k].len() <= joined_failures(msgs).len()
                && #[trigger] joined_failures(msgs).subrange(i, i + msgs[k].len() as int)
                == msgs[k],
    decreases msgs.len(),
{
    let whole = joined_failures(msgs);
    if k == msgs.len() - 1 {
        let i = joined_failures(msgs.drop_last()).len() as int;
        assert(whole.subrange(i, i + msgs[k].len() as int) =~= msgs[k]);
        assert(0 <= i && i + msgs[k].len() <= whole.len() && whole.subrange(
            i,
            i + msgs[k].len() as int,
        ) == msgs[k]);
    } else {
        lemma_joined_contains(msgs.drop_last(), k);
        let prefix = joined_failures(msgs.drop_last());
        let i = choose|i: int|
            0 <= i && i + msgs.drop_last()[k].len() <= prefix.len() && #[trigger] prefix.subrange(
                i,
                i + msgs.drop_last()[k].len() as int,
            ) == msgs.drop_last()[k];
        assert(msgs.drop_last()[k] == msgs[k]);
        assert(whole.subrange(i, i + msgs[k].len() as int) =~= prefix.subrange(
            i,
            i + msgs[k].len() as int,
        ));
        assert(0 <= i && i + msgs[k].len() <= whole.len() && whole.subrange(
            i,
            i + msgs[k].len() as int,
        ) == msgs[k]);
    }
}

/// Law: when any delegated fragment fails, the one merged report names
/// every collected failure, in order of collection; nothing of a
/// successfully formatted fragment survives into it.
pub proof fn lemma_failure_report_names_each(msgs: Seq<Seq<char>>, k: int)
    requires
        0 <= k < msgs.len(),
    ensures
        exists|i: int|
            0 <= i && i + msgs[k].len() <= aggregated_failure_message(msgs).len()
                && #[trigger] aggregated_failure_message(msgs).subrange(
                i,
                i + msgs[k].len() as int,
            ) == msgs[k],
{
    lemma_joined_contains(msgs, k);
    let joined = joined_failures(msgs);
    let whole = aggregated_failure_message(msgs);
    let header = "failed to format code with external formatter:\n"@;
    let i = choose|i: int|
        0 <= i && i + msgs[k].len() <= joined.len() && #[trigger] joined.subrange(
            i,
            i + msgs[k].len() as int,
        ) == msgs[k];
    assert(whole.subrange(header.len() + i, header.len() + i + msgs[k].len() as int)
        =~= joined.subrange(i, i + msgs[k].len() as int));
    assert(0 <= header.len() + i && header.len() + i + msgs[k].len() <= whole.len()
        && whole.subrange(header.len() + i, header.len() + i + msgs[k].len() as int) == msgs[k]);
}

} // verus!
