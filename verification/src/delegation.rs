//! Delegation of embedded fragments to an external formatter.
//!
//! For each script or style fragment of a markup document, a child
//! configuration is derived from the resolved configuration and the
//! printer's formatting hints; the host formats the fragment under that
//! configuration (or declines, meaning the text is kept); and the failures
//! of all fragments of one document are merged into one reported error.

use crate::options::Quotes;
use crate::options::ScriptFormatter;
use crate::resolver::ResolvedConfig;
use crate::resolver::ResolvedConfigView;
use crate::text::str_eq;
use crate::values::ConfigEntry;
use crate::values::ConfigValue;
use crate::values::EntryView;
use crate::values::ValueView;
use vstd::prelude::*;
use vstd::string::StringExecFns;
use vstd::utf8::decode_utf8;
use vstd::utf8::valid_utf8;

verus! {

/// Layout information for one embedded fragment, handed over by the markup
/// printer so that the fragment's formatter can fit its output into the
/// surrounding context.
pub struct FormatHints {
    /// File extension that names the fragment's language.
    pub target_extension: String,
    /// Line-width budget that remains for the fragment.
    pub print_width: usize,
    /// Ambient indentation depth.
    pub indent_level: usize,
    /// Whether the fragment sits inside an attribute value.
    pub is_attribute_value_context: bool,
}

/// View of [`FormatHints`].
pub struct FormatHintsView {
    pub target_extension: Seq<char>,
    pub print_width: int,
    pub indent_level: int,
    pub is_attribute_value_context: bool,
}

impl View for FormatHints {
    type V = FormatHintsView;

    open spec fn view(&self) -> FormatHintsView {
        FormatHintsView {
            target_extension: self.target_extension@,
            print_width: self.print_width as int,
            indent_level: self.indent_level as int,
            is_attribute_value_context: self.is_attribute_value_context,
        }
    }
}

impl FormatHints {
    /// Hints are well-formed when the printer's numbers are positive and
    /// small enough to be carried as configuration values.
    pub open spec fn wf(self) -> bool {
        1 <= self.print_width <= u32::MAX && self.indent_level <= u32::MAX
    }
}

/// The configuration derived for the external formatter of one fragment.
pub struct DelegatedConfig {
    pub entries: Vec<ConfigEntry>,
}

impl View for DelegatedConfig {
    type V = Seq<EntryView>;

    open spec fn view(&self) -> Seq<EntryView> {
        self.entries.deep_view()
    }
}

/// The quote style forced on a fragment that sits inside an attribute
/// value: the opposite of the parent's quote style, so that the child
/// formatter never picks the attribute's own delimiter.  Most formatter
/// families take the strict `always…` form; the Biome family takes the
/// softer preference form.
pub open spec fn quote_style_value(quotes: Quotes, formatter: Option<ScriptFormatter>) -> Seq<
    char,
> {
    match quotes {
        Quotes::Double => if formatter == Some(ScriptFormatter::Biome) {
            "single"@
        } else {
            "alwaysSingle"@
        },
        Quotes::Single => if formatter == Some(ScriptFormatter::Biome) {
            "double"@
        } else {
            "alwaysDouble"@
        },
    }
}

/// The width and indentation entries every delegated configuration carries.
pub open spec fn base_entries(h: FormatHintsView) -> Seq<EntryView> {
    seq![
        EntryView { key: "lineWidth"@, value: ValueView::Int(h.print_width) },
        EntryView { key: "printWidth"@, value: ValueView::Int(h.print_width) },
        EntryView { key: "fileIndentLevel"@, value: ValueView::Int(h.indent_level) },
    ]
}

/// The quote-style entry, present exactly in attribute-value contexts.
pub open spec fn quote_entries(h: FormatHintsView, c: ResolvedConfigView) -> Seq<EntryView> {
    if h.is_attribute_value_context {
        seq![
            EntryView {
                key: "quoteStyle"@,
                value: ValueView::Str(
                    quote_style_value(c.language.quotes, c.language.script_formatter),
                ),
            },
        ]
    } else {
        Seq::<EntryView>::empty()
    }
}

/// The single-line entry for stylesheet fragments inside attribute values:
/// a style attribute must stay on one line.
pub open spec fn style_entries(h: FormatHintsView) -> Seq<EntryView> {
    if h.is_attribute_value_context && h.target_extension == "css"@ {
        seq![
            EntryView { key: "singleLineTopLevelDeclarations"@, value: ValueView::Bool(true) },
        ]
    } else {
        Seq::<EntryView>::empty()
    }
}

/// Everything the delegated configuration of one fragment holds.
pub open spec fn delegated_config_spec(h: FormatHintsView, c: ResolvedConfigView) -> Seq<
    EntryView,
> {
    base_entries(h) + quote_entries(h, c) + style_entries(h)
}

/// Derives the configuration for the external formatter of one fragment
/// from the resolved configuration and the printer's hints.
pub fn build_additional_config(hints: &FormatHints, config: &ResolvedConfig) -> (r:
    DelegatedConfig)
    requires
        hints.wf(),
    ensures
        r@ == delegated_config_spec(hints@, config@),
{
    let mut entries: Vec<ConfigEntry> = Vec::new();
    entries.push(
        ConfigEntry {
            key: String::from_str("lineWidth"),
            value: ConfigValue::Int(hints.print_width as i64),
        },
    );
    entries.push(
        ConfigEntry {
            key: String::from_str("printWidth"),
            value: ConfigValue::Int(hints.print_width as i64),
        },
    );
    entries.push(
        ConfigEntry {
            key: String::from_str("fileIndentLevel"),
            value: ConfigValue::Int(hints.indent_level as i64),
        },
    );
    if hints.is_attribute_value_context {
        let biome = match config.language.script_formatter {
            Some(ScriptFormatter::Biome) => true,
            _ => false,
        };
        let quote_value = match config.language.quotes {
            Quotes::Double => if biome {
                String::from_str("single")
            } else {
                String::from_str("alwaysSingle")
            },
            Quotes::Single => if biome {
                String::from_str("double")
            } else {
                String::from_str("alwaysDouble")
            },
        };
        entries.push(
            ConfigEntry { key: String::from_str("quoteStyle"), value: ConfigValue::Str(quote_value) },
        );
        if str_eq(hints.target_extension.as_str(), "css") {
            entries.push(
                ConfigEntry {
                    key: String::from_str("singleLineTopLevelDeclarations"),
                    value: ConfigValue::Bool(true),
                },
            );
        }
    }
    let r = DelegatedConfig { entries };
    proof {
        assert(r@ =~= delegated_config_spec(hints@, config@));
    }
    r
}

/// The synthetic identifier under which a fragment is handed to the
/// external formatter: the parent file's name with a marker and the
/// fragment's extension appended, so the formatter can pick its rules by
/// extension.
pub fn synthetic_file_name(file_name: &str, target_extension: &str) -> (r: String)
    ensures
        r@ == file_name@ + "#."@ + target_extension@,
{
    let mut r = file_name.to_owned();
    r.append("#.");
    r.append(target_extension);
    proof {
        assert(r@ =~= file_name@ + "#."@ + target_extension@);
    }
    r
}

/// What the host answers when asked to format one fragment.
pub enum HostResponse {
    /// Replacement text for the fragment, as bytes.
    Replacement(Vec<u8>),
    /// No override: the fragment's own text is kept.
    Unchanged,
    /// The external formatter reported an error.
    Failure(String),
}

/// Why one delegated fragment failed.
#[derive(Debug)]
pub enum FragmentFailure {
    /// The replacement bytes were not valid UTF-8.
    InvalidUtf8,
    /// The external formatter reported an error.
    Formatter(String),
}

impl FragmentFailure {
    /// The message that the failure contributes to the merged report.
    pub open spec fn message_view(self) -> Seq<char> {
        match self {
            FragmentFailure::InvalidUtf8 => "external formatter returned invalid UTF-8"@,
            FragmentFailure::Formatter(m) => m@,
        }
    }

    /// The message that the failure contributes to the merged report.
    pub fn message(&self) -> (r: String)
        ensures
            r@ == self.message_view(),
    {
        match self {
            FragmentFailure::InvalidUtf8 => String::from_str(
                "external formatter returned invalid UTF-8",
            ),
            FragmentFailure::Formatter(m) => m.clone(),
        }
    }
}

/// Relies on `String::from_utf8`: it succeeds exactly on input that is
/// valid UTF-8, and then returns the decoded characters.
#[verifier::external_body]
fn utf8_to_string(bytes: Vec<u8>) -> (r: Option<String>)
    ensures
        r is Some <==> valid_utf8(bytes@),
        match r {
            Some(s) => s@ == decode_utf8(bytes@),
            None => true,
        },
{
    String::from_utf8(bytes).ok()
}

/// The final text of one delegated fragment: replacement bytes are decoded,
/// no override keeps the original text, and a formatter error or
/// undecodable bytes fail the fragment.
pub fn interpret_host_response(original: &str, response: HostResponse) -> (r: Result<
    String,
    FragmentFailure,
>)
    ensures
        match response {
            HostResponse::Replacement(bytes) => match r {
                Ok(s) => valid_utf8(bytes@) && s@ == decode_utf8(bytes@),
                Err(f) => !valid_utf8(bytes@) && f is InvalidUtf8,
            },
            HostResponse::Unchanged => match r {
                Ok(s) => s@ == original@,
                Err(_) => false,
            },
            HostResponse::Failure(msg) => match r {
                Ok(_) => false,
                Err(f) => match f {
                    FragmentFailure::Formatter(m) => m@ == msg@,
                    _ => false,
                },
            },
        },
{
    match response {
        HostResponse::Replacement(bytes) => match utf8_to_string(bytes) {
            Some(s) => Ok(s),
            None => Err(FragmentFailure::InvalidUtf8),
        },
        HostResponse::Unchanged => Ok(original.to_owned()),
        HostResponse::Failure(msg) => Err(FragmentFailure::Formatter(msg)),
    }
}

/// The failure messages joined in the order they were collected, each on
/// its own line.
pub open spec fn joined_failures(msgs: Seq<Seq<char>>) -> Seq<char>
    decreases msgs.len(),
{
    if msgs.len() == 0 {
        Seq::<char>::empty()
    } else {
        joined_failures(msgs.drop_last()) + msgs.last() + "\n"@
    }
}

/// The one message that reports every delegated failure of a document.
pub open spec fn aggregated_failure_message(msgs: Seq<Seq<char>>) -> Seq<char> {
    "failed to format code with external formatter:\n"@ + joined_failures(msgs)
}

/// Merges the failure messages of all fragments into one report, in the
/// order the failures were encountered.
pub fn aggregate_failure_message(failures: &Vec<String>) -> (r: String)
    ensures
        r@ == aggregated_failure_message(failures.deep_view()),
{
    let mut r = String::from_str("failed to format code with external formatter:\n");
    let n = failures.len();
    proof {
        assert(failures.deep_view().subrange(0, 0) =~= Seq::<Seq<char>>::empty());
        assert(r@ =~= "failed to format code with external formatter:\n"@ + joined_failures(
            failures.deep_view().subrange(0, 0),
        ));
    }
    let mut i: usize = 0;
    while i < n
        invariant
            i <= n,
            n == failures.len(),
            failures.deep_view().len() == n,
            r@ == "failed to format code with external formatter:\n"@ + joined_failures(
                failures.deep_view().subrange(0, i as int),
            ),
        decreases n - i,
    {
        r.append(failures[i].as_str());
        r.append("\n");
        proof {
            let msgs = failures.deep_view();
            let pre = msgs.subrange(0, i + 1);
            assert(pre.drop_last() =~= msgs.subrange(0, i as int));
            assert(pre.last() == msgs[i as int]);
            assert(r@ =~= "failed to format code with external formatter:\n"@ + joined_failures(
                pre,
            ));
        }
        i += 1;
    }
    proof {
        assert(failures.deep_view().subrange(0, n as int) =~= failures.deep_view());
    }
    r
}

/// How one whole document format pass ended, before it is reported to the
/// caller.
pub enum DocumentOutcome {
    /// The pass succeeded and every delegated fragment succeeded.
    Formatted(String),
    /// The document's structure could not be parsed; nothing was delegated.
    SyntaxViolation(String),
    /// One or more delegated fragments failed; any formatted text is
    /// discarded.
    ExternalFailures(Vec<String>),
}

/// Maps a document outcome to the caller's result: formatted text only when
/// the pass and every delegated fragment succeeded; a syntax failure as it
/// is; delegated failures merged into one report.
pub fn finish_document(outcome: DocumentOutcome) -> (r: Result<String, String>)
    ensures
        match outcome {
            DocumentOutcome::Formatted(s) => match r {
                Ok(t) => t@ == s@,
                Err(_) => false,
            },
            DocumentOutcome::SyntaxViolation(m) => match r {
                Ok(_) => false,
                Err(e) => e@ == m@,
            },
            DocumentOutcome::ExternalFailures(fs) => match r {
                Ok(_) => false,
                Err(e) => e@ == aggregated_failure_message(fs.deep_view()),
            },
        },
{
    match outcome {
        DocumentOutcome::Formatted(s) => Ok(s),
        DocumentOutcome::SyntaxViolation(m) => Err(m),
        DocumentOutcome::ExternalFailures(fs) => Err(aggregate_failure_message(&fs)),
    }
}

} // verus!
