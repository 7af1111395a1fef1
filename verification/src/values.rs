//! Untyped configuration scalars and non-fatal diagnostics.

use vstd::prelude::*;
use vstd::string::StringExecFns;

verus! {

/// An untyped scalar value of a raw configuration entry, or of an entry in
/// the configuration derived for an external formatter.
pub enum ConfigValue {
    Str(String),
    Bool(bool),
    Int(i64),
}

/// View of a [`ConfigValue`].
pub enum ValueView {
    Str(Seq<char>),
    Bool(bool),
    Int(int),
}

impl View for ConfigValue {
    type V = ValueView;

    open spec fn view(&self) -> ValueView {
        match self {
            ConfigValue::Str(s) => ValueView::Str(s@),
            ConfigValue::Bool(b) => ValueView::Bool(*b),
            ConfigValue::Int(i) => ValueView::Int(*i as int),
        }
    }
}

/// One key together with its untyped value.
pub struct ConfigEntry {
    pub key: String,
    pub value: ConfigValue,
}

/// View of a [`ConfigEntry`].
pub struct EntryView {
    pub key: Seq<char>,
    pub value: ValueView,
}

impl View for ConfigEntry {
    type V = EntryView;

    open spec fn view(&self) -> EntryView {
        EntryView { key: self.key@, value: self.value@ }
    }
}

impl DeepView for ConfigEntry {
    type V = EntryView;

    open spec fn deep_view(&self) -> EntryView {
        self@
    }
}

/// A non-fatal report about one invalid configuration key.  Diagnostics are
/// returned alongside the resolved configuration, never thrown.
pub struct Diagnostic {
    pub property_name: String,
    pub message: String,
}

/// View of a [`Diagnostic`].
pub struct DiagnosticView {
    pub property_name: Seq<char>,
    pub message: Seq<char>,
}

impl View for Diagnostic {
    type V = DiagnosticView;

    open spec fn view(&self) -> DiagnosticView {
        DiagnosticView { property_name: self.property_name@, message: self.message@ }
    }
}

impl DeepView for Diagnostic {
    type V = DiagnosticView;

    open spec fn deep_view(&self) -> DiagnosticView {
        self@
    }
}

/// The message reported for a key whose value fails validation.
pub open spec fn invalid_value_message(key: Seq<char>) -> Seq<char> {
    "invalid value for config `"@ + key + "`: the value is not allowed for this setting"@
}

/// The diagnostic reported for a key whose value fails validation.
pub open spec fn invalid_value_diagnostic(key: Seq<char>) -> DiagnosticView {
    DiagnosticView { property_name: key, message: invalid_value_message(key) }
}

/// Builds the diagnostic for a key whose value failed validation.
pub fn make_invalid_value_diagnostic(key: &String) -> (d: Diagnostic)
    ensures
        d@ == invalid_value_diagnostic(key@),
{
    let mut message = String::from_str("invalid value for config `");
    message.append(key.as_str());
    message.append("`: the value is not allowed for this setting");
    Diagnostic { property_name: key.clone(), message }
}

} // verus!
