//! Reading configuration fields out of YAML text.
//!
//! The YAML itself is parsed by `serde_yaml`; the calls into it stand
//! behind trusted wrappers, and everything decided about the parsed
//! document — which fields are present, whether a present field has a
//! usable type, how the whole falls back when one does not — is verified
//! code in this crate. A document is read through `serde_yaml::Value`,
//! which stays opaque here. What each call returns is a function of its
//! arguments alone, so the contracts give the results names: the document
//! a text parses to, the value a document holds at a key, and the string,
//! integer or numeric content of a value. The extraction below is then
//! specified exactly in terms of those names.

use vstd::prelude::*;

use crate::config::{spec_partial_fields, PartialConfig, PartialConfigModel};

verus! {

#[verifier::external_type_specification]
#[verifier::external_body]
pub struct ExYamlValue(serde_yaml::Value);

/// The document that YAML text parses to, when the text is well-formed
/// YAML at all.
pub uninterp spec fn spec_yaml_document(text: Seq<char>) -> Option<serde_yaml::Value>;

/// The value a document holds at a string key: nothing when the document
/// is no mapping or lacks the key.
pub uninterp spec fn spec_yaml_field(
    document: serde_yaml::Value,
    key: Seq<char>,
) -> Option<serde_yaml::Value>;

/// The string content of a value, when it is a string at all.
pub uninterp spec fn spec_yaml_str_content(value: serde_yaml::Value) -> Option<Seq<char>>;

/// The integer content of a value, when it is an integer that fits in 64
/// signed bits.
pub uninterp spec fn spec_yaml_int_content(value: serde_yaml::Value) -> Option<i64>;

/// The numeric content of a value as decimal text, when the value is
/// numeric at all.
pub uninterp spec fn spec_yaml_number_text(value: serde_yaml::Value) -> Option<Seq<char>>;

/// Relies on serde_yaml::from_str: parses YAML text into a document value,
/// or fails on text that is not well-formed YAML. The result depends on
/// the text alone.
#[verifier::external_body]
fn yaml_from_str(text: &str) -> (document: Option<serde_yaml::Value>)
    ensures
        document == spec_yaml_document(text@),
{
    serde_yaml::from_str::<serde_yaml::Value>(text).ok()
}

/// Relies on serde_yaml::Value::get: looks a key up in a mapping document,
/// yielding nothing when the document is no mapping or lacks the key. The
/// result depends on the document and the key alone.
#[verifier::external_body]
fn yaml_get<'a>(value: &'a serde_yaml::Value, key: &str) -> (field: Option<
    &'a serde_yaml::Value,
>)
    ensures
        field is Some <==> spec_yaml_field(*value, key@) is Some,
        field matches Some(v) ==> Some(*v) == spec_yaml_field(*value, key@),
{
    value.get(key)
}

/// Relies on serde_yaml::Value::as_str: the string content of a string
/// value, and nothing for a value of any other kind.
#[verifier::external_body]
fn yaml_as_str(value: &serde_yaml::Value) -> (content: Option<String>)
    ensures
        content is Some <==> spec_yaml_str_content(*value) is Some,
        content matches Some(text) ==> Some(text@) == spec_yaml_str_content(*value),
{
    match value.as_str() {
        Some(text) => Some(text.to_owned()),
        None => None,
    }
}

/// Relies on serde_yaml::Value::as_i64: the integer content of an integer
/// value that fits in 64 signed bits, and nothing for any other value.
#[verifier::external_body]
fn yaml_as_i64(value: &serde_yaml::Value) -> (content: Option<i64>)
    ensures
        content == spec_yaml_int_content(*value),
{
    value.as_i64()
}

/// Relies on serde_yaml::Value::as_f64: the numeric content of a numeric
/// value, rendered as decimal text, and nothing for a non-numeric value.
#[verifier::external_body]
fn yaml_number_text(value: &serde_yaml::Value) -> (content: Option<String>)
    ensures
        content is Some <==> spec_yaml_number_text(*value) is Some,
        content matches Some(text) ==> Some(text@) == spec_yaml_number_text(*value),
{
    match value.as_f64() {
        Some(number) => Some(format!("{}", number)),
        None => None,
    }
}

/// What one configuration key contributed to the parse: left out, present
/// and usable, or present with an unusable type (which spoils the whole
/// file, as deserializing the record at once would).
pub enum FieldRead<T> {
    Absent,
    Present(T),
    Unusable,
}

/// The characters of a read text field, for stating contracts.
pub open spec fn spec_field_view(field: FieldRead<String>) -> FieldRead<Seq<char>> {
    match field {
        FieldRead::Absent => FieldRead::Absent,
        FieldRead::Present(text) => FieldRead::Present(text@),
        FieldRead::Unusable => FieldRead::Unusable,
    }
}

/// What a string-valued key of a document supplies: absent, its string
/// content, or spoiled by a value of another kind.
pub open spec fn spec_doc_string_field(
    document: serde_yaml::Value,
    key: Seq<char>,
) -> FieldRead<Seq<char>> {
    match spec_yaml_field(document, key) {
        None => FieldRead::Absent,
        Some(value) => match spec_yaml_str_content(value) {
            Some(text) => FieldRead::Present(text),
            None => FieldRead::Unusable,
        },
    }
}

/// What the token-ceiling key of a document supplies: absent, an integer
/// that fits in an `i32`, or spoiled by a non-integer or out-of-range
/// value.
pub open spec fn spec_doc_max_tokens_field(document: serde_yaml::Value) -> FieldRead<i32> {
    match spec_yaml_field(document, "max_tokens"@) {
        None => FieldRead::Absent,
        Some(value) => match spec_yaml_int_content(value) {
            Some(n) => if i32::MIN <= n <= i32::MAX {
                FieldRead::Present(n as i32)
            } else {
                FieldRead::Unusable
            },
            None => FieldRead::Unusable,
        },
    }
}

/// What the temperature key of a document supplies: absent, its numeric
/// content as decimal text, or spoiled by a non-numeric value.
pub open spec fn spec_doc_temperature_field(document: serde_yaml::Value) -> FieldRead<Seq<char>> {
    match spec_yaml_field(document, "temperature"@) {
        None => FieldRead::Absent,
        Some(value) => match spec_yaml_number_text(value) {
            Some(text) => FieldRead::Present(text),
            None => FieldRead::Unusable,
        },
    }
}

/// The configuration fields a YAML text supplies: nothing for text that is
/// not well-formed YAML or that gives a known field an unusable type — the
/// cases a whole-record deserialization would reject — and otherwise
/// exactly the subset of fields the text holds.
pub open spec fn spec_config_fields(text: Seq<char>) -> Option<PartialConfigModel> {
    match spec_yaml_document(text) {
        None => None,
        Some(document) => {
            let api_url = spec_doc_string_field(document, "api_url"@);
            let model = spec_doc_string_field(document, "model"@);
            let max_tokens = spec_doc_max_tokens_field(document);
            let temperature = spec_doc_temperature_field(document);
            if api_url is Unusable || model is Unusable || max_tokens is Unusable
                || temperature is Unusable {
                None
            } else {
                Some(PartialConfigModel {
                    api_url: match api_url {
                        FieldRead::Present(url) => Some(url),
                        _ => None,
                    },
                    model: match model {
                        FieldRead::Present(name) => Some(name),
                        _ => None,
                    },
                    max_tokens: match max_tokens {
                        FieldRead::Present(n) => Some(n),
                        _ => None,
                    },
                    temperature: match temperature {
                        FieldRead::Present(t) => Some(t),
                        _ => None,
                    },
                })
            }
        },
    }
}

/// Reads a string-valued key: absent, present as a string, or spoiled.
fn read_string_field(document: &serde_yaml::Value, key: &str) -> (field: FieldRead<String>)
    ensures
        spec_field_view(field) == spec_doc_string_field(*document, key@),
{
    match yaml_get(document, key) {
        None => FieldRead::Absent,
        Some(value) => match yaml_as_str(value) {
            Some(text) => FieldRead::Present(text),
            None => FieldRead::Unusable,
        },
    }
}

/// Reads the token-ceiling key: absent, a value that fits in an `i32`, or
/// spoiled — a non-integer or out-of-range value spoils the file just as
/// deserializing an `i32` field would.
fn read_max_tokens_field(document: &serde_yaml::Value) -> (field: FieldRead<i32>)
    ensures
        field == spec_doc_max_tokens_field(*document),
{
    match yaml_get(document, "max_tokens") {
        None => FieldRead::Absent,
        Some(value) => match yaml_as_i64(value) {
            Some(n) => if i32::MIN as i64 <= n && n <= i32::MAX as i64 {
                FieldRead::Present(n as i32)
            } else {
                FieldRead::Unusable
            },
            None => FieldRead::Unusable,
        },
    }
}

/// Reads the temperature key: absent, a numeric value as decimal text, or
/// spoiled by a non-numeric value.
fn read_temperature_field(document: &serde_yaml::Value) -> (field: FieldRead<String>)
    ensures
        spec_field_view(field) == spec_doc_temperature_field(*document),
{
    match yaml_get(document, "temperature") {
        None => FieldRead::Absent,
        Some(value) => match yaml_number_text(value) {
            Some(text) => FieldRead::Present(text),
            None => FieldRead::Unusable,
        },
    }
}

/// Extracts the configuration fields a YAML text supplies, exactly as
/// `spec_config_fields` states: `None` for text that is not well-formed
/// YAML or that gives any known field an unusable type, and otherwise the
/// subset of fields the text holds.
pub fn extract_config_fields(text: &str) -> (fields: Option<PartialConfig>)
    ensures
        spec_partial_fields(fields) == spec_config_fields(text@),
{
    let document = match yaml_from_str(text) {
        Some(document) => document,
        None => {
            return None;
        },
    };
    let api_url = match read_string_field(&document, "api_url") {
        FieldRead::Absent => None,
        FieldRead::Present(url) => Some(url),
        FieldRead::Unusable => {
            return None;
        },
    };
    let model = match read_string_field(&document, "model") {
        FieldRead::Absent => None,
        FieldRead::Present(model) => Some(model),
        FieldRead::Unusable => {
            return None;
        },
    };
    let max_tokens = match read_max_tokens_field(&document) {
        FieldRead::Absent => None,
        FieldRead::Present(n) => Some(n),
        FieldRead::Unusable => {
            return None;
        },
    };
    let temperature = match read_temperature_field(&document) {
        FieldRead::Absent => None,
        FieldRead::Present(t) => Some(t),
        FieldRead::Unusable => {
            return None;
        },
    };
    Some(PartialConfig { api_url, model, max_tokens, temperature })
}

} // verus!
