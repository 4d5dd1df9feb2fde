//! Resolved request configuration.
//!
//! A run starts from built-in defaults, overridden field by field from an
//! optional per-user configuration file. A file that is missing or
//! malformed as a whole falls back to the all-defaults record; a file that
//! parses overrides exactly the fields it holds. The library does no
//! arithmetic on the sampling temperature, so it is carried as decimal
//! text rather than as a machine float.

use vstd::prelude::*;

verus! {

/// The resolved configuration record: the chat endpoint, the model name,
/// the token ceiling, and the sampling temperature as decimal text.
#[derive(Debug, Clone, PartialEq)]
pub struct AppConfig {
    pub api_url: String,
    pub model: String,
    pub max_tokens: i32,
    pub temperature: String,
}

/// The mathematical value of a configuration record.
pub struct AppConfigModel {
    pub api_url: Seq<char>,
    pub model: Seq<char>,
    pub max_tokens: int,
    pub temperature: Seq<char>,
}

impl View for AppConfig {
    type V = AppConfigModel;

    open spec fn view(&self) -> AppConfigModel {
        AppConfigModel {
            api_url: self.api_url@,
            model: self.model@,
            max_tokens: self.max_tokens as int,
            temperature: self.temperature@,
        }
    }
}

/// The built-in chat endpoint.
pub open spec fn spec_default_api_url() -> Seq<char> {
    "https://api.openai.com/v1/"@
}

/// The built-in model name.
pub open spec fn spec_default_model() -> Seq<char> {
    "gpt-4o"@
}

/// The built-in token ceiling.
pub open spec fn spec_default_max_tokens() -> int {
    8192
}

/// The built-in sampling temperature, as decimal text.
pub open spec fn spec_default_temperature() -> Seq<char> {
    "0.6"@
}

/// The all-defaults configuration record.
pub open spec fn spec_default_config() -> AppConfigModel {
    AppConfigModel {
        api_url: spec_default_api_url(),
        model: spec_default_model(),
        max_tokens: spec_default_max_tokens(),
        temperature: spec_default_temperature(),
    }
}

pub fn default_api_url() -> (url: String)
    ensures
        url@ == spec_default_api_url(),
{
    "https://api.openai.com/v1/".to_owned()
}

pub fn default_model() -> (model: String)
    ensures
        model@ == spec_default_model(),
{
    "gpt-4o".to_owned()
}

pub fn default_max_tokens() -> (n: i32)
    ensures
        n == spec_default_max_tokens(),
{
    8192
}

pub fn default_temperature() -> (t: String)
    ensures
        t@ == spec_default_temperature(),
{
    "0.6".to_owned()
}

impl Default for AppConfig {
    /// The all-defaults configuration record.
    fn default() -> (config: AppConfig)
        ensures
            config@ == spec_default_config(),
    {
        AppConfig {
            api_url: default_api_url(),
            model: default_model(),
            max_tokens: default_max_tokens(),
            temperature: default_temperature(),
        }
    }
}

/// The fields a well-formed configuration file supplied: any subset of the
/// four. A field left out keeps its built-in default.
#[derive(Debug, Clone, PartialEq)]
pub struct PartialConfig {
    pub api_url: Option<String>,
    pub model: Option<String>,
    pub max_tokens: Option<i32>,
    pub temperature: Option<String>,
}

/// The mathematical value of a supplied-fields record.
pub struct PartialConfigModel {
    pub api_url: Option<Seq<char>>,
    pub model: Option<Seq<char>>,
    pub max_tokens: Option<i32>,
    pub temperature: Option<Seq<char>>,
}

impl View for PartialConfig {
    type V = PartialConfigModel;

    open spec fn view(&self) -> PartialConfigModel {
        PartialConfigModel {
            api_url: match self.api_url {
                Some(url) => Some(url@),
                None => None,
            },
            model: match self.model {
                Some(model) => Some(model@),
                None => None,
            },
            max_tokens: self.max_tokens,
            temperature: match self.temperature {
                Some(t) => Some(t@),
                None => None,
            },
        }
    }
}

/// The mathematical value of a parse result: the supplied fields, or
/// nothing for a file that was missing or malformed as a whole.
pub open spec fn spec_partial_fields(parsed: Option<PartialConfig>) -> Option<PartialConfigModel> {
    match parsed {
        Some(p) => Some(p@),
        None => None,
    }
}

/// The record `resolve_config` owes for a given parse result.
pub open spec fn spec_resolve_config(parsed: Option<PartialConfigModel>) -> AppConfigModel {
    match parsed {
        None => spec_default_config(),
        Some(p) => AppConfigModel {
            api_url: match p.api_url {
                Some(url) => url,
                None => spec_default_api_url(),
            },
            model: match p.model {
                Some(model) => model,
                None => spec_default_model(),
            },
            max_tokens: match p.max_tokens {
                Some(n) => n as int,
                None => spec_default_max_tokens(),
            },
            temperature: match p.temperature {
                Some(t) => t,
                None => spec_default_temperature(),
            },
        },
    }
}

/// Merges the fields a configuration file supplied over the built-in
/// defaults. `None` stands for a file that was missing or malformed as a
/// whole and yields the all-defaults record exactly; otherwise each field
/// the file supplied overrides its default and every other field keeps it.
pub fn resolve_config(parsed: Option<PartialConfig>) -> (config: AppConfig)
    ensures
        config@ == spec_resolve_config(spec_partial_fields(parsed)),
{
    match parsed {
        None => AppConfig::default(),
        Some(p) => AppConfig {
            api_url: match p.api_url {
                Some(url) => url,
                None => default_api_url(),
            },
            model: match p.model {
                Some(model) => model,
                None => default_model(),
            },
            max_tokens: match p.max_tokens {
                Some(n) => n,
                None => default_max_tokens(),
            },
            temperature: match p.temperature {
                Some(t) => t,
                None => default_temperature(),
            },
        },
    }
}

/// Parses the text of a configuration file and merges it over the built-in
/// defaults. Text that is not well-formed YAML, or that gives a known field
/// an unusable type, counts as malformed as a whole and yields the
/// all-defaults record; any other text overrides exactly the fields it
/// supplies.
pub fn parse_config_text(text: &str) -> (config: AppConfig)
    ensures
        config@ == spec_resolve_config(crate::yaml::spec_config_fields(text@)),
{
    resolve_config(crate::yaml::extract_config_fields(text))
}

/// Configuration text that parses and supplies only `model` and
/// `max_tokens` overrides those two fields and leaves the endpoint and the
/// temperature at their built-in defaults.
pub proof fn lemma_config_fallback(text: Seq<char>, p: PartialConfigModel)
    requires
        crate::yaml::spec_config_fields(text) == Some(p),
        p.api_url is None,
        p.temperature is None,
    ensures
        spec_resolve_config(crate::yaml::spec_config_fields(text)).api_url
            == spec_default_api_url(),
        spec_resolve_config(crate::yaml::spec_config_fields(text)).temperature
            == spec_default_temperature(),
        p.model is Some ==> spec_resolve_config(crate::yaml::spec_config_fields(text)).model
            == p.model->0,
        p.max_tokens is Some ==> spec_resolve_config(
            crate::yaml::spec_config_fields(text),
        ).max_tokens == p.max_tokens->0 as int,
{
}

/// Configuration text that is malformed as a whole — not well-formed YAML,
/// or giving a known field an unusable type — resolves to the all-defaults
/// record exactly.
pub proof fn lemma_malformed_config_resolves_to_defaults(text: Seq<char>)
    requires
        crate::yaml::spec_config_fields(text) is None,
    ensures
        spec_resolve_config(crate::yaml::spec_config_fields(text)) == spec_default_config(),
{
}

} // verus!
