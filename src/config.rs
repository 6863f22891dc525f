//! The provider configuration and the file that keeps it.

use vstd::prelude::*;
use vstd::string::*;
use crate::json::{
    parse_json, string_at, quote_json, error_text, opt_view, json_accepts, json_string_at,
    json_quoted,
};

verus! {

/// The directory, under the working directory, that holds the configuration file.
pub const CONFIG_DIR: &'static str = "config";

/// The name of the configuration file inside `CONFIG_DIR`.
pub const CONFIG_FILE: &'static str = "api-config.json";

/// The translation provider to use and its key.
#[derive(Debug, Clone, PartialEq, Eq)]
pub struct ApiConfig {
    pub api_type: String,
    pub api_key: String,
}

impl View for ApiConfig {
    type V = (Seq<char>, Seq<char>);

    open spec fn view(&self) -> (Seq<char>, Seq<char>) {
        (self.api_type@, self.api_key@)
    }
}

/// The configuration in force while no file has been saved.
pub open spec fn default_config_view() -> (Seq<char>, Seq<char>) {
    ("mymemory"@, Seq::empty())
}

impl Default for ApiConfig {
    fn default() -> (r: Self)
        ensures
            r@ == default_config_view(),
    {
        ApiConfig { api_type: String::from_str("mymemory"), api_key: String::new() }
    }
}

#[derive(Debug, Clone, PartialEq, Eq)]
pub enum ConfigError {
    /// The configuration directory could not be created.
    ConfigDirCreateFailed(String),
    /// The configuration file could not be written.
    ConfigWriteFailed(String),
    /// The configuration file exists but could not be read.
    ConfigReadFailed(String),
    /// The configuration file does not hold a configuration.
    ConfigParseFailed(String),
}

/// The text of the file that keeps a configuration: one JSON object with the
/// keys `api_type` and `api_key`.
pub open spec fn config_text(c: (Seq<char>, Seq<char>)) -> Seq<char> {
    "{\"api_type\":"@ + json_quoted(c.0) + ",\"api_key\":"@ + json_quoted(c.1) + "}"@
}

/// The configuration that a file's text holds: a JSON document with a string
/// at `/api_type` and one at `/api_key`.
pub open spec fn decoded(text: Seq<char>) -> Option<(Seq<char>, Seq<char>)> {
    if json_accepts(text) {
        match (json_string_at(text, "/api_type"@), json_string_at(text, "/api_key"@)) {
            (Some(t), Some(k)) => Some((t, k)),
            _ => None,
        }
    } else {
        None
    }
}

pub fn config_json(config: &ApiConfig) -> (r: String)
    ensures
        r@ == config_text(config@),
{
    let mut out = String::from_str("{\"api_type\":");
    let t = quote_json(config.api_type.as_str());
    out.append(t.as_str());
    out.append(",\"api_key\":");
    let k = quote_json(config.api_key.as_str());
    out.append(k.as_str());
    out.append("}");
    out
}

/// The outcome for the strings found at `/api_type` and `/api_key`, if any.
pub fn config_from_fields(api_type: Option<String>, api_key: Option<String>) -> (r: Result<
    ApiConfig,
    ConfigError,
>)
    ensures
        match (opt_view(api_type), opt_view(api_key)) {
            (Some(t), Some(k)) => r is Ok && r->Ok_0@ == (t, k),
            _ => r matches Err(ConfigError::ConfigParseFailed(_)),
        },
{
    match (api_type, api_key) {
        (Some(t), Some(k)) => Ok(ApiConfig { api_type: t, api_key: k }),
        (None, _) => Err(ConfigError::ConfigParseFailed(String::from_str("missing field `api_type`"))),
        (_, None) => Err(ConfigError::ConfigParseFailed(String::from_str("missing field `api_key`"))),
    }
}

pub fn decode_config(text: &str) -> (r: Result<ApiConfig, ConfigError>)
    ensures
        r is Ok <==> decoded(text@) is Some,
        r is Ok ==> r->Ok_0@ == decoded(text@)->Some_0,
        r is Err ==> r->Err_0 is ConfigParseFailed,
{
    match parse_json(text) {
        Err(e) => Err(ConfigError::ConfigParseFailed(error_text(&e))),
        Ok(doc) => {
            let t = string_at(&doc, "/api_type");
            let k = string_at(&doc, "/api_key");
            config_from_fields(t, k)
        },
    }
}

/// The configuration file as the library sees it: its text, or `None` where
/// it does not exist.
#[derive(Debug, Clone, PartialEq, Eq)]
pub struct ConfigStore {
    pub contents: Option<String>,
}

impl View for ConfigStore {
    type V = Option<Seq<char>>;

    open spec fn view(&self) -> Option<Seq<char>> {
        opt_view(self.contents)
    }
}

/// The file after a configuration is saved: its whole text is replaced.
pub open spec fn after_save(file: Option<Seq<char>>, c: (Seq<char>, Seq<char>)) -> Option<Seq<char>> {
    Some(config_text(c))
}

/// The configuration that loading the file gives, or `None` where loading fails.
pub open spec fn load_outcome(file: Option<Seq<char>>) -> Option<(Seq<char>, Seq<char>)> {
    match file {
        None => Some(default_config_view()),
        Some(text) => decoded(text),
    }
}

impl ConfigStore {
    pub fn load(&self) -> (r: Result<ApiConfig, ConfigError>)
        ensures
            r is Ok <==> load_outcome(self@) is Some,
            r is Ok ==> r->Ok_0@ == load_outcome(self@)->Some_0,
            r is Err ==> r->Err_0 is ConfigParseFailed,
            self.contents is None ==> r is Ok && r->Ok_0@ == default_config_view(),
            self@ matches Some(t) && !json_accepts(t) ==> r matches Err(ConfigError::ConfigParseFailed(_)),
    {
        match &self.contents {
            None => Ok(ApiConfig::default()),
            Some(text) => decode_config(text.as_str()),
        }
    }

    pub fn save(&mut self, config: &ApiConfig)
        ensures
            final(self)@ == after_save(old(self)@, config@),
    {
        self.contents = Some(config_json(config));
    }
}

/// Saving replaces the file whole: after two saves the file, and what loading
/// it gives, are those of the second save alone.
pub proof fn lemma_last_save_wins(
    file: Option<Seq<char>>,
    first: (Seq<char>, Seq<char>),
    second: (Seq<char>, Seq<char>),
)
    ensures
        after_save(after_save(file, first), second) == after_save(file, second),
        load_outcome(after_save(after_save(file, first), second)) == load_outcome(after_save(None, second)),
{
}

impl ConfigError {
    /// The message shown to the user.
    pub fn message(&self) -> (r: String)
        ensures
            match self {
                ConfigError::ConfigDirCreateFailed(c) => r@ == "Failed to create config dir: "@ + c@,
                ConfigError::ConfigWriteFailed(c) => r@ == "Failed to write config file: "@ + c@,
                ConfigError::ConfigReadFailed(c) => r@ == "Failed to read config file: "@ + c@,
                ConfigError::ConfigParseFailed(c) => r@ == "Failed to parse config: "@ + c@,
            },
    {
        let (mut m, c) = match self {
            ConfigError::ConfigDirCreateFailed(c) => (String::from_str("Failed to create config dir: "), c),
            ConfigError::ConfigWriteFailed(c) => (String::from_str("Failed to write config file: "), c),
            ConfigError::ConfigReadFailed(c) => (String::from_str("Failed to read config file: "), c),
            ConfigError::ConfigParseFailed(c) => (String::from_str("Failed to parse config: "), c),
        };
        m.append(c.as_str());
        m
    }
}

} // verus!
