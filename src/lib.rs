//! Translation requests against a public translation service and the
//! persisted provider configuration, with their decisions verified.

pub mod config;
pub mod json;
pub mod translate;

pub use config::{config_json, decode_config, ApiConfig, ConfigError, ConfigStore, CONFIG_DIR, CONFIG_FILE};
pub use translate::{
    translate_response, translation_from_field, TranslationError, TranslationRequest,
    TranslationResult, TRANSLATE_ENDPOINT,
};
