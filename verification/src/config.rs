//! The configuration record of one invocation.

use vstd::prelude::*;
use crate::classify::AlertKind;

verus! {

/// What one invocation is configured with. The key is a secret, so the
/// record has no debug rendering.
pub struct Config {
    pub completion_url: String,
    pub completion_api_key: String,
    pub chat_webhook_url: String,
    pub model_timeout_secs: u64,
    pub user_tag: String,
}

/// A required setting that is absent.
#[derive(Clone, Copy, Debug, PartialEq, Eq, Structural)]
pub enum ConfigError {
    MissingWebhookUrl,
    MissingApiKey,
}

/// The bound on the completion call, in seconds.
pub const DEFAULT_MODEL_TIMEOUT_SECS: u64 = 60;

/// The completion endpoint used where none is configured.
pub open spec fn default_completion_url() -> Seq<char> {
    "http://172.20.60.200/v1/completion-messages"@
}

/// The mention appended to an analysed alert where none is configured.
pub open spec fn default_user_tag() -> Seq<char> {
    "<@all>"@
}

/// What a setting is worth: its value, or the fallback where it is absent.
pub open spec fn value_or(setting: Option<String>, fallback: Seq<char>) -> Seq<char> {
    match setting {
        Some(value) => value@,
        None => fallback,
    }
}

/// The error, if any, that the settings give for an alert of a kind: the
/// webhook is always required, the key only on the problem path.
pub open spec fn missing_setting(
    kind: AlertKind,
    api_key: Option<String>,
    webhook_url: Option<String>,
) -> Option<ConfigError> {
    if webhook_url is None {
        Some(ConfigError::MissingWebhookUrl)
    } else if kind == AlertKind::Problem && api_key is None {
        Some(ConfigError::MissingApiKey)
    } else {
        None
    }
}

/// The diagnostic for an absent setting.
pub open spec fn config_diagnostic(e: ConfigError) -> Seq<char> {
    match e {
        ConfigError::MissingWebhookUrl => "FEISHU_WEBHOOK_URL is not set"@,
        ConfigError::MissingApiKey => "MODEL_API_KEY is not set"@,
    }
}

fn setting_or(setting: Option<String>, fallback: &str) -> (value: String)
    ensures
        value@ == value_or(setting, fallback@),
{
    match setting {
        Some(value) => value,
        None => String::from_str(fallback),
    }
}

impl Config {
    /// Builds the record from the settings read at startup, for an alert of
    /// the given kind. An absent webhook is an error on every path, an
    /// absent key only on the problem path; an absent endpoint falls back
    /// to the default. The bound is sixty seconds.
    pub fn resolve(
        kind: AlertKind,
        api_key: Option<String>,
        api_url: Option<String>,
        webhook_url: Option<String>,
    ) -> (r: Result<Config, ConfigError>)
        ensures
            match r {
                Ok(cfg) => {
                    &&& missing_setting(kind, api_key, webhook_url) is None
                    &&& cfg.completion_url@ == value_or(api_url, default_completion_url())
                    &&& cfg.completion_api_key@ == value_or(api_key, Seq::empty())
                    &&& cfg.chat_webhook_url@ == value_or(webhook_url, Seq::empty())
                    &&& cfg.model_timeout_secs == DEFAULT_MODEL_TIMEOUT_SECS
                    &&& cfg.user_tag@ == default_user_tag()
                },
                Err(e) => missing_setting(kind, api_key, webhook_url) == Some(e),
            },
    {
        proof {
            reveal_strlit("");
            assert(""@ =~= Seq::<char>::empty());
        }
        let chat_webhook_url = match webhook_url {
            Some(url) => url,
            None => {
                return Err(ConfigError::MissingWebhookUrl);
            },
        };
        if kind == AlertKind::Problem && api_key.is_none() {
            return Err(ConfigError::MissingApiKey);
        }
        Ok(
            Config {
                completion_url: setting_or(api_url, "http://172.20.60.200/v1/completion-messages"),
                completion_api_key: setting_or(api_key, ""),
                chat_webhook_url,
                model_timeout_secs: DEFAULT_MODEL_TIMEOUT_SECS,
                user_tag: String::from_str("<@all>"),
            },
        )
    }
}

impl ConfigError {
    /// The diagnostic for the operator.
    pub fn describe(&self) -> (text: String)
        ensures
            text@ == config_diagnostic(*self),
    {
        match self {
            ConfigError::MissingWebhookUrl => String::from_str("FEISHU_WEBHOOK_URL is not set"),
            ConfigError::MissingApiKey => String::from_str("MODEL_API_KEY is not set"),
        }
    }
}

} // verus!
