//! Process-wide settings.

use crate::text::{lowercase, lowercase_of};
use crate::types::option_text;
use vstd::prelude::*;

verus! {

/// Where the local AI provider listens unless configured otherwise.
pub const DEFAULT_OLLAMA_API: &'static str = "http://localhost:11434";

/// Where the chat transport listens unless configured otherwise.
pub const DEFAULT_BLUEBUBBLES_API: &'static str = "http://localhost:12345";

/// The mention the bot answers to unless configured otherwise.
pub const DEFAULT_BOT_TRIGGER: &'static str = "@ava";

/// The local AI model unless configured otherwise.
pub const DEFAULT_OLLAMA_MODEL: &'static str = "llama3.2";

/// The durable store unless configured otherwise.
pub const DEFAULT_DATABASE_URL: &'static str = "sqlite:./bot.db";

/// Process-wide settings.
#[derive(Clone, Debug, PartialEq, Eq)]
pub struct Config {
    pub openai_api_key: Option<String>,
    pub ollama_api: String,
    pub bluebubbles_api: String,
    pub bluebubbles_password: Option<String>,
    pub bot_trigger: String,
    pub ollama_model: String,
    pub database_url: String,
}

/// The mathematical value of a [`Config`].
pub struct ConfigView {
    pub openai_api_key: Option<Seq<char>>,
    pub ollama_api: Seq<char>,
    pub bluebubbles_api: Seq<char>,
    pub bluebubbles_password: Option<Seq<char>>,
    pub bot_trigger: Seq<char>,
    pub ollama_model: Seq<char>,
    pub database_url: Seq<char>,
}

impl View for Config {
    type V = ConfigView;

    open spec fn view(&self) -> ConfigView {
        ConfigView {
            openai_api_key: option_text(self.openai_api_key),
            ollama_api: self.ollama_api@,
            bluebubbles_api: self.bluebubbles_api@,
            bluebubbles_password: option_text(self.bluebubbles_password),
            bot_trigger: self.bot_trigger@,
            ollama_model: self.ollama_model@,
            database_url: self.database_url@,
        }
    }
}

/// Why the settings are unusable.
#[derive(Clone, Copy, Debug, PartialEq, Eq, Structural)]
pub enum ConfigError {
    /// Neither a hosted-provider key nor a local-provider address is set.
    NoProvider,
}

impl ConfigError {
    /// The text of the error.
    pub fn message(&self) -> (r: String)
        ensures
            r@ == "Must configure either OPENAI_API_KEY or OLLAMA_API"@,
    {
        "Must configure either OPENAI_API_KEY or OLLAMA_API".to_owned()
    }
}

/// The configured text, or the default where none is configured.
pub open spec fn or_default(value: Option<Seq<char>>, default: Seq<char>) -> Seq<char> {
    match value {
        Some(v) => v,
        None => default,
    }
}

/// The configured text, or the default where none is configured.
pub fn text_or_default(value: Option<String>, default: &str) -> (r: String)
    ensures
        r@ == or_default(option_text(value), default@),
{
    match value {
        Some(v) => v,
        None => default.to_owned(),
    }
}

/// The settings that the given variables stand for. Missing variables take
/// their defaults; settings without any AI provider are refused.
pub open spec fn settings_from(
    openai_api_key: Option<Seq<char>>,
    ollama_api: Option<Seq<char>>,
    bluebubbles_api: Option<Seq<char>>,
    bluebubbles_password: Option<Seq<char>>,
    bot_trigger: Option<Seq<char>>,
    ollama_model: Option<Seq<char>>,
    database_url: Option<Seq<char>>,
) -> Result<ConfigView, ConfigError> {
    let ollama = or_default(ollama_api, DEFAULT_OLLAMA_API@);
    if openai_api_key is None && ollama.len() == 0 {
        Err(ConfigError::NoProvider)
    } else {
        Ok(
            ConfigView {
                openai_api_key,
                ollama_api: ollama,
                bluebubbles_api: or_default(bluebubbles_api, DEFAULT_BLUEBUBBLES_API@),
                bluebubbles_password,
                bot_trigger: or_default(bot_trigger, DEFAULT_BOT_TRIGGER@),
                ollama_model: or_default(ollama_model, DEFAULT_OLLAMA_MODEL@),
                database_url: or_default(database_url, DEFAULT_DATABASE_URL@),
            },
        )
    }
}

/// The value of the outcome of reading the settings.
pub open spec fn settings_outcome(outcome: Result<Config, ConfigError>) -> Result<
    ConfigView,
    ConfigError,
> {
    match outcome {
        Ok(c) => Ok(c@),
        Err(e) => Err(e),
    }
}

impl Config {
    /// Builds the settings from the values of the environment variables
    /// `OPENAI_API_KEY`, `OLLAMA_API`, `BLUEBUBBLES_API`,
    /// `BLUEBUBBLES_PASSWORD`, `BOT_TRIGGER`, `OLLAMA_MODEL` and
    /// `DATABASE_URL`, each `None` where the variable is unset.
    pub fn from_vars(
        openai_api_key: Option<String>,
        ollama_api: Option<String>,
        bluebubbles_api: Option<String>,
        bluebubbles_password: Option<String>,
        bot_trigger: Option<String>,
        ollama_model: Option<String>,
        database_url: Option<String>,
    ) -> (r: Result<Config, ConfigError>)
        ensures
            settings_outcome(r) == settings_from(
                option_text(openai_api_key),
                option_text(ollama_api),
                option_text(bluebubbles_api),
                option_text(bluebubbles_password),
                option_text(bot_trigger),
                option_text(ollama_model),
                option_text(database_url),
            ),
    {
        let ollama = text_or_default(ollama_api, DEFAULT_OLLAMA_API);
        if openai_api_key.is_none() && ollama.as_str().unicode_len() == 0 {
            return Err(ConfigError::NoProvider);
        }
        Ok(
            Config {
                openai_api_key,
                ollama_api: ollama,
                bluebubbles_api: text_or_default(bluebubbles_api, DEFAULT_BLUEBUBBLES_API),
                bluebubbles_password,
                bot_trigger: text_or_default(bot_trigger, DEFAULT_BOT_TRIGGER),
                ollama_model: text_or_default(ollama_model, DEFAULT_OLLAMA_MODEL),
                database_url: text_or_default(database_url, DEFAULT_DATABASE_URL),
            },
        )
    }

    /// The global triggers: the lowercased bot mention and the command
    /// prefixes that every conversation answers to.
    pub open spec fn trigger_texts(&self) -> Seq<Seq<char>> {
        seq![lowercase_of(self.bot_trigger@), "@character"@, "@unhinge"@]
    }

    /// The global triggers.
    pub fn triggers(&self) -> (r: Vec<String>)
        ensures
            r.deep_view() == self.trigger_texts(),
    {
        let mut r: Vec<String> = Vec::new();
        r.push(lowercase(self.bot_trigger.as_str()));
        r.push("@character".to_owned());
        r.push("@unhinge".to_owned());
        assert(r.deep_view() =~= self.trigger_texts());
        r
    }
}

} // verus!
