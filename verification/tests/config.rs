use imessage_bot::config::{text_or_default, Config, ConfigError};

fn text(s: &str) -> Option<String> {
    Some(s.to_string())
}

#[test]
fn missing_variables_take_their_defaults() {
    let config = Config::from_vars(text("sk-key"), None, None, None, None, None, None).unwrap();
    assert_eq!(
        config,
        Config {
            openai_api_key: text("sk-key"),
            ollama_api: "http://localhost:11434".to_string(),
            bluebubbles_api: "http://localhost:12345".to_string(),
            bluebubbles_password: None,
            bot_trigger: "@ava".to_string(),
            ollama_model: "llama3.2".to_string(),
            database_url: "sqlite:./bot.db".to_string(),
        }
    );
}

#[test]
fn set_variables_are_taken_as_they_are() {
    let config = Config::from_vars(
        None,
        text("http://ollama:1"),
        text("http://bb:2"),
        text("secret"),
        text("@Bot"),
        text("mistral"),
        text("sqlite::memory:"),
    )
    .unwrap();
    assert_eq!(
        config,
        Config {
            openai_api_key: None,
            ollama_api: "http://ollama:1".to_string(),
            bluebubbles_api: "http://bb:2".to_string(),
            bluebubbles_password: text("secret"),
            bot_trigger: "@Bot".to_string(),
            ollama_model: "mistral".to_string(),
            database_url: "sqlite::memory:".to_string(),
        }
    );
}

#[test]
fn settings_without_any_provider_are_refused() {
    let outcome = Config::from_vars(None, text(""), None, None, None, None, None);
    assert_eq!(outcome, Err(ConfigError::NoProvider));
    assert_eq!(
        ConfigError::NoProvider.message(),
        "Must configure either OPENAI_API_KEY or OLLAMA_API"
    );
    // the default address of the local provider counts as a provider
    assert!(Config::from_vars(None, None, None, None, None, None, None).is_ok());
    // so does a key alone
    assert!(Config::from_vars(text("k"), text(""), None, None, None, None, None).is_ok());
}

#[test]
fn global_triggers_are_the_lowercased_mention_and_the_prefixes() {
    let config =
        Config::from_vars(text("k"), None, None, None, text("@AvA"), None, None).unwrap();
    assert_eq!(
        config.triggers(),
        vec!["@ava".to_string(), "@character".to_string(), "@unhinge".to_string()]
    );
}

#[test]
fn text_or_default_prefers_the_value() {
    assert_eq!(text_or_default(text("x"), "d"), "x");
    assert_eq!(text_or_default(text(""), "d"), "");
    assert_eq!(text_or_default(None, "d"), "d");
}
