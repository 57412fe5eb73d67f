use imessage_bot::commands::{
    validate_trigger_name, Command, CommandError, CommandHandler, CommandParser, CommandStep,
};
use imessage_bot::types::ChatConfig;

#[test]
fn test_character_command_parsing() {
    let parser = CommandParser::new().unwrap();

    let cmd = parser.parse_command("@character a witty robot");
    assert!(matches!(cmd, Some(Command::Character { .. })));

    if let Some(Command::Character { description }) = cmd {
        assert_eq!(description, "a witty robot");
    }
}

#[test]
fn test_unhinge_command_parsing() {
    let parser = CommandParser::new().unwrap();

    let cmd = parser.parse_command("@unhinge true");
    assert!(matches!(cmd, Some(Command::Unhinge { enabled: true })));

    let cmd = parser.parse_command("@unhinge false");
    assert!(matches!(cmd, Some(Command::Unhinge { enabled: false })));

    let cmd = parser.parse_command("@unhinge on");
    assert!(matches!(cmd, Some(Command::Unhinge { enabled: true })));
}

#[test]
fn test_name_command_parsing() {
    let parser = CommandParser::new().unwrap();

    let cmd = parser.parse_command("@name bot");
    assert!(matches!(cmd, Some(Command::Name { .. })));

    if let Some(Command::Name { trigger_name }) = cmd {
        assert_eq!(trigger_name, "bot");
    }

    let cmd = parser.parse_command("@name assistant123");
    assert!(matches!(cmd, Some(Command::Name { .. })));

    // Invalid names should not parse
    let cmd = parser.parse_command("@name bot-name");
    assert!(cmd.is_none());

    let cmd = parser.parse_command("@name");
    assert!(cmd.is_none());
}

#[test]
fn test_no_command() {
    let parser = CommandParser::new().unwrap();

    let cmd = parser.parse_command("Just a regular message");
    assert!(cmd.is_none());

    let cmd = parser.parse_command("@ava hello there");
    assert!(cmd.is_none());
}

#[test]
fn persona_command_wins_over_the_toggle() {
    let parser = CommandParser::new().unwrap();
    let cmd = parser.parse_command("@character a grumpy pirate @unhinge on");
    assert_eq!(
        cmd,
        Some(Command::Character { description: "a grumpy pirate @unhinge on".to_string() })
    );
    let cmd = parser.parse_command("@unhinge on @character a grumpy pirate");
    assert_eq!(cmd, Some(Command::Character { description: "a grumpy pirate".to_string() }));
}

#[test]
fn toggle_wins_over_the_nickname_change() {
    let parser = CommandParser::new().unwrap();
    let cmd = parser.parse_command("@name bot @unhinge off");
    assert_eq!(cmd, Some(Command::Unhinge { enabled: false }));
}

#[test]
fn commands_are_found_anywhere_in_the_text() {
    let parser = CommandParser::new().unwrap();
    assert_eq!(
        parser.parse_command("hey @ava please @unhinge YES"),
        Some(Command::Unhinge { enabled: true })
    );
    assert_eq!(
        parser.parse_command("   \n@name   Botty  "),
        Some(Command::Name { trigger_name: "botty".to_string() })
    );
    assert_eq!(
        parser.parse_command("so @character   a witty robot  "),
        Some(Command::Character { description: "a witty robot".to_string() })
    );
}

#[test]
fn toggle_values_are_read_case_insensitively() {
    let parser = CommandParser::new().unwrap();
    for value in ["true", "TRUE", "1", "on", "On", "yes", "Yes"] {
        let text = format!("@unhinge {}", value);
        assert_eq!(parser.parse_command(&text), Some(Command::Unhinge { enabled: true }));
    }
    for value in ["false", "0", "off", "no", "maybe", "on please", "true."] {
        let text = format!("@unhinge {}", value);
        assert_eq!(parser.parse_command(&text), Some(Command::Unhinge { enabled: false }));
    }
}

#[test]
fn keywords_without_an_argument_are_no_commands() {
    let parser = CommandParser::new().unwrap();
    assert_eq!(parser.parse_command("@character"), None);
    assert_eq!(parser.parse_command("@character   "), None);
    assert_eq!(parser.parse_command("@unhinge"), None);
    assert_eq!(parser.parse_command("@unhingeon"), None);
    assert_eq!(parser.parse_command("@name  "), None);
    assert_eq!(parser.parse_command(""), None);
}

#[test]
fn nicknames_with_other_characters_do_not_parse() {
    let parser = CommandParser::new().unwrap();
    assert_eq!(parser.parse_command("@name bot_name"), None);
    assert_eq!(parser.parse_command("@name bot!"), None);
    assert_eq!(parser.parse_command("@name bot."), None);
    assert_eq!(
        parser.parse_command("@name bot now"),
        Some(Command::Name { trigger_name: "bot".to_string() })
    );
    assert_eq!(
        parser.parse_command("@name Ünïcode9"),
        Some(Command::Name { trigger_name: "ünïcode9".to_string() })
    );
}

#[test]
fn long_nicknames_parse_and_are_refused_by_the_handler() {
    let parser = CommandParser::new().unwrap();
    let long = "a".repeat(21);
    let cmd = parser.parse_command(&format!("@name {}", long));
    assert_eq!(cmd, Some(Command::Name { trigger_name: long.clone() }));
    assert_eq!(validate_trigger_name(&long), Err(CommandError::NameLength));
    assert_eq!(validate_trigger_name(&"a".repeat(20)), Ok(()));
    assert_eq!(validate_trigger_name("a"), Ok(()));
    assert_eq!(validate_trigger_name(""), Err(CommandError::NameLength));
    assert_eq!(validate_trigger_name("bot-name"), Err(CommandError::NameCharset));
    assert_eq!(validate_trigger_name("bot name"), Err(CommandError::NameCharset));
    // twenty characters, not twenty bytes
    assert_eq!(validate_trigger_name(&"é".repeat(20)), Ok(()));
    assert_eq!(validate_trigger_name(&"é".repeat(21)), Err(CommandError::NameLength));
}

#[test]
fn commands_from_captured_groups() {
    assert_eq!(
        Command::from_groups(Some("  a pirate ".to_string()), Some("on".to_string()), None),
        Some(Command::Character { description: "a pirate".to_string() })
    );
    // the first pattern that matched decides alone, even if it yields nothing
    assert_eq!(Command::from_groups(Some("   ".to_string()), Some("on".to_string()), None), None);
    assert_eq!(
        Command::from_groups(None, Some(" ON ".to_string()), Some("bot".to_string())),
        Some(Command::Unhinge { enabled: true })
    );
    assert_eq!(Command::from_groups(None, Some("  ".to_string()), Some("bot".to_string())), None);
    assert_eq!(
        Command::from_groups(None, None, Some("Bot".to_string())),
        Some(Command::Name { trigger_name: "bot".to_string() })
    );
    assert_eq!(Command::from_groups(None, None, Some("b-t".to_string())), None);
    assert_eq!(Command::from_groups(None, None, None), None);
    assert_eq!(Command::from_persona_group(" x "), Some(Command::Character { description: "x".to_string() }));
    assert_eq!(Command::from_toggle_group("nope"), Some(Command::Unhinge { enabled: false }));
    assert_eq!(Command::from_rename_group(""), None);
}

#[test]
fn error_messages_are_fixed() {
    assert_eq!(CommandError::NameLength.message(), "❌ Trigger name must be 1-20 characters long");
    assert_eq!(
        CommandError::NameCharset.message(),
        "❌ Trigger name must contain only letters and numbers"
    );
    assert_eq!(CommandError::InvalidPattern.message(), "❌ Command patterns could not be compiled");
}

fn fresh_config() -> ChatConfig {
    ChatConfig::with_defaults("chat-1".to_string(), vec!["@ava".to_string()], 100)
}

#[test]
fn text_without_command_changes_nothing() {
    let handler = CommandHandler::new().unwrap();
    let mut config = fresh_config();
    let step = handler.handle_command("just chatting", &mut config, 200);
    assert_eq!(step, CommandStep::NotACommand);
    assert_eq!(config, fresh_config());
}

#[test]
fn toggle_changes_the_provider_and_asks_to_persist() {
    let handler = CommandHandler::new().unwrap();
    let mut config = fresh_config();
    let step = handler.handle_command("@unhinge on", &mut config, 200);
    assert_eq!(
        step,
        CommandStep::Persist {
            on_success: "✅ Unhinge mode enabled".to_string(),
            on_failure: "❌ Failed to save unhinge config: ".to_string(),
        }
    );
    assert!(config.use_ollama);
    assert_eq!(config.updated_at, 200);
    assert_eq!(config.created_at, 100);
    assert_eq!(config.trigger_name, "myai");

    let step = handler.handle_command("@unhinge off", &mut config, 300);
    assert_eq!(
        step,
        CommandStep::Persist {
            on_success: "✅ Unhinge mode disabled".to_string(),
            on_failure: "❌ Failed to save unhinge config: ".to_string(),
        }
    );
    assert!(!config.use_ollama);
    assert_eq!(config.updated_at, 300);
}

#[test]
fn nickname_change_names_the_old_and_the_new_nickname() {
    let handler = CommandHandler::new().unwrap();
    let mut config = fresh_config();
    let step = handler.handle_command("@name Botty", &mut config, 200);
    assert_eq!(
        step,
        CommandStep::Persist {
            on_success: "✅ Trigger name changed from 'myai' to 'botty'. You can now say 'botty, hello!' instead of using @".to_string(),
            on_failure: "❌ Failed to save trigger name: ".to_string(),
        }
    );
    assert_eq!(config.trigger_name, "botty");
    assert_eq!(config.updated_at, 200);
    assert_eq!(config.character_prompt, None);
}

#[test]
fn refused_nickname_leaves_the_configuration_alone() {
    let mut config = fresh_config();
    let step = CommandHandler::execute(
        Some(Command::Name { trigger_name: "x".repeat(21) }),
        &mut config,
        200,
    );
    assert_eq!(
        step,
        CommandStep::Reply { text: "❌ Trigger name must be 1-20 characters long".to_string() }
    );
    assert_eq!(config, fresh_config());
    let step = CommandHandler::execute(
        Some(Command::Name { trigger_name: "bot-name".to_string() }),
        &mut config,
        200,
    );
    assert_eq!(
        step,
        CommandStep::Reply {
            text: "❌ Trigger name must contain only letters and numbers".to_string()
        }
    );
    assert_eq!(config, fresh_config());
    let step = CommandHandler::execute(
        Some(Command::Name { trigger_name: String::new() }),
        &mut config,
        200,
    );
    assert_eq!(
        step,
        CommandStep::Reply { text: "❌ Trigger name must be 1-20 characters long".to_string() }
    );
}

#[test]
fn persona_command_asks_for_a_prompt_first() {
    let handler = CommandHandler::new().unwrap();
    let mut config = fresh_config();
    let step = handler.handle_command("@character a grumpy pirate", &mut config, 200);
    assert_eq!(step, CommandStep::GeneratePersona { description: "a grumpy pirate".to_string() });
    assert_eq!(config, fresh_config());

    let step = CommandHandler::persona_generated(
        "a grumpy pirate",
        Ok("You are a grumpy pirate.".to_string()),
        &mut config,
        250,
    );
    assert_eq!(
        step,
        CommandStep::Persist {
            on_success: "✅ Character updated! I'm now: a grumpy pirate".to_string(),
            on_failure: "❌ Failed to save character config: ".to_string(),
        }
    );
    assert_eq!(config.character_prompt, Some("You are a grumpy pirate.".to_string()));
    assert_eq!(config.updated_at, 250);
}

#[test]
fn failed_persona_generation_is_reported_and_changes_nothing() {
    let mut config = fresh_config();
    let step = CommandHandler::persona_generated(
        "a grumpy pirate",
        Err("OpenAI API failed: quota".to_string()),
        &mut config,
        250,
    );
    assert_eq!(
        step,
        CommandStep::Reply {
            text: "❌ Failed to generate character prompt: OpenAI API failed: quota".to_string()
        }
    );
    assert_eq!(config, fresh_config());
}

#[test]
fn persist_outcome_picks_the_reply() {
    assert_eq!(
        CommandHandler::persist_finished("done".to_string(), "failed: ".to_string(), Ok(())),
        "done"
    );
    assert_eq!(
        CommandHandler::persist_finished(
            "done".to_string(),
            "failed: ".to_string(),
            Err("disk full".to_string())
        ),
        "failed: disk full"
    );
}

#[test]
fn handler_parses_like_the_parser() {
    let handler = CommandHandler::new().unwrap();
    assert_eq!(handler.parse("@unhinge 1"), Some(Command::Unhinge { enabled: true }));
    assert_eq!(handler.parse("nothing here"), None);
}
