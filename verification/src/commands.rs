//! The command grammar and the decisions of the command handler.
//!
//! A command may stand anywhere in a message. Three forms are recognised,
//! in a fixed order of precedence: the persona command, the provider
//! toggle and the nickname change. The first form whose pattern matches
//! decides the outcome; later forms are not tried.

use crate::text::{
    all_alphanumeric, all_alphanumeric_chars, lowercase, lowercase_of, text_eq, to_chars, trim,
    join2, join3, trim_text, CharClass,
};
use crate::types::{option_text, ChatConfig, ChatConfigView};
use vstd::prelude::*;

verus! {

/// Pattern of the persona command; the group captures the description.
pub const CHARACTER_PATTERN: &'static str = "@character\\s+(.+)";

/// Pattern of the provider toggle; the group captures the value.
pub const UNHINGE_PATTERN: &'static str = "@unhinge\\s+(.+)";

/// Pattern of the nickname change; the group captures the word that
/// follows the keyword, up to the next whitespace.
pub const NAME_PATTERN: &'static str = "@name\\s+(\\S+)";

/// The longest nickname that the handler accepts, in characters.
pub const MAX_TRIGGER_NAME_LEN: usize = 20;

/// Whether `regex::Regex::new` accepts `pattern`.
pub uninterp spec fn regex_compiles(pattern: Seq<char>) -> bool;

/// What the first capture group of `pattern` holds for the leftmost match
/// in `text`, as `regex::Regex::captures` finds it; `None` where the
/// pattern does not match or the group takes no part in the match.
pub uninterp spec fn regex_first_group(pattern: Seq<char>, text: Seq<char>) -> Option<Seq<char>>;

/// `regex::Error`, carried through as an opaque value.
#[verifier::external_type_specification]
#[verifier::external_body]
pub struct ExRegexError(regex::Error);

/// Compiles `pattern` with `regex::Regex::new` and searches `text` with
/// `Regex::captures`, returning the text of capture group 1. The contract
/// names both results without restating the regular-expression semantics:
/// compilation fails exactly where the crate rejects the pattern, and the
/// returned group is the one the crate reports.
#[verifier::external_body]
fn first_group(pattern: &str, text: &str) -> (r: Result<Option<String>, regex::Error>)
    ensures
        r is Ok <==> regex_compiles(pattern@),
        r matches Ok(group) ==> option_text(group) == regex_first_group(pattern@, text@),
{
    match regex::Regex::new(pattern) {
        Err(e) => Err(e),
        Ok(re) => match re.captures(text) {
            None => Ok(None),
            Some(found) => match found.get(1) {
                None => Ok(None),
                Some(group) => Ok(Some(group.as_str().to_string())),
            },
        },
    }
}

/// A recognised command.
#[derive(Clone, Debug, PartialEq, Eq)]
pub enum Command {
    /// Adopt a new persona, synthesised from a free-text description.
    Character { description: String },
    /// Switch the alternate AI provider on or off.
    Unhinge { enabled: bool },
    /// Answer to a new nickname.
    Name { trigger_name: String },
}

/// The mathematical value of a [`Command`].
pub enum CommandView {
    Character { description: Seq<char> },
    Unhinge { enabled: bool },
    Name { trigger_name: Seq<char> },
}

impl View for Command {
    type V = CommandView;

    open spec fn view(&self) -> CommandView {
        match self {
            Command::Character { description } => CommandView::Character {
                description: description@,
            },
            Command::Unhinge { enabled } => CommandView::Unhinge { enabled: *enabled },
            Command::Name { trigger_name } => CommandView::Name { trigger_name: trigger_name@ },
        }
    }
}

/// The value of an optional command.
pub open spec fn option_command(command: Option<Command>) -> Option<CommandView> {
    match command {
        Some(c) => Some(c@),
        None => None,
    }
}

/// Why a command could not be set up or carried out.
#[derive(Clone, Copy, Debug, PartialEq, Eq, Structural)]
pub enum CommandError {
    /// A pattern of the grammar was rejected by the regular-expression
    /// engine.
    InvalidPattern,
    /// The nickname is empty or longer than the limit.
    NameLength,
    /// The nickname holds a character that is neither a letter nor a
    /// number.
    NameCharset,
}

/// The values that switch the alternate provider on, compared after
/// lowercasing.
pub open spec fn truthy(value: Seq<char>) -> bool {
    value == "true"@ || value == "1"@ || value == "on"@ || value == "yes"@
}

/// The command that the persona pattern yields for its captured group:
/// the trimmed description, unless nothing is left of it.
pub open spec fn persona_command(group: Seq<char>) -> Option<CommandView> {
    let description = trim(group, CharClass::Whitespace);
    if description.len() > 0 {
        Some(CommandView::Character { description })
    } else {
        None
    }
}

/// The command that the toggle pattern yields for its captured group:
/// on for a truthy value, off for anything else, nothing for an empty one.
pub open spec fn toggle_command(group: Seq<char>) -> Option<CommandView> {
    let value = trim(group, CharClass::Whitespace);
    if value.len() > 0 {
        Some(CommandView::Unhinge { enabled: truthy(lowercase_of(value)) })
    } else {
        None
    }
}

/// The command that the nickname pattern yields for its captured group:
/// the lowercased word, provided it is non-empty and made of letters and
/// numbers only.
pub open spec fn rename_command(group: Seq<char>) -> Option<CommandView> {
    let name = lowercase_of(trim(group, CharClass::Whitespace));
    if name.len() > 0 && all_alphanumeric(name) {
        Some(CommandView::Name { trigger_name: name })
    } else {
        None
    }
}

/// The command that the three captured groups stand for. The first
/// pattern that matched decides alone.
pub open spec fn command_from_groups(
    character: Option<Seq<char>>,
    unhinge: Option<Seq<char>>,
    name: Option<Seq<char>>,
) -> Option<CommandView> {
    if character is Some {
        persona_command(character->0)
    } else if unhinge is Some {
        toggle_command(unhinge->0)
    } else if name is Some {
        rename_command(name->0)
    } else {
        None
    }
}

/// The command that a message text stands for.
pub open spec fn parse_spec(text: Seq<char>) -> Option<CommandView> {
    let body = trim(text, CharClass::Whitespace);
    command_from_groups(
        regex_first_group(CHARACTER_PATTERN@, body),
        regex_first_group(UNHINGE_PATTERN@, body),
        regex_first_group(NAME_PATTERN@, body),
    )
}

impl Command {
    /// The persona command for a captured description.
    pub fn from_persona_group(group: &str) -> (r: Option<Command>)
        ensures
            option_command(r) == persona_command(group@),
    {
        let description = trim_text(group, CharClass::Whitespace);
        if description.as_str().unicode_len() > 0 {
            Some(Command::Character { description })
        } else {
            None
        }
    }

    /// The provider toggle for a captured value.
    pub fn from_toggle_group(group: &str) -> (r: Option<Command>)
        ensures
            option_command(r) == toggle_command(group@),
    {
        let trimmed = trim_text(group, CharClass::Whitespace);
        if trimmed.as_str().unicode_len() > 0 {
            let value = lowercase(trimmed.as_str());
            let enabled = text_eq(value.as_str(), "true") || text_eq(value.as_str(), "1")
                || text_eq(value.as_str(), "on") || text_eq(value.as_str(), "yes");
            Some(Command::Unhinge { enabled })
        } else {
            None
        }
    }

    /// The nickname change for a captured word.
    pub fn from_rename_group(group: &str) -> (r: Option<Command>)
        ensures
            option_command(r) == rename_command(group@),
    {
        let trimmed = trim_text(group, CharClass::Whitespace);
        let name = lowercase(trimmed.as_str());
        let chars = to_chars(name.as_str());
        if chars.len() > 0 && all_alphanumeric_chars(&chars) {
            Some(Command::Name { trigger_name: name })
        } else {
            None
        }
    }

    /// The command that the three captured groups stand for.
    pub fn from_groups(
        character: Option<String>,
        unhinge: Option<String>,
        name: Option<String>,
    ) -> (r: Option<Command>)
        ensures
            option_command(r) == command_from_groups(
                option_text(character),
                option_text(unhinge),
                option_text(name),
            ),
    {
        match character {
            Some(group) => Command::from_persona_group(group.as_str()),
            None => match unhinge {
                Some(group) => Command::from_toggle_group(group.as_str()),
                None => match name {
                    Some(group) => Command::from_rename_group(group.as_str()),
                    None => None,
                },
            },
        }
    }
}

/// Recognises commands in message texts. The parser keeps the patterns of
/// the grammar as texts; a pattern is compiled whenever it is matched.
pub struct CommandParser {
    character_pattern: String,
    unhinge_pattern: String,
    name_pattern: String,
}

impl CommandParser {
    #[verifier::type_invariant]
    spec fn patterns_compile(self) -> bool {
        &&& self.character_pattern@ == CHARACTER_PATTERN@
        &&& self.unhinge_pattern@ == UNHINGE_PATTERN@
        &&& self.name_pattern@ == NAME_PATTERN@
        &&& regex_compiles(CHARACTER_PATTERN@)
        &&& regex_compiles(UNHINGE_PATTERN@)
        &&& regex_compiles(NAME_PATTERN@)
    }

    /// A parser for the command grammar. Fails where the regular
    /// expression engine rejects one of the grammar's patterns.
    pub fn new() -> (r: Result<CommandParser, CommandError>)
        ensures
            r is Ok <==> regex_compiles(CHARACTER_PATTERN@) && regex_compiles(UNHINGE_PATTERN@)
                && regex_compiles(NAME_PATTERN@),
            r is Err ==> r->Err_0 == CommandError::InvalidPattern,
    {
        if first_group(CHARACTER_PATTERN, "").is_err() {
            return Err(CommandError::InvalidPattern);
        }
        if first_group(UNHINGE_PATTERN, "").is_err() {
            return Err(CommandError::InvalidPattern);
        }
        if first_group(NAME_PATTERN, "").is_err() {
            return Err(CommandError::InvalidPattern);
        }
        Ok(
            CommandParser {
                character_pattern: CHARACTER_PATTERN.to_owned(),
                unhinge_pattern: UNHINGE_PATTERN.to_owned(),
                name_pattern: NAME_PATTERN.to_owned(),
            },
        )
    }

    /// The command that `text` stands for, if any.
    pub fn parse_command(&self, text: &str) -> (r: Option<Command>)
        ensures
            option_command(r) == parse_spec(text@),
    {
        proof {
            use_type_invariant(self);
        }
        let body = trim_text(text, CharClass::Whitespace);
        match first_group(self.character_pattern.as_str(), body.as_str()) {
            Ok(Some(group)) => {
                return Command::from_persona_group(group.as_str());
            },
            _ => {},
        }
        match first_group(self.unhinge_pattern.as_str(), body.as_str()) {
            Ok(Some(group)) => {
                return Command::from_toggle_group(group.as_str());
            },
            _ => {},
        }
        match first_group(self.name_pattern.as_str(), body.as_str()) {
            Ok(Some(group)) => Command::from_rename_group(group.as_str()),
            _ => None,
        }
    }
}

/// Where the persona pattern matches, the persona command decides alone:
/// the outcome is what its captured description yields, whatever the
/// toggle and nickname patterns would have matched.
pub proof fn lemma_persona_takes_precedence(text: Seq<char>)
    requires
        regex_first_group(CHARACTER_PATTERN@, trim(text, CharClass::Whitespace)) is Some,
    ensures
        parse_spec(text) == persona_command(
            regex_first_group(CHARACTER_PATTERN@, trim(text, CharClass::Whitespace))->0,
        ),
        !(parse_spec(text) matches Some(CommandView::Unhinge { .. })),
        !(parse_spec(text) matches Some(CommandView::Name { .. })),
{
}

impl CommandError {
    /// The text shown to the user for the error.
    pub open spec fn message_text(self) -> Seq<char> {
        match self {
            CommandError::InvalidPattern => "❌ Command patterns could not be compiled"@,
            CommandError::NameLength => "❌ Trigger name must be 1-20 characters long"@,
            CommandError::NameCharset => "❌ Trigger name must contain only letters and numbers"@,
        }
    }

    /// The text shown to the user for the error.
    pub fn message(&self) -> (r: String)
        ensures
            r@ == self.message_text(),
    {
        match self {
            CommandError::InvalidPattern => "❌ Command patterns could not be compiled".to_owned(),
            CommandError::NameLength => "❌ Trigger name must be 1-20 characters long".to_owned(),
            CommandError::NameCharset => "❌ Trigger name must contain only letters and numbers".to_owned(),
        }
    }
}

/// Whether a nickname is acceptable, and if not, why: the length is
/// checked first, then the characters.
pub open spec fn trigger_name_check(name: Seq<char>) -> Result<(), CommandError> {
    if name.len() == 0 || name.len() > MAX_TRIGGER_NAME_LEN {
        Err(CommandError::NameLength)
    } else if !all_alphanumeric(name) {
        Err(CommandError::NameCharset)
    } else {
        Ok(())
    }
}

/// Checks a nickname: one to twenty characters, letters and numbers only.
pub fn validate_trigger_name(name: &str) -> (r: Result<(), CommandError>)
    ensures
        r == trigger_name_check(name@),
{
    let chars = to_chars(name);
    if chars.len() == 0 || chars.len() > MAX_TRIGGER_NAME_LEN {
        Err(CommandError::NameLength)
    } else if !all_alphanumeric_chars(&chars) {
        Err(CommandError::NameCharset)
    } else {
        Ok(())
    }
}

/// What the handler asks of its caller after looking at a message.
#[derive(Clone, Debug, PartialEq, Eq)]
pub enum CommandStep {
    /// The text is no command: handle it as an ordinary message.
    NotACommand,
    /// Relay this text to the conversation; nothing else is to be done.
    Reply { text: String },
    /// Have the AI synthesise a persona prompt from the description, then
    /// report the outcome with [`CommandHandler::persona_generated`].
    GeneratePersona { description: String },
    /// The configuration was changed: persist it, then relay `on_success`,
    /// or `on_failure` followed by the error if persisting failed.
    Persist { on_success: String, on_failure: String },
}

/// The mathematical value of a [`CommandStep`].
pub enum CommandStepView {
    NotACommand,
    Reply { text: Seq<char> },
    GeneratePersona { description: Seq<char> },
    Persist { on_success: Seq<char>, on_failure: Seq<char> },
}

impl View for CommandStep {
    type V = CommandStepView;

    open spec fn view(&self) -> CommandStepView {
        match self {
            CommandStep::NotACommand => CommandStepView::NotACommand,
            CommandStep::Reply { text } => CommandStepView::Reply { text: text@ },
            CommandStep::GeneratePersona { description } => CommandStepView::GeneratePersona {
                description: description@,
            },
            CommandStep::Persist { on_success, on_failure } => CommandStepView::Persist {
                on_success: on_success@,
                on_failure: on_failure@,
            },
        }
    }
}

/// The confirmation sent once a new nickname is stored.
pub open spec fn rename_notice(old_name: Seq<char>, new_name: Seq<char>) -> Seq<char> {
    "✅ Trigger name changed from '"@ + old_name + "' to '"@ + new_name
        + "'. You can now say '"@ + new_name + ", hello!' instead of using @"@
}

/// What executing `command` at time `now` asks of the caller, and the
/// configuration it leaves behind.
pub open spec fn execute_spec(command: Option<CommandView>, config: ChatConfigView, now: i64) -> (
    CommandStepView,
    ChatConfigView,
) {
    match command {
        None => (CommandStepView::NotACommand, config),
        Some(CommandView::Character { description }) => (
            CommandStepView::GeneratePersona { description },
            config,
        ),
        Some(CommandView::Unhinge { enabled }) => (
            CommandStepView::Persist {
                on_success: "✅ Unhinge mode "@ + (if enabled {
                    "enabled"@
                } else {
                    "disabled"@
                }),
                on_failure: "❌ Failed to save unhinge config: "@,
            },
            ChatConfigView { use_ollama: enabled, updated_at: now, ..config },
        ),
        Some(CommandView::Name { trigger_name }) => match trigger_name_check(trigger_name) {
            Err(e) => (CommandStepView::Reply { text: e.message_text() }, config),
            Ok(_) => (
                CommandStepView::Persist {
                    on_success: rename_notice(config.trigger_name, trigger_name),
                    on_failure: "❌ Failed to save trigger name: "@,
                },
                ChatConfigView { trigger_name, updated_at: now, ..config },
            ),
        },
    }
}

/// What the handler asks once the AI has answered the persona request:
/// store the prompt and persist, or relay the failure.
pub open spec fn persona_generated_spec(
    description: Seq<char>,
    outcome: Result<Seq<char>, Seq<char>>,
    config: ChatConfigView,
    now: i64,
) -> (CommandStepView, ChatConfigView) {
    match outcome {
        Ok(prompt) => (
            CommandStepView::Persist {
                on_success: "✅ Character updated! I'm now: "@ + description,
                on_failure: "❌ Failed to save character config: "@,
            },
            ChatConfigView { character_prompt: Some(prompt), updated_at: now, ..config },
        ),
        Err(error) => (
            CommandStepView::Reply {
                text: "❌ Failed to generate character prompt: "@ + error,
            },
            config,
        ),
    }
}

/// The text relayed once persisting has finished.
pub open spec fn persist_finished_spec(
    on_success: Seq<char>,
    on_failure: Seq<char>,
    outcome: Result<(), Seq<char>>,
) -> Seq<char> {
    match outcome {
        Ok(_) => on_success,
        Err(error) => on_failure + error,
    }
}

/// The value of the outcome of an operation that yields a text.
pub open spec fn text_outcome(outcome: Result<String, String>) -> Result<Seq<char>, Seq<char>> {
    match outcome {
        Ok(t) => Ok(t@),
        Err(e) => Err(e@),
    }
}

/// The value of the outcome of an operation that yields nothing.
pub open spec fn unit_outcome(outcome: Result<(), String>) -> Result<(), Seq<char>> {
    match outcome {
        Ok(_) => Ok(()),
        Err(e) => Err(e@),
    }
}

/// Turns recognised commands into configuration changes and reply texts.
/// The handler never talks to the transport, the store or the AI itself:
/// it says what is to be done and is told how it went.
pub struct CommandHandler {
    parser: CommandParser,
}

impl CommandHandler {
    /// A handler with its own parser.
    pub fn new() -> (r: Result<CommandHandler, CommandError>)
        ensures
            r is Ok <==> regex_compiles(CHARACTER_PATTERN@) && regex_compiles(UNHINGE_PATTERN@)
                && regex_compiles(NAME_PATTERN@),
            r is Err ==> r->Err_0 == CommandError::InvalidPattern,
    {
        match CommandParser::new() {
            Ok(parser) => Ok(CommandHandler { parser }),
            Err(e) => Err(e),
        }
    }

    /// The command that `text` stands for, if any.
    pub fn parse(&self, text: &str) -> (r: Option<Command>)
        ensures
            option_command(r) == parse_spec(text@),
    {
        self.parser.parse_command(text)
    }

    /// Carries out an already parsed command.
    pub fn execute(command: Option<Command>, config: &mut ChatConfig, now: i64) -> (r: CommandStep)
        ensures
            (r@, final(config)@) == execute_spec(option_command(command), old(config)@, now),
    {
        match command {
            None => CommandStep::NotACommand,
            Some(Command::Character { description }) => CommandStep::GeneratePersona {
                description,
            },
            Some(Command::Unhinge { enabled }) => {
                config.use_ollama = enabled;
                config.updated_at = now;
                let status = if enabled {
                    "enabled"
                } else {
                    "disabled"
                };
                CommandStep::Persist {
                    on_success: join2("✅ Unhinge mode ", status),
                    on_failure: "❌ Failed to save unhinge config: ".to_owned(),
                }
            },
            Some(Command::Name { trigger_name }) => {
                match validate_trigger_name(trigger_name.as_str()) {
                    Err(e) => CommandStep::Reply { text: e.message() },
                    Ok(_) => {
                        let head = join3(
                            "✅ Trigger name changed from '",
                            config.trigger_name.as_str(),
                            "' to '",
                        );
                        let middle = join3(
                            head.as_str(),
                            trigger_name.as_str(),
                            "'. You can now say '",
                        );
                        let on_success = join3(
                            middle.as_str(),
                            trigger_name.as_str(),
                            ", hello!' instead of using @",
                        );
                        config.trigger_name = trigger_name;
                        config.updated_at = now;
                        CommandStep::Persist {
                            on_success,
                            on_failure: "❌ Failed to save trigger name: ".to_owned(),
                        }
                    },
                }
            },
        }
    }

    /// Looks for a command in `text` and carries it out.
    pub fn handle_command(&self, text: &str, config: &mut ChatConfig, now: i64) -> (r:
        CommandStep)
        ensures
            (r@, final(config)@) == execute_spec(parse_spec(text@), old(config)@, now),
    {
        let command = self.parser.parse_command(text);
        CommandHandler::execute(command, config, now)
    }

    /// Continues a persona command once the AI has answered.
    pub fn persona_generated(
        description: &str,
        outcome: Result<String, String>,
        config: &mut ChatConfig,
        now: i64,
    ) -> (r: CommandStep)
        ensures
            (r@, final(config)@) == persona_generated_spec(
                description@,
                text_outcome(outcome),
                old(config)@,
                now,
            ),
    {
        match outcome {
            Ok(prompt) => {
                config.character_prompt = Some(prompt);
                config.updated_at = now;
                CommandStep::Persist {
                    on_success: join2("✅ Character updated! I'm now: ", description),
                    on_failure: "❌ Failed to save character config: ".to_owned(),
                }
            },
            Err(error) => CommandStep::Reply {
                text: join2("❌ Failed to generate character prompt: ", error.as_str()),
            },
        }
    }

    /// The text to relay once persisting has finished.
    pub fn persist_finished(on_success: String, on_failure: String, outcome: Result<(), String>) -> (r:
        String)
        ensures
            r@ == persist_finished_spec(on_success@, on_failure@, unit_outcome(outcome)),
    {
        match outcome {
            Ok(_) => on_success,
            Err(error) => join2(on_failure.as_str(), error.as_str()),
        }
    }
}

} // verus!
