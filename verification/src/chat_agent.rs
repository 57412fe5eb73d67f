//! The per-conversation actor, as a state machine.
//!
//! An actor owns the configuration of one conversation and the window of
//! its recent turns. It handles one work item at a time. Everything that
//! needs the outside world (the AI, the transport, the store, the mailbox)
//! is requested through an [`AgentAction`]; the caller carries the action
//! out and reports back with an [`AgentEvent`]. The actor itself only
//! decides.

use crate::commands::{
    execute_spec, option_command, parse_spec, persist_finished_spec, persona_generated_spec,
    regex_compiles, Command, CommandError, CommandHandler, CommandStep, CommandStepView,
    CommandView, CHARACTER_PATTERN, NAME_PATTERN, UNHINGE_PATTERN,
};
use crate::text::{matches_at, slice_chars, starts_with_seq, to_chars};
use crate::types::{
    append_turn, lemma_turn_views_append, option_text, system_prompt_of, turn_views,
    window_append, ChatConfig, ChatConfigView, Message,
    MessageRole, MessageView, QueuedMessage, QueuedMessageView, WINDOW_LIMIT,
};
use std::collections::VecDeque;
use vstd::prelude::*;

verus! {

/// How a reply that asks for a picture begins. The JSON arguments follow,
/// up to the first closing bracket.
pub const TOOL_CALL_PREFIX: &'static str = "[TOOL_CALL:request_picture:";

/// The member of the arguments that describes the picture.
pub const DESCRIPTION_KEY: &'static str = "description";

/// The turn recorded once a picture has been sent.
pub const IMAGE_SENT_NOTICE: &'static str = "✅ Generated and sent a picture!";

/// The turn recorded when a picture could not be made or sent.
pub const IMAGE_FAILED_NOTICE: &'static str = "❌ Failed to generate image. Please try again.";

/// What the user is told when handling a work item failed.
pub const APOLOGY: &'static str = "❌ Error processing message. Please try again.";

/// The file name under which a generated picture is sent.
pub const IMAGE_FILENAME: &'static str = "generated-image.png";

/// What stands for the failure of an operation that was answered with an
/// event of the wrong kind.
pub const UNEXPECTED_EVENT: &'static str = "unexpected event";

/// The text of the member `key` of the JSON document `json`, as
/// `serde_json` reads it: `None` where `json` is no JSON document, has no
/// such member, or the member is not a string.
pub uninterp spec fn json_text_member(json: Seq<char>, key: Seq<char>) -> Option<Seq<char>>;

/// Parses `json` with `serde_json::from_str` into a `serde_json::Value`,
/// looks `key` up with `Value::get` and reads the member with
/// `Value::as_str`. The contract names the result without restating the
/// JSON grammar.
#[verifier::external_body]
fn text_member(json: &str, key: &str) -> (r: Option<String>)
    ensures
        option_text(r) == json_text_member(json@, key@),
{
    match serde_json::from_str::<serde_json::Value>(json) {
        Err(_) => None,
        Ok(document) => match document.get(key) {
            None => None,
            Some(member) => match member.as_str() {
                None => None,
                Some(text) => Some(text.to_string()),
            },
        },
    }
}

/// The index of the first `stop` in `s` at or after `from`, or the length
/// of `s` where there is none.
pub open spec fn scan_to(s: Seq<char>, from: int, stop: char) -> int
    decreases s.len() - from,
{
    if from < 0 || from >= s.len() || s[from] == stop {
        from
    } else {
        scan_to(s, from + 1, stop)
    }
}

/// The arguments of a reply that asks for a picture: what stands between
/// the prefix and the first closing bracket after it. `None` for a reply
/// that does not begin with the prefix.
pub open spec fn tool_call_arguments(reply: Seq<char>) -> Option<Seq<char>> {
    if starts_with_seq(reply, TOOL_CALL_PREFIX@) {
        let start = TOOL_CALL_PREFIX@.len() as int;
        Some(reply.subrange(start, scan_to(reply, start, ']')))
    } else {
        None
    }
}

/// The description of the picture that a reply asks for, if it asks for
/// one.
pub open spec fn image_request(reply: Seq<char>) -> Option<Seq<char>> {
    match tool_call_arguments(reply) {
        Some(arguments) => json_text_member(arguments, DESCRIPTION_KEY@),
        None => None,
    }
}

/// The arguments of a reply that asks for a picture.
pub fn extract_tool_call_arguments(reply: &str) -> (r: Option<String>)
    ensures
        option_text(r) == tool_call_arguments(reply@),
{
    let chars = to_chars(reply);
    let prefix = to_chars(TOOL_CALL_PREFIX);
    if !matches_at(&chars, &prefix, 0) {
        return None;
    }
    let start: usize = prefix.len();
    let mut end: usize = start;
    while end < chars.len() && chars[end] != ']'
        invariant
            start <= end <= chars.len(),
            scan_to(chars@, start as int, ']') == scan_to(chars@, end as int, ']'),
        decreases chars.len() - end,
    {
        end += 1;
    }
    Some(slice_chars(reply, start, end))
}

/// The description of the picture that a reply asks for, if it asks for
/// one.
pub fn parse_image_request(reply: &str) -> (r: Option<String>)
    ensures
        option_text(r) == image_request(reply@),
{
    match extract_tool_call_arguments(reply) {
        Some(arguments) => text_member(arguments.as_str(), DESCRIPTION_KEY),
        None => None,
    }
}

/// What arrives in an actor's mailbox.
#[derive(Clone, Debug, PartialEq, Eq)]
pub enum ChatAgentMessage {
    ProcessMessage(QueuedMessage),
    Shutdown,
}

/// The mathematical value of a [`ChatAgentMessage`].
pub enum ChatAgentMessageView {
    ProcessMessage(QueuedMessageView),
    Shutdown,
}

impl View for ChatAgentMessage {
    type V = ChatAgentMessageView;

    open spec fn view(&self) -> ChatAgentMessageView {
        match self {
            ChatAgentMessage::ProcessMessage(m) => ChatAgentMessageView::ProcessMessage(m@),
            ChatAgentMessage::Shutdown => ChatAgentMessageView::Shutdown,
        }
    }
}

/// What the caller reports to the actor.
#[derive(Clone, Debug, PartialEq, Eq)]
pub enum AgentEvent {
    /// An item was taken from the mailbox.
    Mail(ChatAgentMessage),
    /// The mailbox is closed: no item will ever arrive.
    MailboxClosed,
    /// The requested operation succeeded and yields nothing.
    Done,
    /// The requested operation succeeded and yields a text.
    Text(String),
    /// The requested operation succeeded and yields bytes.
    Bytes(Vec<u8>),
    /// The requested operation failed, for the given reason.
    Failed(String),
}

/// The mathematical value of an [`AgentEvent`].
pub enum AgentEventView {
    Mail(ChatAgentMessageView),
    MailboxClosed,
    Done,
    Text(Seq<char>),
    Bytes(Seq<u8>),
    Failed(Seq<char>),
}

impl View for AgentEvent {
    type V = AgentEventView;

    open spec fn view(&self) -> AgentEventView {
        match self {
            AgentEvent::Mail(m) => AgentEventView::Mail(m@),
            AgentEvent::MailboxClosed => AgentEventView::MailboxClosed,
            AgentEvent::Done => AgentEventView::Done,
            AgentEvent::Text(t) => AgentEventView::Text(t@),
            AgentEvent::Bytes(b) => AgentEventView::Bytes(b@),
            AgentEvent::Failed(e) => AgentEventView::Failed(e@),
        }
    }
}

/// What the actor asks of the caller.
#[derive(Clone, Debug, PartialEq, Eq)]
pub enum AgentAction {
    /// Take the next item from the mailbox and report it.
    Receive,
    /// The actor has terminated: stop driving it.
    Stop,
    /// Have the AI synthesise a persona prompt; report the text.
    GeneratePersona { description: String },
    /// Persist the configuration.
    SaveConfig { config: ChatConfig },
    /// Send a text to the conversation.
    SendText { text: String },
    /// Append a turn to the durable log.
    SaveTurn { turn: Message },
    /// Have the AI generate a reply; report the text.
    GenerateReply {
        history: Vec<Message>,
        system_prompt: String,
        use_ollama: bool,
        allow_image_tool: bool,
    },
    /// Have the AI generate a picture; report the bytes.
    GenerateImage { description: String },
    /// Send a file to the conversation.
    SendAttachment { bytes: Vec<u8>, filename: String },
}

/// The mathematical value of an [`AgentAction`].
pub enum AgentActionView {
    Receive,
    Stop,
    GeneratePersona { description: Seq<char> },
    SaveConfig { config: ChatConfigView },
    SendText { text: Seq<char> },
    SaveTurn { turn: MessageView },
    GenerateReply {
        history: Seq<MessageView>,
        system_prompt: Seq<char>,
        use_ollama: bool,
        allow_image_tool: bool,
    },
    GenerateImage { description: Seq<char> },
    SendAttachment { bytes: Seq<u8>, filename: Seq<char> },
}

impl View for AgentAction {
    type V = AgentActionView;

    open spec fn view(&self) -> AgentActionView {
        match self {
            AgentAction::Receive => AgentActionView::Receive,
            AgentAction::Stop => AgentActionView::Stop,
            AgentAction::GeneratePersona { description } => AgentActionView::GeneratePersona {
                description: description@,
            },
            AgentAction::SaveConfig { config } => AgentActionView::SaveConfig { config: config@ },
            AgentAction::SendText { text } => AgentActionView::SendText { text: text@ },
            AgentAction::SaveTurn { turn } => AgentActionView::SaveTurn { turn: turn@ },
            AgentAction::GenerateReply {
                history,
                system_prompt,
                use_ollama,
                allow_image_tool,
            } => AgentActionView::GenerateReply {
                history: turn_views(history@),
                system_prompt: system_prompt@,
                use_ollama: *use_ollama,
                allow_image_tool: *allow_image_tool,
            },
            AgentAction::GenerateImage { description } => AgentActionView::GenerateImage {
                description: description@,
            },
            AgentAction::SendAttachment { bytes, filename } => AgentActionView::SendAttachment {
                bytes: bytes@,
                filename: filename@,
            },
        }
    }
}

/// What the actor is waiting for.
#[derive(Clone, Debug, PartialEq, Eq)]
pub enum AgentPhase {
    /// The next mailbox item.
    Idle,
    /// The persona prompt for a persona command.
    Persona { description: String },
    /// The store, persisting the configuration that a command changed.
    CommandPersist { on_success: String, on_failure: String, clear_window: bool },
    /// The transport, sending a command's result.
    CommandReply { clear_window: bool },
    /// The store, persisting the configuration ahead of a user's turn.
    EnsureConfig { turn: Message },
    /// The store, appending the user's turn.
    UserTurn,
    /// The AI's reply.
    Reply,
    /// The picture that the AI's reply asked for.
    Image,
    /// The transport, sending the picture.
    Attachment,
    /// The transport, sending a text that becomes the assistant's turn.
    Relay { text: String },
    /// The store, appending the assistant's turn.
    AssistantTurn,
    /// The transport, sending the apology.
    Apology,
    /// Nothing: the actor has terminated.
    Terminated,
}

/// The mathematical value of an [`AgentPhase`].
pub enum AgentPhaseView {
    Idle,
    Persona { description: Seq<char> },
    CommandPersist { on_success: Seq<char>, on_failure: Seq<char>, clear_window: bool },
    CommandReply { clear_window: bool },
    EnsureConfig { turn: MessageView },
    UserTurn,
    Reply,
    Image,
    Attachment,
    Relay { text: Seq<char> },
    AssistantTurn,
    Apology,
    Terminated,
}

impl View for AgentPhase {
    type V = AgentPhaseView;

    open spec fn view(&self) -> AgentPhaseView {
        match self {
            AgentPhase::Idle => AgentPhaseView::Idle,
            AgentPhase::Persona { description } => AgentPhaseView::Persona {
                description: description@,
            },
            AgentPhase::CommandPersist {
                on_success,
                on_failure,
                clear_window,
            } => AgentPhaseView::CommandPersist {
                on_success: on_success@,
                on_failure: on_failure@,
                clear_window: *clear_window,
            },
            AgentPhase::CommandReply { clear_window } => AgentPhaseView::CommandReply {
                clear_window: *clear_window,
            },
            AgentPhase::EnsureConfig { turn } => AgentPhaseView::EnsureConfig { turn: turn@ },
            AgentPhase::UserTurn => AgentPhaseView::UserTurn,
            AgentPhase::Reply => AgentPhaseView::Reply,
            AgentPhase::Image => AgentPhaseView::Image,
            AgentPhase::Attachment => AgentPhaseView::Attachment,
            AgentPhase::Relay { text } => AgentPhaseView::Relay { text: text@ },
            AgentPhase::AssistantTurn => AgentPhaseView::AssistantTurn,
            AgentPhase::Apology => AgentPhaseView::Apology,
            AgentPhase::Terminated => AgentPhaseView::Terminated,
        }
    }
}

/// The mathematical value of a [`ChatAgent`].
pub struct AgentView {
    pub chat_guid: Seq<char>,
    pub config: ChatConfigView,
    pub window: Seq<MessageView>,
    pub phase: AgentPhaseView,
}

/// The outcome that an event reports of an operation that yields nothing.
pub open spec fn unit_result(event: AgentEventView) -> Result<(), Seq<char>> {
    match event {
        AgentEventView::Done => Ok(()),
        AgentEventView::Failed(e) => Err(e),
        _ => Err(UNEXPECTED_EVENT@),
    }
}

/// The outcome that an event reports of an operation that yields a text.
pub open spec fn text_result(event: AgentEventView) -> Result<Seq<char>, Seq<char>> {
    match event {
        AgentEventView::Text(t) => Ok(t),
        AgentEventView::Failed(e) => Err(e),
        _ => Err(UNEXPECTED_EVENT@),
    }
}

/// The outcome that an event reports of an operation that yields bytes.
pub open spec fn bytes_result(event: AgentEventView) -> Result<Seq<u8>, Seq<char>> {
    match event {
        AgentEventView::Bytes(b) => Ok(b),
        AgentEventView::Failed(e) => Err(e),
        _ => Err(UNEXPECTED_EVENT@),
    }
}

/// Giving up on the work item: the user is sent the apology.
pub open spec fn apologise(s: AgentView) -> (AgentView, AgentActionView) {
    (AgentView { phase: AgentPhaseView::Apology, ..s }, AgentActionView::SendText { text: APOLOGY@ })
}

/// Going back to the mailbox.
pub open spec fn rest(s: AgentView) -> (AgentView, AgentActionView) {
    (AgentView { phase: AgentPhaseView::Idle, ..s }, AgentActionView::Receive)
}

/// Sending a text that becomes the assistant's turn once it is sent.
pub open spec fn relay(s: AgentView, text: Seq<char>) -> (AgentView, AgentActionView) {
    (AgentView { phase: AgentPhaseView::Relay { text }, ..s }, AgentActionView::SendText { text })
}

/// What follows from what the command handler asks, for a command whose
/// reply clears the window or not.
pub open spec fn follow_command(
    s: AgentView,
    step: CommandStepView,
    config: ChatConfigView,
    clear_window: bool,
) -> (AgentView, AgentActionView) {
    match step {
        CommandStepView::NotACommand => rest(s),
        CommandStepView::Reply { text } => (
            AgentView { config, phase: AgentPhaseView::CommandReply { clear_window }, ..s },
            AgentActionView::SendText { text },
        ),
        CommandStepView::GeneratePersona { description } => (
            AgentView { config, phase: AgentPhaseView::Persona { description }, ..s },
            AgentActionView::GeneratePersona { description },
        ),
        CommandStepView::Persist { on_success, on_failure } => (
            AgentView {
                config,
                phase: AgentPhaseView::CommandPersist { on_success, on_failure, clear_window },
                ..s
            },
            AgentActionView::SaveConfig { config },
        ),
    }
}

/// Taking up a work item whose text stands for `command`.
///
/// A command is carried out and never touches the window. Any other text
/// becomes a user's turn: it is appended to the window, and the
/// configuration is persisted before the turn is.
pub open spec fn work_spec(
    s: AgentView,
    command: Option<CommandView>,
    text: Seq<char>,
    timestamp: i64,
    now: i64,
) -> (AgentView, AgentActionView) {
    let (step, config) = execute_spec(command, s.config, now);
    match step {
        CommandStepView::NotACommand => {
            let turn = MessageView { role: MessageRole::User, content: text, timestamp };
            (
                AgentView {
                    window: window_append(s.window, turn),
                    phase: AgentPhaseView::EnsureConfig { turn },
                    ..s
                },
                AgentActionView::SaveConfig { config: s.config },
            )
        },
        _ => follow_command(s, step, config, false),
    }
}

/// Handling the AI's reply, given the picture it asks for, if any.
pub open spec fn reply_spec(s: AgentView, reply: Seq<char>, request: Option<Seq<char>>) -> (
    AgentView,
    AgentActionView,
) {
    match request {
        Some(description) => (
            AgentView { phase: AgentPhaseView::Image, ..s },
            AgentActionView::GenerateImage { description },
        ),
        None => relay(s, reply),
    }
}

/// The actor's transition: the state and the action that follow from the
/// state `s` and the event `event` at time `now`.
pub open spec fn step_spec(s: AgentView, event: AgentEventView, now: i64) -> (
    AgentView,
    AgentActionView,
) {
    match s.phase {
        AgentPhaseView::Idle => match event {
            AgentEventView::Mail(ChatAgentMessageView::ProcessMessage(m)) => work_spec(
                s,
                parse_spec(m.text),
                m.text,
                m.timestamp,
                now,
            ),
            AgentEventView::Mail(ChatAgentMessageView::Shutdown)
            | AgentEventView::MailboxClosed => (
                AgentView { phase: AgentPhaseView::Terminated, ..s },
                AgentActionView::Stop,
            ),
            _ => rest(s),
        },
        AgentPhaseView::Persona { description } => {
            let (step, config) = persona_generated_spec(
                description,
                text_result(event),
                s.config,
                now,
            );
            follow_command(s, step, config, true)
        },
        AgentPhaseView::CommandPersist { on_success, on_failure, clear_window } => (
            AgentView { phase: AgentPhaseView::CommandReply { clear_window }, ..s },
            AgentActionView::SendText {
                text: persist_finished_spec(on_success, on_failure, unit_result(event)),
            },
        ),
        AgentPhaseView::CommandReply { clear_window } => match unit_result(event) {
            Ok(_) => rest(
                AgentView {
                    window: if clear_window {
                        Seq::<MessageView>::empty()
                    } else {
                        s.window
                    },
                    ..s
                },
            ),
            Err(_) => apologise(s),
        },
        AgentPhaseView::EnsureConfig { turn } => match unit_result(event) {
            Ok(_) => (
                AgentView { phase: AgentPhaseView::UserTurn, ..s },
                AgentActionView::SaveTurn { turn },
            ),
            Err(_) => apologise(s),
        },
        AgentPhaseView::UserTurn => match unit_result(event) {
            Ok(_) => (
                AgentView { phase: AgentPhaseView::Reply, ..s },
                AgentActionView::GenerateReply {
                    history: s.window,
                    system_prompt: system_prompt_of(s.config),
                    use_ollama: s.config.use_ollama,
                    allow_image_tool: true,
                },
            ),
            Err(_) => apologise(s),
        },
        AgentPhaseView::Reply => match text_result(event) {
            Ok(reply) => reply_spec(s, reply, image_request(reply)),
            Err(_) => apologise(s),
        },
        AgentPhaseView::Image => match bytes_result(event) {
            Ok(bytes) => (
                AgentView { phase: AgentPhaseView::Attachment, ..s },
                AgentActionView::SendAttachment { bytes, filename: IMAGE_FILENAME@ },
            ),
            Err(_) => relay(s, IMAGE_FAILED_NOTICE@),
        },
        AgentPhaseView::Attachment => match unit_result(event) {
            Ok(_) => relay(s, IMAGE_SENT_NOTICE@),
            Err(_) => relay(s, IMAGE_FAILED_NOTICE@),
        },
        AgentPhaseView::Relay { text } => match unit_result(event) {
            Ok(_) => {
                let turn = MessageView {
                    role: MessageRole::Assistant,
                    content: text,
                    timestamp: now,
                };
                (
                    AgentView {
                        window: window_append(s.window, turn),
                        phase: AgentPhaseView::AssistantTurn,
                        ..s
                    },
                    AgentActionView::SaveTurn { turn },
                )
            },
            Err(_) => apologise(s),
        },
        AgentPhaseView::AssistantTurn => match unit_result(event) {
            Ok(_) => rest(s),
            Err(_) => apologise(s),
        },
        AgentPhaseView::Apology => rest(s),
        AgentPhaseView::Terminated => (s, AgentActionView::Stop),
    }
}

/// The actor of one conversation.
pub struct ChatAgent {
    chat_guid: String,
    config: ChatConfig,
    context: VecDeque<Message>,
    command_handler: CommandHandler,
    phase: AgentPhase,
}

impl View for ChatAgent {
    type V = AgentView;

    closed spec fn view(&self) -> AgentView {
        AgentView {
            chat_guid: self.chat_guid@,
            config: self.config@,
            window: turn_views(self.context@),
            phase: self.phase@,
        }
    }
}

/// A copy of the turns of a window, oldest first.
pub fn copy_window(window: &VecDeque<Message>) -> (r: Vec<Message>)
    ensures
        turn_views(r@) == turn_views(window@),
{
    let mut r: Vec<Message> = Vec::new();
    let mut i: usize = 0;
    while i < window.len()
        invariant
            i <= window@.len(),
            turn_views(r@) == turn_views(window@).subrange(0, i as int),
        decreases window@.len() - i,
    {
        let ghost before = r@;
        let turn = window[i].duplicate();
        r.push(turn);
        assert(turn_views(r@) =~= turn_views(before).push(window@[i as int]@));
        i += 1;
        assert(turn_views(r@) =~= turn_views(window@).subrange(0, i as int));
    }
    assert(turn_views(r@) =~= turn_views(window@));
    r
}

/// The window loaded from the most recent stored turns, oldest first: the
/// last ones, up to the limit.
pub fn window_from(recent: Vec<Message>) -> (r: VecDeque<Message>)
    ensures
        r@.len() <= WINDOW_LIMIT,
        r@ == crate::types::keep_last(recent@, WINDOW_LIMIT as int),
{
    let mut window: VecDeque<Message> = VecDeque::new();
    let ghost all = recent@;
    let mut recent = recent;
    let n: usize = recent.len();
    let skip: usize = if n > WINDOW_LIMIT {
        n - WINDOW_LIMIT
    } else {
        0
    };
    let mut i: usize = n;
    while i > skip
        invariant
            skip <= i <= n,
            n == all.len(),
            recent@ == all.subrange(0, i as int),
            window@ == all.subrange(i as int, n as int),
        decreases i,
    {
        let turn = recent.pop().unwrap();
        window.push_front(turn);
        i -= 1;
        assert(recent@ =~= all.subrange(0, i as int));
        assert(window@ =~= all.subrange(i as int, n as int));
    }
    assert(all.subrange(0, n as int) =~= all);
    window
}

impl ChatAgent {
    /// An idle actor for the conversation `chat_guid`. It takes up the
    /// stored configuration, or the defaults with the given global
    /// triggers where none is stored, and the most recent stored turns.
    /// Fails where the command grammar cannot be set up.
    pub fn new(
        chat_guid: String,
        global_triggers: Vec<String>,
        stored: Option<ChatConfig>,
        recent: Vec<Message>,
        now: i64,
    ) -> (r: Result<ChatAgent, CommandError>)
        ensures
            r is Ok <==> regex_compiles(CHARACTER_PATTERN@) && regex_compiles(UNHINGE_PATTERN@)
                && regex_compiles(NAME_PATTERN@),
            r is Err ==> r->Err_0 == CommandError::InvalidPattern,
            r matches Ok(agent) ==> agent@.window.len() <= WINDOW_LIMIT && agent@ == (AgentView {
                chat_guid: chat_guid@,
                config: match stored {
                    Some(c) => c@,
                    None => ChatConfigView {
                        chat_guid: chat_guid@,
                        character_prompt: None,
                        triggers: global_triggers.deep_view(),
                        trigger_name: crate::types::DEFAULT_TRIGGER_NAME@,
                        use_ollama: false,
                        created_at: now,
                        updated_at: now,
                    },
                },
                window: turn_views(crate::types::keep_last(recent@, WINDOW_LIMIT as int)),
                phase: AgentPhaseView::Idle,
            }),
    {
        let command_handler = match CommandHandler::new() {
            Ok(handler) => handler,
            Err(e) => {
                return Err(e);
            },
        };
        let config = match stored {
            Some(c) => c,
            None => ChatConfig::with_defaults(chat_guid.clone(), global_triggers, now),
        };
        let context = window_from(recent);
        Ok(ChatAgent { chat_guid, config, context, command_handler, phase: AgentPhase::Idle })
    }

    /// The conversation that the actor serves.
    pub fn chat_guid(&self) -> (r: &String)
        ensures
            r@ == self@.chat_guid,
    {
        &self.chat_guid
    }

    /// The configuration of the conversation.
    pub fn config(&self) -> (r: &ChatConfig)
        ensures
            r@ == self@.config,
    {
        &self.config
    }

    /// The window of recent turns, oldest first.
    pub fn window(&self) -> (r: Vec<Message>)
        ensures
            turn_views(r@) == self@.window,
    {
        copy_window(&self.context)
    }

    /// What the actor is waiting for.
    pub fn phase(&self) -> (r: &AgentPhase)
        ensures
            r@ == self@.phase,
    {
        &self.phase
    }

    /// Whether the actor has terminated.
    pub fn is_terminated(&self) -> (r: bool)
        ensures
            r == (self@.phase is Terminated),
    {
        match self.phase {
            AgentPhase::Terminated => true,
            _ => false,
        }
    }

    fn apologise(&mut self) -> (action: AgentAction)
        ensures
            (final(self)@, action@) == apologise(old(self)@),
    {
        self.phase = AgentPhase::Apology;
        AgentAction::SendText { text: APOLOGY.to_owned() }
    }

    fn rest(&mut self) -> (action: AgentAction)
        ensures
            (final(self)@, action@) == rest(old(self)@),
    {
        self.phase = AgentPhase::Idle;
        AgentAction::Receive
    }

    fn relay(&mut self, text: String) -> (action: AgentAction)
        ensures
            (final(self)@, action@) == relay(old(self)@, text@),
    {
        self.phase = AgentPhase::Relay { text: text.clone() };
        AgentAction::SendText { text }
    }

    fn follow_command(&mut self, step: CommandStep, clear_window: bool) -> (action: AgentAction)
        ensures
            (final(self)@, action@) == follow_command(
                old(self)@,
                step@,
                old(self)@.config,
                clear_window,
            ),
    {
        match step {
            CommandStep::NotACommand => self.rest(),
            CommandStep::Reply { text } => {
                self.phase = AgentPhase::CommandReply { clear_window };
                AgentAction::SendText { text }
            },
            CommandStep::GeneratePersona { description } => {
                self.phase = AgentPhase::Persona { description: description.clone() };
                AgentAction::GeneratePersona { description }
            },
            CommandStep::Persist { on_success, on_failure } => {
                self.phase = AgentPhase::CommandPersist { on_success, on_failure, clear_window };
                AgentAction::SaveConfig { config: self.config.duplicate() }
            },
        }
    }

    /// Takes up a work item whose text has been parsed to `command`.
    pub fn work_parsed(
        &mut self,
        command: Option<Command>,
        text: String,
        timestamp: i64,
        now: i64,
    ) -> (action: AgentAction)
        ensures
            old(self)@.window.len() <= WINDOW_LIMIT ==> final(self)@.window.len() <= WINDOW_LIMIT,
            (final(self)@, action@) == work_spec(
                old(self)@,
                option_command(command),
                text@,
                timestamp,
                now,
            ),
    {
        let step = CommandHandler::execute(command, &mut self.config, now);
        match step {
            CommandStep::NotACommand => {
                let turn = Message { role: MessageRole::User, content: text, timestamp };
                let kept = turn.duplicate();
                proof {
                    lemma_turn_views_append(self.context@, kept);
                }
                append_turn(&mut self.context, kept);
                self.phase = AgentPhase::EnsureConfig { turn };
                AgentAction::SaveConfig { config: self.config.duplicate() }
            },
            _ => self.follow_command(step, false),
        }
    }

    /// Handles the AI's reply, given the picture it asks for, if any.
    pub fn reply_parsed(&mut self, reply: String, request: Option<String>) -> (action:
        AgentAction)
        ensures
            old(self)@.window.len() <= WINDOW_LIMIT ==> final(self)@.window.len() <= WINDOW_LIMIT,
            (final(self)@, action@) == reply_spec(old(self)@, reply@, option_text(request)),
    {
        match request {
            Some(description) => {
                self.phase = AgentPhase::Image;
                AgentAction::GenerateImage { description }
            },
            None => self.relay(reply),
        }
    }

    /// Advances the actor by one event: updates its state and says what is
    /// to be done next. `now` is the current time in milliseconds since
    /// the Unix epoch.
    pub fn step(&mut self, event: AgentEvent, now: i64) -> (action: AgentAction)
        ensures
            old(self)@.window.len() <= WINDOW_LIMIT ==> final(self)@.window.len() <= WINDOW_LIMIT,
            (final(self)@, action@) == step_spec(old(self)@, event@, now),
    {
        let mut phase = AgentPhase::Idle;
        std::mem::swap(&mut self.phase, &mut phase);
        match phase {
            AgentPhase::Idle => match event {
                AgentEvent::Mail(ChatAgentMessage::ProcessMessage(m)) => {
                    let command = self.command_handler.parse(m.text.as_str());
                    self.work_parsed(command, m.text, m.timestamp, now)
                },
                AgentEvent::Mail(ChatAgentMessage::Shutdown) | AgentEvent::MailboxClosed => {
                    self.phase = AgentPhase::Terminated;
                    AgentAction::Stop
                },
                _ => self.rest(),
            },
            AgentPhase::Persona { description } => {
                let outcome = match event {
                    AgentEvent::Text(t) => Ok(t),
                    AgentEvent::Failed(e) => Err(e),
                    _ => Err(UNEXPECTED_EVENT.to_owned()),
                };
                let step = CommandHandler::persona_generated(
                    description.as_str(),
                    outcome,
                    &mut self.config,
                    now,
                );
                self.follow_command(step, true)
            },
            AgentPhase::CommandPersist { on_success, on_failure, clear_window } => {
                let outcome = ChatAgent::unit_outcome_of(event);
                let text = CommandHandler::persist_finished(on_success, on_failure, outcome);
                self.phase = AgentPhase::CommandReply { clear_window };
                AgentAction::SendText { text }
            },
            AgentPhase::CommandReply { clear_window } => match ChatAgent::unit_outcome_of(event) {
                Ok(_) => {
                    if clear_window {
                        self.context.clear();
                        assert(turn_views(self.context@) =~= Seq::<MessageView>::empty());
                    }
                    self.rest()
                },
                Err(_) => self.apologise(),
            },
            AgentPhase::EnsureConfig { turn } => match ChatAgent::unit_outcome_of(event) {
                Ok(_) => {
                    self.phase = AgentPhase::UserTurn;
                    AgentAction::SaveTurn { turn }
                },
                Err(_) => self.apologise(),
            },
            AgentPhase::UserTurn => match ChatAgent::unit_outcome_of(event) {
                Ok(_) => {
                    self.phase = AgentPhase::Reply;
                    AgentAction::GenerateReply {
                        history: copy_window(&self.context),
                        system_prompt: self.config.get_system_prompt(),
                        use_ollama: self.config.use_ollama,
                        allow_image_tool: true,
                    }
                },
                Err(_) => self.apologise(),
            },
            AgentPhase::Reply => match event {
                AgentEvent::Text(reply) => {
                    let request = parse_image_request(reply.as_str());
                    self.reply_parsed(reply, request)
                },
                _ => self.apologise(),
            },
            AgentPhase::Image => match event {
                AgentEvent::Bytes(bytes) => {
                    self.phase = AgentPhase::Attachment;
                    AgentAction::SendAttachment { bytes, filename: IMAGE_FILENAME.to_owned() }
                },
                _ => self.relay(IMAGE_FAILED_NOTICE.to_owned()),
            },
            AgentPhase::Attachment => match ChatAgent::unit_outcome_of(event) {
                Ok(_) => self.relay(IMAGE_SENT_NOTICE.to_owned()),
                Err(_) => self.relay(IMAGE_FAILED_NOTICE.to_owned()),
            },
            AgentPhase::Relay { text } => match ChatAgent::unit_outcome_of(event) {
                Ok(_) => {
                    let turn = Message {
                        role: MessageRole::Assistant,
                        content: text,
                        timestamp: now,
                    };
                    let kept = turn.duplicate();
                    proof {
                        lemma_turn_views_append(self.context@, kept);
                    }
                    append_turn(&mut self.context, kept);
                    self.phase = AgentPhase::AssistantTurn;
                    AgentAction::SaveTurn { turn }
                },
                Err(_) => self.apologise(),
            },
            AgentPhase::AssistantTurn => match ChatAgent::unit_outcome_of(event) {
                Ok(_) => self.rest(),
                Err(_) => self.apologise(),
            },
            AgentPhase::Apology => self.rest(),
            AgentPhase::Terminated => {
                self.phase = AgentPhase::Terminated;
                AgentAction::Stop
            },
        }
    }

    /// Advances the actor by one event, at the current time of the system
    /// clock. Whatever the clock says, the step taken is the one that
    /// [`step_spec`] gives for that time.
    pub fn handle(&mut self, event: AgentEvent) -> (action: AgentAction)
        ensures
            old(self)@.window.len() <= WINDOW_LIMIT ==> final(self)@.window.len() <= WINDOW_LIMIT,
            exists|now: i64| (final(self)@, action@) == step_spec(old(self)@, event@, now),
    {
        let now: i64 = crate::clock::now_millis();
        self.step(event, now)
    }

    fn unit_outcome_of(event: AgentEvent) -> (r: Result<(), String>)
        ensures
            crate::commands::unit_outcome(r) == unit_result(event@),
    {
        match event {
            AgentEvent::Done => Ok(()),
            AgentEvent::Failed(e) => Err(e),
            _ => Err(UNEXPECTED_EVENT.to_owned()),
        }
    }
}

/// Whatever happens, the window stays within its limit, the actor keeps
/// serving the same conversation, and an actor that has terminated stays
/// terminated and changes no more.
pub proof fn lemma_step_invariants(s: AgentView, event: AgentEventView, now: i64)
    requires
        s.window.len() <= WINDOW_LIMIT,
    ensures
        step_spec(s, event, now).0.window.len() <= WINDOW_LIMIT,
        step_spec(s, event, now).0.chat_guid == s.chat_guid,
        s.phase is Terminated ==> step_spec(s, event, now) == (s, AgentActionView::Stop),
{
}

/// A step leaves the window as it was, appends one turn to it, or empties
/// it. It is emptied only when the reply to a persona command has been
/// sent, and a turn is appended only for a user's message that is no
/// command and for a text of the assistant that has been sent.
pub proof fn lemma_step_window(s: AgentView, event: AgentEventView, now: i64)
    ensures
        ({
            let after = step_spec(s, event, now).0;
            &&& after.window != s.window ==> {
                ||| s.phase == (AgentPhaseView::CommandReply { clear_window: true })
                    && event is Done && after.window.len() == 0
                ||| s.phase is Idle && event is Mail && after.phase is EnsureConfig
                    && after.window == window_append(s.window, after.phase->EnsureConfig_turn)
                ||| s.phase is Relay && event is Done && after.window == window_append(
                    s.window,
                    MessageView {
                        role: MessageRole::Assistant,
                        content: s.phase->Relay_text,
                        timestamp: now,
                    },
                )
            }
            &&& after.config != s.config ==> s.phase is Idle || s.phase is Persona
        }),
{
}

} // verus!
