//! The data model: turns, conversation configuration, the bounded window of
//! recent turns, and the wire shapes of the chat transport.

use std::collections::VecDeque;
use vstd::prelude::*;

verus! {

/// The window of recent turns never holds more than this many entries.
pub const WINDOW_LIMIT: usize = 10;

/// Who wrote a turn.
#[derive(Clone, Copy, Debug, PartialEq, Eq, Structural)]
pub enum MessageRole {
    User,
    Assistant,
    System,
}

/// The name under which a role is stored and sent to the AI providers.
pub open spec fn role_name(role: MessageRole) -> Seq<char> {
    match role {
        MessageRole::User => "user"@,
        MessageRole::Assistant => "assistant"@,
        MessageRole::System => "system"@,
    }
}

impl MessageRole {
    /// The stored name of the role.
    pub fn as_str(&self) -> (r: &'static str)
        ensures
            r@ == role_name(*self),
    {
        match self {
            MessageRole::User => "user",
            MessageRole::Assistant => "assistant",
            MessageRole::System => "system",
        }
    }
}

/// One turn of a conversation. The timestamp counts milliseconds since the
/// Unix epoch.
#[derive(Clone, Debug, PartialEq, Eq)]
pub struct Message {
    pub role: MessageRole,
    pub content: String,
    pub timestamp: i64,
}

/// The mathematical value of a [`Message`].
pub struct MessageView {
    pub role: MessageRole,
    pub content: Seq<char>,
    pub timestamp: i64,
}

impl View for Message {
    type V = MessageView;

    open spec fn view(&self) -> MessageView {
        MessageView { role: self.role, content: self.content@, timestamp: self.timestamp }
    }
}

impl Message {
    /// A copy of the turn.
    pub fn duplicate(&self) -> (r: Message)
        ensures
            r@ == self@,
    {
        Message { role: self.role, content: self.content.clone(), timestamp: self.timestamp }
    }
}

/// The values of a sequence of turns.
pub open spec fn turn_views(turns: Seq<Message>) -> Seq<MessageView> {
    turns.map_values(|m: Message| m@)
}

/// The last `limit` entries of `s`, or all of `s` if it has fewer.
pub open spec fn keep_last<T>(s: Seq<T>, limit: int) -> Seq<T> {
    if s.len() > limit {
        s.subrange(s.len() - limit, s.len() as int)
    } else {
        s
    }
}

/// The window that results from appending `turn` to `window`: the turn goes
/// to the end and the oldest entries beyond the limit are dropped.
pub open spec fn window_append<T>(window: Seq<T>, turn: T) -> Seq<T> {
    keep_last(window.push(turn), WINDOW_LIMIT as int)
}

/// The window that results from appending each of `turns`, in order.
pub open spec fn window_append_all<T>(window: Seq<T>, turns: Seq<T>) -> Seq<T>
    decreases turns.len(),
{
    if turns.len() == 0 {
        window
    } else {
        window_append(window_append_all(window, turns.drop_last()), turns.last())
    }
}

/// Appends `turn` to `window` and drops the oldest entries beyond the limit.
pub fn append_turn(window: &mut VecDeque<Message>, turn: Message)
    ensures
        final(window)@ == window_append(old(window)@, turn),
{
    window.push_back(turn);
    let ghost pushed = window@;
    while window.len() > WINDOW_LIMIT
        invariant
            window@.len() <= pushed.len(),
            window@ == pushed.subrange(pushed.len() - window@.len(), pushed.len() as int),
            window@.len() >= WINDOW_LIMIT || window@.len() == pushed.len(),
        decreases window@.len(),
    {
        window.pop_front();
        assert(window@ =~= pushed.subrange(pushed.len() - window@.len(), pushed.len() as int));
    }
    assert(pushed.subrange(0, pushed.len() as int) =~= pushed);
}

/// However many turns are appended to a window that respects the limit,
/// the window still respects it and holds the most recent turns in the
/// order in which they were appended.
pub proof fn lemma_window_after_appends<T>(window: Seq<T>, turns: Seq<T>)
    requires
        window.len() <= WINDOW_LIMIT,
    ensures
        window_append_all(window, turns).len() <= WINDOW_LIMIT,
        window_append_all(window, turns) == keep_last(window + turns, WINDOW_LIMIT as int),
    decreases turns.len(),
{
    if turns.len() == 0 {
        assert(window + turns =~= window);
    } else {
        let earlier = turns.drop_last();
        lemma_window_after_appends(window, earlier);
        let before = window_append_all(window, earlier);
        let all = window + turns;
        assert((window + earlier).push(turns.last()) =~= all);
        assert(window_append(before, turns.last()) =~= keep_last(all, WINDOW_LIMIT as int));
    }
}

/// The per-conversation configuration. Timestamps count milliseconds since
/// the Unix epoch.
#[derive(Clone, Debug, PartialEq, Eq)]
pub struct ChatConfig {
    pub chat_guid: String,
    pub character_prompt: Option<String>,
    pub triggers: Vec<String>,
    pub trigger_name: String,
    pub use_ollama: bool,
    pub created_at: i64,
    pub updated_at: i64,
}

/// The mathematical value of a [`ChatConfig`].
pub struct ChatConfigView {
    pub chat_guid: Seq<char>,
    pub character_prompt: Option<Seq<char>>,
    pub triggers: Seq<Seq<char>>,
    pub trigger_name: Seq<char>,
    pub use_ollama: bool,
    pub created_at: i64,
    pub updated_at: i64,
}

/// The value of an optional text.
pub open spec fn option_text(text: Option<String>) -> Option<Seq<char>> {
    match text {
        Some(t) => Some(t@),
        None => None,
    }
}

impl View for ChatConfig {
    type V = ChatConfigView;

    open spec fn view(&self) -> ChatConfigView {
        ChatConfigView {
            chat_guid: self.chat_guid@,
            character_prompt: option_text(self.character_prompt),
            triggers: self.triggers.deep_view(),
            trigger_name: self.trigger_name@,
            use_ollama: self.use_ollama,
            created_at: self.created_at,
            updated_at: self.updated_at,
        }
    }
}

/// The nickname a conversation answers to until it is renamed.
pub const DEFAULT_TRIGGER_NAME: &'static str = "myai";

/// The system prompt of a conversation that has no persona.
pub const DEFAULT_SYSTEM_PROMPT: &'static str =
    "You are MyAI, a casual assistant in a private friend group chat. Be brief and natural unless asked to elaborate. Match the group's tone and energy.";

/// A copy of a list of texts.
pub fn duplicate_texts(texts: &Vec<String>) -> (r: Vec<String>)
    ensures
        r@ == texts@,
{
    let mut r: Vec<String> = Vec::new();
    let mut i: usize = 0;
    while i < texts.len()
        invariant
            i <= texts.len(),
            r@ == texts@.subrange(0, i as int),
        decreases texts.len() - i,
    {
        r.push(texts[i].clone());
        i += 1;
        assert(r@ =~= texts@.subrange(0, i as int));
    }
    assert(r@ =~= texts@);
    r
}

/// A copy of an optional text.
pub fn duplicate_option(text: &Option<String>) -> (r: Option<String>)
    ensures
        r == *text,
{
    match text {
        Some(t) => Some(t.clone()),
        None => None,
    }
}

/// The system prompt in force under a configuration: the persona if one
/// is configured, else the default prompt.
pub open spec fn system_prompt_of(config: ChatConfigView) -> Seq<char> {
    match config.character_prompt {
        Some(p) => p,
        None => DEFAULT_SYSTEM_PROMPT@,
    }
}

/// Appending commutes with taking the values of the turns.
pub proof fn lemma_turn_views_append(window: Seq<Message>, turn: Message)
    ensures
        turn_views(window_append(window, turn)) == window_append(turn_views(window), turn@),
{
    assert(turn_views(window.push(turn)) =~= turn_views(window).push(turn@));
    assert(turn_views(window_append(window, turn)) =~= window_append(
        turn_views(window),
        turn@,
    ));
}

impl ChatConfig {
    /// The configuration a conversation starts with: no persona, the given
    /// global triggers, the default nickname, the default provider.
    pub fn with_defaults(chat_guid: String, triggers: Vec<String>, now: i64) -> (r: ChatConfig)
        ensures
            r@ == (ChatConfigView {
                chat_guid: chat_guid@,
                character_prompt: None,
                triggers: triggers.deep_view(),
                trigger_name: DEFAULT_TRIGGER_NAME@,
                use_ollama: false,
                created_at: now,
                updated_at: now,
            }),
    {
        ChatConfig {
            chat_guid,
            character_prompt: None,
            triggers,
            trigger_name: DEFAULT_TRIGGER_NAME.to_owned(),
            use_ollama: false,
            created_at: now,
            updated_at: now,
        }
    }

    /// A copy of the configuration.
    pub fn duplicate(&self) -> (r: ChatConfig)
        ensures
            r@ == self@,
    {
        let r = ChatConfig {
            chat_guid: self.chat_guid.clone(),
            character_prompt: duplicate_option(&self.character_prompt),
            triggers: duplicate_texts(&self.triggers),
            trigger_name: self.trigger_name.clone(),
            use_ollama: self.use_ollama,
            created_at: self.created_at,
            updated_at: self.updated_at,
        };
        assert(r.triggers.deep_view() =~= self.triggers.deep_view());
        r
    }

    /// The system prompt in force.
    pub fn get_system_prompt(&self) -> (r: String)
        ensures
            r@ == system_prompt_of(self@),
    {
        match &self.character_prompt {
            Some(p) => p.clone(),
            None => DEFAULT_SYSTEM_PROMPT.to_owned(),
        }
    }
}

/// The in-memory state of one conversation: its window of recent turns and
/// the settings that shape a reply.
#[derive(Clone, Debug)]
pub struct ChatContext {
    pub chat_guid: String,
    pub messages: VecDeque<Message>,
    pub character_prompt: Option<String>,
    pub use_ollama: bool,
    pub triggers: Vec<String>,
}

impl ChatContext {
    /// The window respects the limit.
    pub open spec fn wf(&self) -> bool {
        self.messages@.len() <= WINDOW_LIMIT
    }

    /// A context with an empty window, taking its settings from `config`
    /// where one exists.
    pub fn new(chat_guid: String, config: Option<ChatConfig>) -> (r: ChatContext)
        ensures
            r.wf(),
            r.chat_guid == chat_guid,
            r.messages@ == Seq::<Message>::empty(),
            match config {
                Some(c) => r.character_prompt == c.character_prompt && r.use_ollama
                    == c.use_ollama && r.triggers == c.triggers,
                None => r.character_prompt is None && !r.use_ollama && r.triggers@
                    == Seq::<String>::empty(),
            },
    {
        match config {
            Some(c) => ChatContext {
                chat_guid,
                messages: VecDeque::new(),
                character_prompt: c.character_prompt,
                use_ollama: c.use_ollama,
                triggers: c.triggers,
            },
            None => ChatContext {
                chat_guid,
                messages: VecDeque::new(),
                character_prompt: None,
                use_ollama: false,
                triggers: Vec::new(),
            },
        }
    }

    /// Appends a turn to the window, dropping the oldest turns beyond the
    /// limit. Nothing else changes.
    pub fn add_message(&mut self, message: Message)
        ensures
            final(self).messages@ == window_append(old(self).messages@, message),
            final(self).wf(),
            final(self).chat_guid == old(self).chat_guid,
            final(self).character_prompt == old(self).character_prompt,
            final(self).use_ollama == old(self).use_ollama,
            final(self).triggers == old(self).triggers,
    {
        append_turn(&mut self.messages, message);
    }

    /// The system prompt in force: the persona if one is configured, else
    /// the default prompt.
    pub fn get_system_prompt(&self) -> (r: String)
        ensures
            r@ == match self.character_prompt {
                Some(p) => p@,
                None => DEFAULT_SYSTEM_PROMPT@,
            },
    {
        match &self.character_prompt {
            Some(p) => p.clone(),
            None => DEFAULT_SYSTEM_PROMPT.to_owned(),
        }
    }
}

/// Whether `id` carries the version and variant marks of a random
/// (version 4) UUID.
pub open spec fn is_random_uuid(id: u128) -> bool {
    id & 0x0000_0000_0000_f000_c000_0000_0000_0000u128
        == 0x0000_0000_0000_4000_8000_0000_0000_0000u128
}

/// Calls `uuid::Uuid::new_v4` and returns the identifier as a number, by
/// `Uuid::as_u128`. The value is random; the contract states only the
/// version and variant marks that every such identifier carries.
#[verifier::external_body]
pub(crate) fn random_uuid() -> (r: u128)
    ensures
        is_random_uuid(r),
{
    uuid::Uuid::new_v4().as_u128()
}

/// A work item as delivered to a conversation's mailbox. The identifier is
/// a UUID held as a number; the timestamp counts milliseconds since the
/// Unix epoch.
#[derive(Clone, Debug, PartialEq, Eq)]
pub struct QueuedMessage {
    pub id: u128,
    pub chat_guid: String,
    pub text: String,
    pub timestamp: i64,
}

/// The mathematical value of a [`QueuedMessage`].
pub struct QueuedMessageView {
    pub id: u128,
    pub chat_guid: Seq<char>,
    pub text: Seq<char>,
    pub timestamp: i64,
}

impl View for QueuedMessage {
    type V = QueuedMessageView;

    open spec fn view(&self) -> QueuedMessageView {
        QueuedMessageView {
            id: self.id,
            chat_guid: self.chat_guid@,
            text: self.text@,
            timestamp: self.timestamp,
        }
    }
}

impl QueuedMessage {
    /// A work item with the given identifier and time.
    pub fn from_parts(id: u128, chat_guid: String, text: String, timestamp: i64) -> (r:
        QueuedMessage)
        ensures
            r@ == (QueuedMessageView { id, chat_guid: chat_guid@, text: text@, timestamp }),
    {
        QueuedMessage { id, chat_guid, text, timestamp }
    }

    /// A work item with a fresh random identifier, stamped with the
    /// current time.
    pub fn new(chat_guid: String, text: String) -> (r: QueuedMessage)
        ensures
            r.chat_guid@ == chat_guid@,
            r.text@ == text@,
            is_random_uuid(r.id),
    {
        let id: u128 = random_uuid();
        let now: i64 = crate::clock::now_millis();
        QueuedMessage::from_parts(id, chat_guid, text, now)
    }
}

/// A message as the chat transport reports it. Times count milliseconds
/// since the Unix epoch.
#[derive(Clone, Debug, PartialEq, Eq)]
pub struct BlueBubblesMessage {
    pub guid: String,
    pub text: Option<String>,
    pub date_created: Option<i64>,
    pub date_delivered: Option<i64>,
    pub is_from_me: Option<bool>,
    pub attachments: Option<Vec<BlueBubblesAttachment>>,
}

/// An attachment as the chat transport reports it.
#[derive(Clone, Debug, PartialEq, Eq)]
pub struct BlueBubblesAttachment {
    pub guid: String,
    pub original_rowid: Option<i64>,
    pub mime_type: Option<String>,
    pub transfer_name: Option<String>,
    pub total_bytes: Option<i64>,
}

/// A conversation as the chat transport reports it.
#[derive(Clone, Debug, PartialEq, Eq)]
pub struct BlueBubblesChat {
    pub guid: String,
    pub display_name: Option<String>,
    pub last_message: Option<BlueBubblesMessage>,
}

/// A plain-text chat message in the shape the hosted provider takes.
#[derive(Clone, Debug, PartialEq, Eq)]
pub struct OpenAIMessage {
    pub role: String,
    pub content: String,
}

/// A chat message in the shape the local provider takes.
#[derive(Clone, Debug, PartialEq, Eq)]
pub struct OllamaMessage {
    pub role: String,
    pub content: String,
}

impl BlueBubblesMessage {
    /// The time of the message: when it was created, else when it was
    /// delivered, else zero.
    pub open spec fn time(&self) -> i64 {
        match self.date_created {
            Some(t) => t,
            None => match self.date_delivered {
                Some(t) => t,
                None => 0,
            },
        }
    }

    /// The time of the message.
    pub fn message_time(&self) -> (r: i64)
        ensures
            r == self.time(),
    {
        match self.date_created {
            Some(t) => t,
            None => match self.date_delivered {
                Some(t) => t,
                None => 0,
            },
        }
    }

    /// The text of the message, empty where the transport reports none.
    pub open spec fn body(&self) -> Seq<char> {
        match self.text {
            Some(t) => t@,
            None => Seq::<char>::empty(),
        }
    }
}

} // verus!
