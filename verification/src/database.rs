//! What the durable store holds, as plain rows, and the rules that the
//! store's contents obey: how a conversation's configuration and turns are
//! written to rows and read back, and how a queued item's status advances.
//!
//! The storage engine itself is not here: rows are handed to it and come
//! back from it.

use crate::clock::retention_cutoff;
use crate::text::{matches_at, slice_chars, starts_with_seq, text_eq, to_chars};
use crate::types::{
    duplicate_option, option_text, role_name, turn_views, ChatConfig, ChatConfigView, Message,
    MessageRole, MessageView,
};
use vstd::prelude::*;

verus! {

/// How many recent turns an actor loads when it starts.
pub const RECENT_TURNS: usize = 10;

/// Turns and ledger entries older than this many days are deleted.
pub const MESSAGE_RETENTION_DAYS: i64 = 7;

/// Finished queue items older than this many days are deleted.
pub const QUEUE_RETENTION_DAYS: i64 = 1;

/// How the address of a file-backed store begins.
pub const SQLITE_SCHEME: &'static str = "sqlite:";

/// The status of a queued item.
#[derive(Clone, Copy, Debug, PartialEq, Eq, Structural)]
pub enum QueueStatus {
    Pending,
    Processing,
    Completed,
    Failed,
}

/// What happens to a queued item.
#[derive(Clone, Copy, Debug, PartialEq, Eq, Structural)]
pub enum QueueEvent {
    /// The dispatcher took the item from the queue.
    Claimed,
    /// The item was delivered to its conversation's actor.
    Delivered,
    /// The item could not be delivered.
    DeliveryFailed,
}

/// Why a queued item could not be updated.
#[derive(Clone, Copy, Debug, PartialEq, Eq, Structural)]
pub enum QueueError {
    /// The event cannot happen to an item of that status.
    InvalidTransition,
}

/// Why a row could not be written.
#[derive(Clone, Copy, Debug, PartialEq, Eq, Structural)]
pub enum RowError {
    /// The triggers could not be written as JSON, or what was written
    /// does not read back as the triggers.
    Encoding,
}

/// The name under which a status is stored.
pub open spec fn status_name(status: QueueStatus) -> Seq<char> {
    match status {
        QueueStatus::Pending => "pending"@,
        QueueStatus::Processing => "processing"@,
        QueueStatus::Completed => "completed"@,
        QueueStatus::Failed => "failed"@,
    }
}

/// How far a status is along the lifecycle.
pub open spec fn status_rank(status: QueueStatus) -> int {
    match status {
        QueueStatus::Pending => 0,
        QueueStatus::Processing => 1,
        QueueStatus::Completed => 2,
        QueueStatus::Failed => 2,
    }
}

/// The status that follows `status` when `event` happens, if the event can
/// happen to an item of that status at all.
pub open spec fn advance(status: QueueStatus, event: QueueEvent) -> Option<QueueStatus> {
    match (status, event) {
        (QueueStatus::Pending, QueueEvent::Claimed) => Some(QueueStatus::Processing),
        (QueueStatus::Processing, QueueEvent::Delivered) => Some(QueueStatus::Completed),
        (QueueStatus::Processing, QueueEvent::DeliveryFailed) => Some(QueueStatus::Failed),
        _ => None,
    }
}

/// The status of an item after the events `events` happened to it in
/// order, starting from `status`; `None` if one of them could not happen.
pub open spec fn replay(status: QueueStatus, events: Seq<QueueEvent>) -> Option<QueueStatus>
    decreases events.len(),
{
    if events.len() == 0 {
        Some(status)
    } else {
        match replay(status, events.drop_last()) {
            Some(s) => advance(s, events.last()),
            None => None,
        }
    }
}

/// The status that a stored name stands for, if it stands for one.
pub open spec fn status_of_name(name: Seq<char>) -> Option<QueueStatus> {
    if name == "pending"@ {
        Some(QueueStatus::Pending)
    } else if name == "processing"@ {
        Some(QueueStatus::Processing)
    } else if name == "completed"@ {
        Some(QueueStatus::Completed)
    } else if name == "failed"@ {
        Some(QueueStatus::Failed)
    } else {
        None
    }
}

/// The event that takes an item to `status`; none takes an item to
/// pending.
pub open spec fn event_leading_to(status: QueueStatus) -> Option<QueueEvent> {
    match status {
        QueueStatus::Pending => None,
        QueueStatus::Processing => Some(QueueEvent::Claimed),
        QueueStatus::Completed => Some(QueueEvent::Delivered),
        QueueStatus::Failed => Some(QueueEvent::DeliveryFailed),
    }
}

impl QueueEvent {
    /// The event that takes an item to `status`, if there is one.
    pub fn leading_to(status: QueueStatus) -> (r: Option<QueueEvent>)
        ensures
            r == event_leading_to(status),
    {
        match status {
            QueueStatus::Pending => None,
            QueueStatus::Processing => Some(QueueEvent::Claimed),
            QueueStatus::Completed => Some(QueueEvent::Delivered),
            QueueStatus::Failed => Some(QueueEvent::DeliveryFailed),
        }
    }
}

impl QueueStatus {
    /// The status that a stored name stands for, if it stands for one.
    pub fn from_name(name: &str) -> (r: Option<QueueStatus>)
        ensures
            r == status_of_name(name@),
    {
        if text_eq(name, "pending") {
            Some(QueueStatus::Pending)
        } else if text_eq(name, "processing") {
            Some(QueueStatus::Processing)
        } else if text_eq(name, "completed") {
            Some(QueueStatus::Completed)
        } else if text_eq(name, "failed") {
            Some(QueueStatus::Failed)
        } else {
            None
        }
    }

    /// The stored name of the status.
    pub fn as_str(&self) -> (r: &'static str)
        ensures
            r@ == status_name(*self),
    {
        match self {
            QueueStatus::Pending => "pending",
            QueueStatus::Processing => "processing",
            QueueStatus::Completed => "completed",
            QueueStatus::Failed => "failed",
        }
    }

    /// Whether the status is final: completed or failed.
    pub fn is_terminal(&self) -> (r: bool)
        ensures
            r == (status_rank(*self) == 2),
    {
        match self {
            QueueStatus::Completed | QueueStatus::Failed => true,
            _ => false,
        }
    }

    /// The status after `event`, or an error where the event cannot happen
    /// to an item of this status.
    pub fn after(&self, event: QueueEvent) -> (r: Result<QueueStatus, QueueError>)
        ensures
            match advance(*self, event) {
                Some(next) => r == Ok::<QueueStatus, QueueError>(next),
                None => r == Err::<QueueStatus, QueueError>(QueueError::InvalidTransition),
            },
    {
        match (self, event) {
            (QueueStatus::Pending, QueueEvent::Claimed) => Ok(QueueStatus::Processing),
            (QueueStatus::Processing, QueueEvent::Delivered) => Ok(QueueStatus::Completed),
            (QueueStatus::Processing, QueueEvent::DeliveryFailed) => Ok(QueueStatus::Failed),
            _ => Err(QueueError::InvalidTransition),
        }
    }
}

/// Every step of the lifecycle moves an item exactly one stage on: nothing
/// goes back to pending, nothing leaves a final status, and nothing gets
/// from pending to a final status without being processed in between.
pub proof fn lemma_advance_is_one_step(status: QueueStatus, event: QueueEvent)
    ensures
        advance(status, event) matches Some(next) ==> status_rank(next) == status_rank(status)
            + 1,
        status_rank(status) == 2 ==> advance(status, event) is None,
{
}

/// Whatever happens to an item that starts out pending, its status is as
/// many stages on as events happened to it. So at most two events happen,
/// the first of them is the claim, and an item that is completed or failed
/// has been processing before.
pub proof fn lemma_lifecycle(events: Seq<QueueEvent>)
    requires
        replay(QueueStatus::Pending, events) is Some,
    ensures
        status_rank(replay(QueueStatus::Pending, events)->0) == events.len(),
        events.len() <= 2,
        events.len() >= 1 ==> events[0] == QueueEvent::Claimed && replay(
            QueueStatus::Pending,
            events.subrange(0, 1),
        ) == Some(QueueStatus::Processing),
    decreases events.len(),
{
    if events.len() > 0 {
        let earlier = events.drop_last();
        lemma_lifecycle(earlier);
        lemma_advance_is_one_step(replay(QueueStatus::Pending, earlier)->0, events.last());
        if earlier.len() >= 1 {
            assert(earlier.subrange(0, 1) =~= events.subrange(0, 1));
            assert(earlier[0] == events[0]);
        } else {
            assert(events.subrange(0, 1) =~= events);
            assert(events.drop_last() =~= Seq::<QueueEvent>::empty());
        }
    }
}

/// A status survives being written to the store and read back, and the
/// event that leads to a status does lead to it, from the one status that
/// it can happen to.
pub proof fn lemma_status_round_trip(status: QueueStatus)
    ensures
        status_of_name(status_name(status)) == Some(status),
        event_leading_to(status) matches Some(event) ==> exists|from: QueueStatus| #[trigger]
            advance(from, event) == Some(status),
{
    reveal_strlit("pending");
    reveal_strlit("processing");
    reveal_strlit("completed");
    reveal_strlit("failed");
    match status {
        QueueStatus::Pending => {},
        QueueStatus::Processing => {
            assert("processing"@.len() == 10);
            assert("pending"@.len() == 7);
            assert(advance(QueueStatus::Pending, QueueEvent::Claimed) == Some(status));
        },
        QueueStatus::Completed => {
            assert("completed"@.len() == 9);
            assert("pending"@.len() == 7);
            assert("processing"@.len() == 10);
            assert(advance(QueueStatus::Processing, QueueEvent::Delivered) == Some(status));
        },
        QueueStatus::Failed => {
            assert("failed"@.len() == 6);
            assert("pending"@.len() == 7);
            assert("processing"@.len() == 10);
            assert("completed"@.len() == 9);
            assert(advance(QueueStatus::Processing, QueueEvent::DeliveryFailed) == Some(status));
        },
    }
}

/// A delivery that succeeds takes a pending item through processing to
/// completed; one that fails takes it through processing to failed.
pub proof fn lemma_delivery_outcomes()
    ensures
        replay(QueueStatus::Pending, seq![QueueEvent::Claimed, QueueEvent::Delivered]) == Some(
            QueueStatus::Completed,
        ),
        replay(QueueStatus::Pending, seq![QueueEvent::Claimed, QueueEvent::DeliveryFailed])
            == Some(QueueStatus::Failed),
{
    let ok = seq![QueueEvent::Claimed, QueueEvent::Delivered];
    let bad = seq![QueueEvent::Claimed, QueueEvent::DeliveryFailed];
    let first = seq![QueueEvent::Claimed];
    assert(ok.drop_last() =~= first);
    assert(bad.drop_last() =~= first);
    assert(first.drop_last() =~= Seq::<QueueEvent>::empty());
    assert(replay(QueueStatus::Pending, first.drop_last()) == Some(QueueStatus::Pending));
    assert(replay(QueueStatus::Pending, first) == Some(QueueStatus::Processing));
}

/// An item of the durable work queue. Times count milliseconds since the
/// Unix epoch.
#[derive(Clone, Debug, PartialEq, Eq)]
pub struct QueuedItem {
    pub id: i64,
    pub chat_guid: String,
    pub text: String,
    pub status: QueueStatus,
    pub queued_at: i64,
    pub processing_started_at: Option<i64>,
}

impl QueuedItem {
    /// A pending item, queued at `now`.
    pub fn new(id: i64, chat_guid: String, text: String, now: i64) -> (r: QueuedItem)
        ensures
            r.id == id,
            r.chat_guid == chat_guid,
            r.text == text,
            r.status == QueueStatus::Pending,
            r.queued_at == now,
            r.processing_started_at is None,
    {
        QueuedItem {
            id,
            chat_guid,
            text,
            status: QueueStatus::Pending,
            queued_at: now,
            processing_started_at: None,
        }
    }

    /// Lets `event` happen to the item at time `now`. Where the event can
    /// happen, the status advances, and a claim records when processing
    /// began; where it cannot, the item stays as it is.
    pub fn apply(&mut self, event: QueueEvent, now: i64) -> (r: Result<(), QueueError>)
        ensures
            final(self).id == old(self).id,
            final(self).chat_guid == old(self).chat_guid,
            final(self).text == old(self).text,
            final(self).queued_at == old(self).queued_at,
            match advance(old(self).status, event) {
                Some(next) => {
                    &&& r is Ok
                    &&& final(self).status == next
                    &&& final(self).processing_started_at == if event == QueueEvent::Claimed {
                        Some(now)
                    } else {
                        old(self).processing_started_at
                    }
                },
                None => {
                    &&& r == Err::<(), QueueError>(QueueError::InvalidTransition)
                    &&& final(self).status == old(self).status
                    &&& final(self).processing_started_at == old(self).processing_started_at
                },
            },
    {
        match self.status.after(event) {
            Ok(next) => {
                self.status = next;
                match event {
                    QueueEvent::Claimed => {
                        self.processing_started_at = Some(now);
                    },
                    _ => {},
                }
                Ok(())
            },
            Err(e) => Err(e),
        }
    }

    /// Whether cleanup deletes the item: it is finished and was queued
    /// before `cutoff`.
    pub fn is_expired(&self, cutoff: i64) -> (r: bool)
        ensures
            r == (status_rank(self.status) == 2 && self.queued_at < cutoff),
    {
        self.status.is_terminal() && self.queued_at < cutoff
    }
}

/// The instant before which turns and ledger entries are deleted.
pub fn message_cutoff(now: i64) -> (r: i64)
    ensures
        r == crate::clock::cutoff_before(now, MESSAGE_RETENTION_DAYS),
{
    retention_cutoff(now, MESSAGE_RETENTION_DAYS)
}

/// The instant before which finished queue items are deleted.
pub fn queue_cutoff(now: i64) -> (r: i64)
    ensures
        r == crate::clock::cutoff_before(now, QUEUE_RETENTION_DAYS),
{
    retention_cutoff(now, QUEUE_RETENTION_DAYS)
}

/// The role that a stored name stands for; a name that is none of the
/// three stands for the user.
pub open spec fn role_of_name(name: Seq<char>) -> MessageRole {
    if name == "assistant"@ {
        MessageRole::Assistant
    } else if name == "system"@ {
        MessageRole::System
    } else {
        MessageRole::User
    }
}

/// The role that a stored name stands for.
pub fn role_from_str(name: &str) -> (r: MessageRole)
    ensures
        r == role_of_name(name@),
{
    if text_eq(name, "assistant") {
        MessageRole::Assistant
    } else if text_eq(name, "system") {
        MessageRole::System
    } else {
        MessageRole::User
    }
}

/// A turn as the store holds it.
#[derive(Clone, Debug, PartialEq, Eq)]
pub struct MessageRow {
    pub role: String,
    pub content: String,
    pub timestamp: i64,
}

/// The row that holds a turn.
pub fn message_to_row(message: &Message) -> (r: MessageRow)
    ensures
        r.role@ == role_name(message.role),
        r.content@ == message.content@,
        r.timestamp == message.timestamp,
{
    MessageRow {
        role: message.role.as_str().to_owned(),
        content: message.content.clone(),
        timestamp: message.timestamp,
    }
}

/// The turn that a row holds.
pub open spec fn turn_of_row(row: MessageRow) -> MessageView {
    MessageView { role: role_of_name(row.role@), content: row.content@, timestamp: row.timestamp }
}

/// The turn that a row holds.
pub fn message_from_row(row: &MessageRow) -> (r: Message)
    ensures
        r@ == turn_of_row(*row),
{
    Message {
        role: role_from_str(row.role.as_str()),
        content: row.content.clone(),
        timestamp: row.timestamp,
    }
}

/// The turns that the rows hold, in the opposite order: the store hands
/// out the newest row first, a window holds the oldest turn first.
pub fn messages_from_rows(rows: &Vec<MessageRow>) -> (r: Vec<Message>)
    ensures
        turn_views(r@) == rows@.map_values(|row: MessageRow| turn_of_row(row)).reverse(),
{
    let ghost turns = rows@.map_values(|row: MessageRow| turn_of_row(row));
    let mut r: Vec<Message> = Vec::new();
    let n: usize = rows.len();
    let mut i: usize = n;
    while i > 0
        invariant
            i <= n,
            n == rows.len(),
            turns == rows@.map_values(|row: MessageRow| turn_of_row(row)),
            r@.len() == n - i,
            forall|k: int| 0 <= k < r@.len() ==> (#[trigger] r@[k])@ == turns[n - 1 - k],
        decreases i,
    {
        i -= 1;
        r.push(message_from_row(&rows[i]));
    }
    assert(turn_views(r@) =~= turns.reverse());
    r
}

/// A role survives being written to a row and read back.
pub proof fn lemma_role_round_trip(role: MessageRole)
    ensures
        role_of_name(role_name(role)) == role,
{
    reveal_strlit("user");
    reveal_strlit("assistant");
    reveal_strlit("system");
    if role == MessageRole::User {
        assert("user"@.len() == 4);
        assert("assistant"@.len() == 9);
        assert("system"@.len() == 6);
    }
    if role == MessageRole::System {
        assert("assistant"@.len() == 9);
        assert("system"@.len() == 6);
    }
}

/// The path of the file behind the address of a file-backed store: what
/// follows the scheme. `None` for any other address.
pub open spec fn sqlite_path_of(database_url: Seq<char>) -> Option<Seq<char>> {
    if starts_with_seq(database_url, SQLITE_SCHEME@) {
        Some(database_url.subrange(SQLITE_SCHEME@.len() as int, database_url.len() as int))
    } else {
        None
    }
}

/// The path of the file behind the address of a file-backed store.
pub fn sqlite_path(database_url: &str) -> (r: Option<String>)
    ensures
        option_text(r) == sqlite_path_of(database_url@),
{
    let chars = to_chars(database_url);
    let scheme = to_chars(SQLITE_SCHEME);
    if matches_at(&chars, &scheme, 0) {
        Some(slice_chars(database_url, scheme.len(), chars.len()))
    } else {
        None
    }
}

/// The JSON text that `serde_json` writes for a list of texts; `None`
/// where it reports an error.
pub uninterp spec fn json_of_texts(texts: Seq<Seq<char>>) -> Option<Seq<char>>;

/// The list of texts that `serde_json` reads from a JSON text; `None`
/// where the text is no JSON array of strings.
pub uninterp spec fn texts_of_json(json: Seq<char>) -> Option<Seq<Seq<char>>>;

/// Calls `serde_json::to_string` on the list. The contract names the
/// result without restating how JSON is written.
#[verifier::external_body]
fn write_texts(texts: &Vec<String>) -> (r: Option<String>)
    ensures
        option_text(r) == json_of_texts(texts.deep_view()),
{
    match serde_json::to_string(texts) {
        Ok(json) => Some(json),
        Err(_) => None,
    }
}

/// Calls `serde_json::from_str`, asking for a list of strings. The
/// contract names the result without restating the JSON grammar.
#[verifier::external_body]
fn read_texts(json: &str) -> (r: Option<Vec<String>>)
    ensures
        match r {
            Some(texts) => texts_of_json(json@) == Some(texts.deep_view()),
            None => texts_of_json(json@) is None,
        },
{
    match serde_json::from_str::<Vec<String>>(json) {
        Ok(texts) => Some(texts),
        Err(_) => None,
    }
}

/// A conversation's configuration as the store holds it: the triggers are
/// one JSON text.
#[derive(Clone, Debug, PartialEq, Eq)]
pub struct ChatConfigRow {
    pub chat_guid: String,
    pub character_prompt: Option<String>,
    pub triggers: String,
    pub trigger_name: String,
    pub use_ollama: bool,
    pub created_at: i64,
    pub updated_at: i64,
}

/// The mathematical value of a [`ChatConfigRow`].
pub struct ChatConfigRowView {
    pub chat_guid: Seq<char>,
    pub character_prompt: Option<Seq<char>>,
    pub triggers: Seq<char>,
    pub trigger_name: Seq<char>,
    pub use_ollama: bool,
    pub created_at: i64,
    pub updated_at: i64,
}

impl View for ChatConfigRow {
    type V = ChatConfigRowView;

    open spec fn view(&self) -> ChatConfigRowView {
        ChatConfigRowView {
            chat_guid: self.chat_guid@,
            character_prompt: option_text(self.character_prompt),
            triggers: self.triggers@,
            trigger_name: self.trigger_name@,
            use_ollama: self.use_ollama,
            created_at: self.created_at,
            updated_at: self.updated_at,
        }
    }
}

/// The row that holds a configuration whose triggers are written as
/// `triggers`.
pub open spec fn row_of_config(config: ChatConfigView, triggers: Seq<char>) -> ChatConfigRowView {
    ChatConfigRowView {
        chat_guid: config.chat_guid,
        character_prompt: config.character_prompt,
        triggers,
        trigger_name: config.trigger_name,
        use_ollama: config.use_ollama,
        created_at: config.created_at,
        updated_at: config.updated_at,
    }
}

/// The configuration that a row holds, its triggers being read as
/// `triggers`; triggers that cannot be read count as none.
pub open spec fn config_of_row(row: ChatConfigRowView, triggers: Option<Seq<Seq<char>>>) -> ChatConfigView {
    ChatConfigView {
        chat_guid: row.chat_guid,
        character_prompt: row.character_prompt,
        triggers: match triggers {
            Some(t) => t,
            None => Seq::<Seq<char>>::empty(),
        },
        trigger_name: row.trigger_name,
        use_ollama: row.use_ollama,
        created_at: row.created_at,
        updated_at: row.updated_at,
    }
}

/// The row that holds a configuration, given its triggers as JSON.
pub fn config_row_with(config: &ChatConfig, triggers: String) -> (r: ChatConfigRow)
    ensures
        r@ == row_of_config(config@, triggers@),
{
    ChatConfigRow {
        chat_guid: config.chat_guid.clone(),
        character_prompt: duplicate_option(&config.character_prompt),
        triggers,
        trigger_name: config.trigger_name.clone(),
        use_ollama: config.use_ollama,
        created_at: config.created_at,
        updated_at: config.updated_at,
    }
}

/// The configuration that a row holds, given what its triggers read as.
pub fn config_from_row_with(row: ChatConfigRow, triggers: Option<Vec<String>>) -> (r: ChatConfig)
    ensures
        r@ == config_of_row(
            row@,
            match triggers {
                Some(t) => Some(t.deep_view()),
                None => None,
            },
        ),
{
    let list = match triggers {
        Some(t) => t,
        None => {
            let empty: Vec<String> = Vec::new();
            assert(empty.deep_view() =~= Seq::<Seq<char>>::empty());
            empty
        },
    };
    ChatConfig {
        chat_guid: row.chat_guid,
        character_prompt: row.character_prompt,
        triggers: list,
        trigger_name: row.trigger_name,
        use_ollama: row.use_ollama,
        created_at: row.created_at,
        updated_at: row.updated_at,
    }
}

/// Whether two lists hold the same texts in the same order.
pub fn same_texts(a: &Vec<String>, b: &Vec<String>) -> (r: bool)
    ensures
        r == (a.deep_view() == b.deep_view()),
{
    if a.len() != b.len() {
        assert(a.deep_view().len() != b.deep_view().len());
        return false;
    }
    let mut i: usize = 0;
    while i < a.len()
        invariant
            i <= a.len(),
            a.len() == b.len(),
            forall|k: int| 0 <= k < i ==> a.deep_view()[k] == b.deep_view()[k],
        decreases a.len() - i,
    {
        if !(a[i] == b[i]) {
            assert(a.deep_view()[i as int] != b.deep_view()[i as int]);
            return false;
        }
        i += 1;
    }
    assert(a.deep_view() =~= b.deep_view());
    true
}

/// Whether the triggers `texts` can be stored: they can be written as
/// JSON, and what was written reads back as the same triggers.
pub open spec fn storable(texts: Seq<Seq<char>>) -> bool {
    json_of_texts(texts) matches Some(json) && texts_of_json(json) == Some(texts)
}

/// The row that holds a configuration. The triggers are written as JSON
/// and read back before the row is handed out: a row is only made of
/// triggers that survive the store.
pub fn config_to_row(config: &ChatConfig) -> (r: Result<ChatConfigRow, RowError>)
    ensures
        r is Ok <==> storable(config@.triggers),
        r matches Ok(row) ==> row@ == row_of_config(config@, json_of_texts(config@.triggers)->0),
        r matches Ok(row) ==> config_of_row(row@, texts_of_json(row@.triggers)) == config@,
        r is Err ==> r->Err_0 == RowError::Encoding,
{
    match write_texts(&config.triggers) {
        Some(json) => {
            match read_texts(json.as_str()) {
                Some(back) => {
                    if same_texts(&back, &config.triggers) {
                        Ok(config_row_with(config, json))
                    } else {
                        Err(RowError::Encoding)
                    }
                },
                None => Err(RowError::Encoding),
            }
        },
        None => Err(RowError::Encoding),
    }
}

/// The configuration that a row holds.
pub fn config_from_row(row: ChatConfigRow) -> (r: ChatConfig)
    ensures
        r@ == config_of_row(row@, texts_of_json(row@.triggers)),
{
    let triggers = read_texts(row.triggers.as_str());
    config_from_row_with(row, triggers)
}

/// A configuration that is written to a row and read back is the same
/// configuration, its nickname and its triggers included, whenever its
/// triggers can be stored.
pub proof fn lemma_config_round_trip(config: ChatConfigView)
    requires
        storable(config.triggers),
    ensures
        ({
            let row = row_of_config(config, json_of_texts(config.triggers)->0);
            config_of_row(row, texts_of_json(row.triggers)) == config
        }),
{
}

} // verus!
