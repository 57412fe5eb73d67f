//! The orchestrator's decisions: which inbound messages are taken up, how
//! queued work reaches the actors, and which actors are live.
//!
//! The orchestrator holds no connection and waits for nothing. Its caller
//! polls the transport, asks the store and drives the actors; the
//! orchestrator is told what was found and says what is to be done.

use crate::config::Config;
use crate::database::{message_cutoff, queue_cutoff, QueueStatus};
use crate::dedupe::{compacted, remember, DedupeCache};
use crate::registry::{ensure_spec, AgentRegistry, Ensured};
use crate::text::{
    contains_chars, contains_seq, has_word, has_word_chars, lemma_word_is_substring, lowercase,
    lowercase_of, to_chars,
};
use crate::types::{BlueBubblesMessage, QueuedMessage, QueuedMessageView, DEFAULT_TRIGGER_NAME};
use vstd::prelude::*;

verus! {

/// How often the transport is polled, in milliseconds.
pub const POLL_INTERVAL_MS: u64 = 3000;

/// How often the queue is drained, in milliseconds.
pub const QUEUE_INTERVAL_MS: u64 = 500;

/// How often old entries are cleaned up, in milliseconds.
pub const CLEANUP_INTERVAL_MS: u64 = 300_000;

/// How long an actor is given to finish once it was asked to, in
/// milliseconds.
pub const SHUTDOWN_GRACE_MS: u64 = 5000;

/// How many items an actor's mailbox holds.
pub const MAILBOX_CAPACITY: usize = 100;

/// How many items one drain of the queue takes up at most.
pub const DRAIN_BATCH: usize = 3;

/// `word` is mentioned in `text`: it is one of the text's words, or at
/// least occurs somewhere in the text. The second test is deliberately
/// permissive: a word that is part of a longer, unrelated word counts.
pub open spec fn mentions(text: Seq<char>, word: Seq<char>) -> bool {
    has_word(text, word) || contains_seq(text, word)
}

/// One of `triggers` occurs in `text`.
pub open spec fn any_occurs(text: Seq<char>, triggers: Seq<Seq<char>>) -> bool {
    exists|i: int| 0 <= i < triggers.len() && contains_seq(text, #[trigger] triggers[i])
}

/// A message `text` is triggered under the global triggers `triggers` and
/// the conversation's nickname `nickname`: its lowercased text holds a
/// global trigger or mentions the lowercased nickname.
pub open spec fn triggered(text: Seq<char>, triggers: Seq<Seq<char>>, nickname: Seq<char>) -> bool {
    any_occurs(lowercase_of(text), triggers) || mentions(
        lowercase_of(text),
        lowercase_of(nickname),
    )
}

/// The nickname in force: the configured one, or the default where the
/// conversation has no configuration.
pub open spec fn nickname_or_default(nickname: Option<Seq<char>>) -> Seq<char> {
    match nickname {
        Some(n) => n,
        None => DEFAULT_TRIGGER_NAME@,
    }
}

/// Whether one of `triggers` occurs in `text`.
pub fn any_trigger_occurs(text: &Vec<char>, triggers: &Vec<String>) -> (r: bool)
    ensures
        r == any_occurs(text@, triggers.deep_view()),
{
    let mut i: usize = 0;
    while i < triggers.len()
        invariant
            i <= triggers.len(),
            forall|k: int| 0 <= k < i ==> !contains_seq(text@, #[trigger] triggers.deep_view()[k]),
        decreases triggers.len() - i,
    {
        let trigger = to_chars(triggers[i].as_str());
        if contains_chars(text, &trigger) {
            assert(triggers.deep_view()[i as int] == trigger@);
            return true;
        }
        assert(triggers.deep_view()[i as int] == trigger@);
        i += 1;
    }
    false
}

/// The token test adds nothing to the substring test: a text mentions a
/// word exactly if the word occurs in it.
pub proof fn lemma_mentions_is_occurrence(text: Seq<char>, word: Seq<char>)
    ensures
        mentions(text, word) == contains_seq(text, word),
{
    if has_word(text, word) {
        lemma_word_is_substring(text, word);
    }
}

/// What is to be done with an inbound message.
#[derive(Clone, Copy, Debug, PartialEq, Eq, Structural)]
pub enum IngestAction {
    /// Nothing: go on with the next message.
    Skip,
    /// Ask the store whether the message is in the ledger of processed
    /// messages, and report with [`BotOrchestrator::after_ledger`].
    CheckLedger,
    /// Fetch the nickname of the message's conversation, and report with
    /// [`BotOrchestrator::after_nickname`].
    FetchNickname,
    /// Record the message in the ledger, in one step with enqueueing its
    /// text for its conversation if `enqueue` is set.
    Record { enqueue: bool },
}

/// The first look at a message with id `guid`: a message seen before is
/// skipped; the bot's own messages and those older than the watermark are
/// remembered and skipped; for any other the ledger is to be asked.
pub open spec fn screen_spec(
    cache: Seq<Seq<char>>,
    guid: Seq<char>,
    from_me: bool,
    time: i64,
    watermark: u64,
) -> (Seq<Seq<char>>, IngestAction) {
    if cache.contains(guid) {
        (cache, IngestAction::Skip)
    } else if from_me || time < watermark {
        (remember(cache, guid), IngestAction::Skip)
    } else {
        (cache, IngestAction::CheckLedger)
    }
}

/// The second look, once the ledger has answered: a message that was
/// processed before, or has no text, is remembered and skipped; one that
/// holds a global trigger is remembered and recorded with its text
/// enqueued; for any other the nickname is to be fetched.
pub open spec fn after_ledger_spec(
    cache: Seq<Seq<char>>,
    guid: Seq<char>,
    body: Seq<char>,
    processed: bool,
    global_hit: bool,
) -> (Seq<Seq<char>>, IngestAction) {
    if processed || body.len() == 0 {
        (remember(cache, guid), IngestAction::Skip)
    } else if global_hit {
        (remember(cache, guid), IngestAction::Record { enqueue: true })
    } else {
        (cache, IngestAction::FetchNickname)
    }
}

/// The last look, once the nickname is known: the message is remembered
/// and recorded, its text being enqueued if it mentions the nickname.
pub open spec fn after_nickname_spec(cache: Seq<Seq<char>>, guid: Seq<char>, nickname_hit: bool) -> (
    Seq<Seq<char>>,
    IngestAction,
) {
    (remember(cache, guid), IngestAction::Record { enqueue: nickname_hit })
}

/// What the orchestrator knows and what the store holds of inbound
/// messages: the ids remembered in memory, the ledger of processed ids,
/// and the ids whose texts were enqueued, in order.
pub struct Intake {
    pub cache: Seq<Seq<char>>,
    pub ledger: Set<Seq<char>>,
    pub queued: Seq<Seq<char>>,
}

/// An inbound message as far as intake looks at it, together with what
/// the trigger detector finds in it.
pub struct Inbound {
    pub guid: Seq<char>,
    pub from_me: bool,
    pub time: i64,
    pub body: Seq<char>,
    pub global_hit: bool,
    pub nickname_hit: bool,
}

/// The intake after an action was carried out.
pub open spec fn carry_out(s: Intake, cache: Seq<Seq<char>>, guid: Seq<char>, action: IngestAction) -> Intake {
    match action {
        IngestAction::Record { enqueue } => Intake {
            cache,
            ledger: s.ledger.insert(guid),
            queued: if enqueue {
                s.queued.push(guid)
            } else {
                s.queued
            },
        },
        _ => Intake { cache, ..s },
    }
}

/// The intake after the message `m` was fed to it: the three looks in
/// turn, the ledger answering from what it holds, and each action carried
/// out.
pub open spec fn feed(s: Intake, m: Inbound, watermark: u64) -> Intake {
    let (c1, a1) = screen_spec(s.cache, m.guid, m.from_me, m.time, watermark);
    match a1 {
        IngestAction::CheckLedger => {
            let (c2, a2) = after_ledger_spec(
                c1,
                m.guid,
                m.body,
                s.ledger.contains(m.guid),
                m.global_hit,
            );
            match a2 {
                IngestAction::FetchNickname => {
                    let (c3, a3) = after_nickname_spec(c2, m.guid, m.nickname_hit);
                    carry_out(s, c3, m.guid, a3)
                },
                _ => carry_out(s, c2, m.guid, a2),
            }
        },
        _ => carry_out(s, c1, m.guid, a1),
    }
}

/// How often `guid` occurs in `ids`.
pub open spec fn occurrences(ids: Seq<Seq<char>>, guid: Seq<char>) -> nat
    decreases ids.len(),
{
    if ids.len() == 0 {
        0
    } else {
        occurrences(ids.drop_last(), guid) + if ids.last() == guid {
            1nat
        } else {
            0nat
        }
    }
}

/// Feeding a message leaves the queue as it was or adds the message's id
/// once; it adds it only if the id was in neither the cache nor the
/// ledger, and then the id is in the ledger.
pub proof fn lemma_feed_once(s: Intake, m: Inbound, watermark: u64)
    ensures
        feed(s, m, watermark).queued == s.queued || feed(s, m, watermark).queued == s.queued.push(
            m.guid,
        ),
        s.ledger.contains(m.guid) ==> feed(s, m, watermark).queued == s.queued,
        s.cache.contains(m.guid) ==> feed(s, m, watermark) == s,
        feed(s, m, watermark).queued != s.queued ==> feed(s, m, watermark).ledger.contains(m.guid),
        s.ledger.subset_of(feed(s, m, watermark).ledger),
{
}

/// Idempotent ingestion. A message that is fed twice is enqueued at most
/// once, whatever the second feeding holds besides the id, and even if
/// the in-memory cache was compacted or lost in between: the queue grows
/// by at most one entry for the id over both feedings, and a second
/// feeding that follows an enqueueing one changes nothing in the queue.
pub proof fn lemma_idempotent_ingestion(
    s: Intake,
    first: Inbound,
    second: Inbound,
    cache_between: Seq<Seq<char>>,
    watermark: u64,
)
    requires
        first.guid == second.guid,
    ensures
        ({
            let once = feed(s, first, watermark);
            let twice = feed(Intake { cache: cache_between, ..once }, second, watermark);
            &&& occurrences(twice.queued, first.guid) <= occurrences(s.queued, first.guid) + 1
            &&& once.queued != s.queued ==> twice.queued == once.queued
            &&& feed(once, second, watermark) == once
        }),
{
    let once = feed(s, first, watermark);
    let between = Intake { cache: cache_between, ..once };
    let twice = feed(between, second, watermark);
    lemma_feed_once(s, first, watermark);
    lemma_feed_once(between, second, watermark);
    crate::dedupe::lemma_remember_is_idempotent(s.cache, first.guid);
    assert(once.cache.contains(first.guid)) by {
        if !s.cache.contains(first.guid) {
            assert(once.cache == remember(s.cache, first.guid));
        }
    }
    if once.queued != s.queued {
        assert(once.queued.drop_last() =~= s.queued);
    } else if twice.queued != once.queued {
        assert(twice.queued.drop_last() =~= once.queued);
    }
}

/// The orchestrator's own state: the settings, the watermark, the cache
/// of message ids already looked at, and the registry of live actors.
pub struct BotOrchestrator {
    config: Config,
    chat_agents: AgentRegistry,
    processed_messages: DedupeCache,
    startup_time: u64,
}

impl BotOrchestrator {
    /// The ids remembered in memory, oldest first.
    pub closed spec fn cache(&self) -> Seq<Seq<char>> {
        self.processed_messages@
    }

    /// The live actors, as a map from conversation id to actor number.
    pub closed spec fn actors(&self) -> Map<Seq<char>, u64> {
        self.chat_agents@
    }

    /// The number that the next new actor gets.
    pub closed spec fn next_actor(&self) -> u64 {
        self.chat_agents.next()
    }

    /// The watermark: messages older than it are history.
    pub closed spec fn watermark(&self) -> u64 {
        self.startup_time
    }

    /// The settings.
    pub closed spec fn settings(&self) -> Config {
        self.config
    }

    /// Everything but the cache is as in `other`.
    pub open spec fn same_but_cache(&self, other: &BotOrchestrator) -> bool {
        &&& self.actors() == other.actors()
        &&& self.next_actor() == other.next_actor()
        &&& self.watermark() == other.watermark()
        &&& self.settings() == other.settings()
    }

    /// Everything but the registry is as in `other`.
    pub open spec fn same_but_actors(&self, other: &BotOrchestrator) -> bool {
        &&& self.cache() == other.cache()
        &&& self.watermark() == other.watermark()
        &&& self.settings() == other.settings()
    }

    /// An orchestrator that starts at `startup_time` (milliseconds since
    /// the Unix epoch) with an empty cache and no actors.
    pub fn new(config: Config, startup_time: u64) -> (r: BotOrchestrator)
        ensures
            r.settings() == config,
            r.watermark() == startup_time,
            r.cache() == Seq::<Seq<char>>::empty(),
            r.actors() == Map::<Seq<char>, u64>::empty(),
            r.next_actor() == 0,
    {
        BotOrchestrator {
            config,
            chat_agents: AgentRegistry::new(),
            processed_messages: DedupeCache::new(),
            startup_time,
        }
    }

    /// An orchestrator that starts now, by the system clock. A clock that
    /// stands before the Unix epoch counts as standing at it.
    pub fn start(config: Config) -> (r: BotOrchestrator)
        ensures
            r.settings() == config,
            r.cache() == Seq::<Seq<char>>::empty(),
            r.actors() == Map::<Seq<char>, u64>::empty(),
    {
        let now: i64 = crate::clock::now_millis();
        let startup_time: u64 = if now < 0 {
            0
        } else {
            now as u64
        };
        BotOrchestrator::new(config, startup_time)
    }

    /// The settings.
    pub fn config(&self) -> (r: &Config)
        ensures
            *r == self.settings(),
    {
        &self.config
    }

    /// The watermark.
    pub fn startup_time(&self) -> (r: u64)
        ensures
            r == self.watermark(),
    {
        self.startup_time
    }

    /// How many message ids are remembered in memory.
    pub fn remembered(&self) -> (r: usize)
        ensures
            r == self.cache().len(),
    {
        self.processed_messages.len()
    }

    /// Whether the message id is remembered in memory.
    pub fn has_seen(&self, guid: &str) -> (r: bool)
        ensures
            r == self.cache().contains(guid@),
    {
        self.processed_messages.contains(guid)
    }

    /// Whether `text` mentions `trigger`, letter case aside: as one of its
    /// words or, failing that, anywhere.
    pub fn contains_trigger_word(text: &str, trigger: &str) -> (r: bool)
        ensures
            r == mentions(lowercase_of(text@), lowercase_of(trigger@)),
    {
        let text_lower = lowercase(text);
        let trigger_lower = lowercase(trigger);
        let words = to_chars(text_lower.as_str());
        let word = to_chars(trigger_lower.as_str());
        let found = has_word_chars(&words, &word);
        if !found {
            return contains_chars(&words, &word);
        }
        found
    }

    /// Whether `text` holds one of the global triggers, letter case of the
    /// text aside.
    pub fn holds_global_trigger(&self, text: &str) -> (r: bool)
        ensures
            r == any_occurs(lowercase_of(text@), self.settings().trigger_texts()),
    {
        let lower = lowercase(text);
        let chars = to_chars(lower.as_str());
        let triggers = self.config.triggers();
        any_trigger_occurs(&chars, &triggers)
    }

    /// Whether a message is triggered: whether `text` holds a global
    /// trigger or mentions the conversation's nickname `trigger_name`.
    pub fn check_message_triggers(&self, text: &str, trigger_name: &str) -> (r: bool)
        ensures
            r == triggered(text@, self.settings().trigger_texts(), trigger_name@),
    {
        if self.holds_global_trigger(text) {
            return true;
        }
        BotOrchestrator::contains_trigger_word(text, trigger_name)
    }

    /// The first look at an inbound message.
    pub fn screen(&mut self, message: &BlueBubblesMessage) -> (r: IngestAction)
        ensures
            old(self).cache().no_duplicates() ==> final(self).cache().no_duplicates(),
            final(self).same_but_cache(old(self)),
            (final(self).cache(), r) == screen_spec(
                old(self).cache(),
                message.guid@,
                message.is_from_me == Some(true),
                message.time(),
                old(self).watermark(),
            ),
    {
        if self.processed_messages.contains(message.guid.as_str()) {
            return IngestAction::Skip;
        }
        let from_me = match message.is_from_me {
            Some(true) => true,
            _ => false,
        };
        let time: i64 = message.message_time();
        if from_me || time < 0 || (time as u64) < self.startup_time {
            self.processed_messages.insert(message.guid.clone());
            return IngestAction::Skip;
        }
        IngestAction::CheckLedger
    }

    /// The second look at an inbound message: `processed` says whether the
    /// ledger holds the message.
    pub fn after_ledger(&mut self, message: &BlueBubblesMessage, processed: bool) -> (r:
        IngestAction)
        ensures
            old(self).cache().no_duplicates() ==> final(self).cache().no_duplicates(),
            final(self).same_but_cache(old(self)),
            (final(self).cache(), r) == after_ledger_spec(
                old(self).cache(),
                message.guid@,
                message.body(),
                processed,
                any_occurs(lowercase_of(message.body()), old(self).settings().trigger_texts()),
            ),
    {
        let empty = match &message.text {
            Some(t) => t.as_str().unicode_len() == 0,
            None => true,
        };
        if processed || empty {
            self.processed_messages.insert(message.guid.clone());
            return IngestAction::Skip;
        }
        let hit = match &message.text {
            Some(t) => self.holds_global_trigger(t.as_str()),
            None => false,
        };
        if hit {
            self.processed_messages.insert(message.guid.clone());
            return IngestAction::Record { enqueue: true };
        }
        IngestAction::FetchNickname
    }

    /// The last look at an inbound message: `nickname` is the nickname of
    /// the message's conversation, `None` where the conversation has no
    /// stored configuration or it could not be fetched.
    pub fn after_nickname(&mut self, message: &BlueBubblesMessage, nickname: Option<String>) -> (r:
        IngestAction)
        ensures
            old(self).cache().no_duplicates() ==> final(self).cache().no_duplicates(),
            final(self).same_but_cache(old(self)),
            (final(self).cache(), r) == after_nickname_spec(
                old(self).cache(),
                message.guid@,
                mentions(
                    lowercase_of(message.body()),
                    lowercase_of(nickname_or_default(crate::types::option_text(nickname))),
                ),
            ),
    {
        let name = match nickname {
            Some(n) => n,
            None => DEFAULT_TRIGGER_NAME.to_owned(),
        };
        let hit = match &message.text {
            Some(t) => BotOrchestrator::contains_trigger_word(t.as_str(), name.as_str()),
            None => BotOrchestrator::contains_trigger_word(String::new().as_str(), name.as_str()),
        };
        self.processed_messages.insert(message.guid.clone());
        IngestAction::Record { enqueue: hit }
    }

    /// Ends a round of polling: the cache is compacted if it has grown
    /// past its limit.
    pub fn finish_poll(&mut self)
        ensures
            old(self).cache().no_duplicates() ==> final(self).cache().no_duplicates(),
            final(self).same_but_cache(old(self)),
            final(self).cache() == compacted(old(self).cache()),
    {
        self.processed_messages.compact();
    }

    /// Makes sure that the conversation has a registered actor.
    pub fn ensure_chat_agent(&mut self, chat_guid: &str) -> (r: Ensured)
        ensures
            final(self).same_but_actors(old(self)),
            (final(self).actors(), final(self).next_actor(), r) == ensure_spec(
                old(self).actors(),
                old(self).next_actor(),
                chat_guid@,
            ),
    {
        self.chat_agents.ensure(chat_guid)
    }

    /// The number of the conversation's actor, if it has one.
    pub fn chat_agent(&self, chat_guid: &str) -> (r: Option<u64>)
        ensures
            r == if self.actors().dom().contains(chat_guid@) {
                Some(self.actors()[chat_guid@])
            } else {
                None
            },
    {
        self.chat_agents.get(chat_guid)
    }

    /// Unregisters the conversation's actor and returns its number, for
    /// the caller to ask the actor to finish and to wait for it, up to the
    /// grace period.
    pub fn remove_chat_agent(&mut self, chat_guid: &str) -> (r: Option<u64>)
        ensures
            final(self).same_but_actors(old(self)),
            final(self).next_actor() == old(self).next_actor(),
            final(self).actors() == old(self).actors().remove(chat_guid@),
            r == if old(self).actors().dom().contains(chat_guid@) {
                Some(old(self).actors()[chat_guid@])
            } else {
                None
            },
    {
        self.chat_agents.remove(chat_guid)
    }

    /// The conversations that have an actor, each once, in no particular
    /// order.
    pub fn chat_guids(&self) -> (r: Vec<String>)
        ensures
            r.deep_view().no_duplicates(),
            r.deep_view().to_set() == self.actors().dom(),
    {
        self.chat_agents.chat_guids()
    }
}

/// An item as the store hands it out when it is claimed.
#[derive(Clone, Debug, PartialEq, Eq)]
pub struct ClaimedItem {
    pub queue_id: i64,
    pub chat_guid: String,
    pub text: String,
}

/// The mathematical value of a [`ClaimedItem`].
pub struct ClaimedItemView {
    pub queue_id: i64,
    pub chat_guid: Seq<char>,
    pub text: Seq<char>,
}

impl View for ClaimedItem {
    type V = ClaimedItemView;

    open spec fn view(&self) -> ClaimedItemView {
        ClaimedItemView { queue_id: self.queue_id, chat_guid: self.chat_guid@, text: self.text@ }
    }
}

/// Where a drain of the queue stands. `left` counts the items that the
/// drain may still take up, the one in hand included.
#[derive(Clone, Debug, PartialEq, Eq)]
pub enum DrainPhase {
    /// No drain is under way.
    Idle,
    /// The store was asked for the next pending item.
    Claiming { left: usize },
    /// An actor is being constructed for the item's conversation.
    Spawning { left: usize, item: ClaimedItem },
    /// The item is being delivered to its conversation's actor.
    Delivering { left: usize, queue_id: i64, chat_guid: String },
    /// The store was asked to mark the item; `retire` names the
    /// conversation whose actor is to be torn down afterwards.
    Marking { left: usize, retire: Option<String> },
    /// An actor is being torn down.
    Retiring { left: usize },
}

/// The mathematical value of a [`DrainPhase`].
pub enum DrainPhaseView {
    Idle,
    Claiming { left: usize },
    Spawning { left: usize, item: ClaimedItemView },
    Delivering { left: usize, queue_id: i64, chat_guid: Seq<char> },
    Marking { left: usize, retire: Option<Seq<char>> },
    Retiring { left: usize },
}

impl View for DrainPhase {
    type V = DrainPhaseView;

    open spec fn view(&self) -> DrainPhaseView {
        match self {
            DrainPhase::Idle => DrainPhaseView::Idle,
            DrainPhase::Claiming { left } => DrainPhaseView::Claiming { left: *left },
            DrainPhase::Spawning { left, item } => DrainPhaseView::Spawning {
                left: *left,
                item: item@,
            },
            DrainPhase::Delivering { left, queue_id, chat_guid } => DrainPhaseView::Delivering {
                left: *left,
                queue_id: *queue_id,
                chat_guid: chat_guid@,
            },
            DrainPhase::Marking { left, retire } => DrainPhaseView::Marking {
                left: *left,
                retire: crate::types::option_text(*retire),
            },
            DrainPhase::Retiring { left } => DrainPhaseView::Retiring { left: *left },
        }
    }
}

/// What the caller reports to a drain.
#[derive(Clone, Debug, PartialEq, Eq)]
pub enum DrainEvent {
    /// The drain timer fired.
    Tick,
    /// The store handed out the next pending item and marked it as being
    /// processed, or holds no pending item.
    Claimed(Option<ClaimedItem>),
    /// The actor was constructed and started.
    Spawned,
    /// The item is in the actor's mailbox.
    Delivered,
    /// The store marked the item.
    Marked,
    /// The actor finished or was abandoned.
    Retired,
    /// The requested operation failed, for the given reason.
    Failed(String),
}

/// The mathematical value of a [`DrainEvent`].
pub enum DrainEventView {
    Tick,
    Claimed(Option<ClaimedItemView>),
    Spawned,
    Delivered,
    Marked,
    Retired,
    Failed(Seq<char>),
}

impl View for DrainEvent {
    type V = DrainEventView;

    open spec fn view(&self) -> DrainEventView {
        match self {
            DrainEvent::Tick => DrainEventView::Tick,
            DrainEvent::Claimed(item) => DrainEventView::Claimed(
                match item {
                    Some(i) => Some(i@),
                    None => None,
                },
            ),
            DrainEvent::Spawned => DrainEventView::Spawned,
            DrainEvent::Delivered => DrainEventView::Delivered,
            DrainEvent::Marked => DrainEventView::Marked,
            DrainEvent::Retired => DrainEventView::Retired,
            DrainEvent::Failed(e) => DrainEventView::Failed(e@),
        }
    }
}

/// What a drain asks of the caller.
#[derive(Clone, Debug, PartialEq, Eq)]
pub enum DrainAction {
    /// Nothing until the drain timer fires again.
    Wait,
    /// Take the next pending item from the store, marking it as being
    /// processed.
    Claim,
    /// Construct and start an actor for the conversation.
    Spawn { chat_guid: String },
    /// Put the message into the mailbox of the actor with that number.
    Deliver { actor: u64, message: QueuedMessage },
    /// Mark the item in the store.
    Mark { queue_id: i64, status: QueueStatus },
    /// Ask the actor with that number to finish, and wait for it up to
    /// the grace period.
    Retire { actor: u64, chat_guid: String },
}

/// The mathematical value of a [`DrainAction`].
pub enum DrainActionView {
    Wait,
    Claim,
    Spawn { chat_guid: Seq<char> },
    Deliver { actor: u64, message: QueuedMessageView },
    Mark { queue_id: i64, status: QueueStatus },
    Retire { actor: u64, chat_guid: Seq<char> },
}

impl View for DrainAction {
    type V = DrainActionView;

    open spec fn view(&self) -> DrainActionView {
        match self {
            DrainAction::Wait => DrainActionView::Wait,
            DrainAction::Claim => DrainActionView::Claim,
            DrainAction::Spawn { chat_guid } => DrainActionView::Spawn { chat_guid: chat_guid@ },
            DrainAction::Deliver { actor, message } => DrainActionView::Deliver {
                actor: *actor,
                message: message@,
            },
            DrainAction::Mark { queue_id, status } => DrainActionView::Mark {
                queue_id: *queue_id,
                status: *status,
            },
            DrainAction::Retire { actor, chat_guid } => DrainActionView::Retire {
                actor: *actor,
                chat_guid: chat_guid@,
            },
        }
    }
}

/// What a drain leaves behind: the registry, the phase, the action.
pub struct DrainOutcome {
    pub actors: Map<Seq<char>, u64>,
    pub next_actor: u64,
    pub phase: DrainPhaseView,
    pub action: DrainActionView,
}

/// Going on to the next item, `left` being how many may still be taken up.
pub open spec fn claim_next(actors: Map<Seq<char>, u64>, next_actor: u64, left: int) -> DrainOutcome {
    if left > 0 {
        DrainOutcome {
            actors,
            next_actor,
            phase: DrainPhaseView::Claiming { left: left as usize },
            action: DrainActionView::Claim,
        }
    } else {
        give_up(actors, next_actor)
    }
}

/// Ending the drain.
pub open spec fn give_up(actors: Map<Seq<char>, u64>, next_actor: u64) -> DrainOutcome {
    DrainOutcome { actors, next_actor, phase: DrainPhaseView::Idle, action: DrainActionView::Wait }
}

/// Handing an item to the actor with the given number.
pub open spec fn deliver(
    actors: Map<Seq<char>, u64>,
    next_actor: u64,
    left: usize,
    item: ClaimedItemView,
    actor: u64,
    fresh_id: u128,
    now: i64,
) -> DrainOutcome {
    DrainOutcome {
        actors,
        next_actor,
        phase: DrainPhaseView::Delivering {
            left,
            queue_id: item.queue_id,
            chat_guid: item.chat_guid,
        },
        action: DrainActionView::Deliver {
            actor,
            message: QueuedMessageView {
                id: fresh_id,
                chat_guid: item.chat_guid,
                text: item.text,
                timestamp: now,
            },
        },
    }
}

/// Having the store mark an item.
pub open spec fn mark(
    actors: Map<Seq<char>, u64>,
    next_actor: u64,
    left: usize,
    queue_id: i64,
    status: QueueStatus,
    retire: Option<Seq<char>>,
) -> DrainOutcome {
    DrainOutcome {
        actors,
        next_actor,
        phase: DrainPhaseView::Marking { left, retire },
        action: DrainActionView::Mark { queue_id, status },
    }
}

/// The drain's transition.
///
/// A drain takes up at most [`DRAIN_BATCH`] items. Each item that it
/// claims is delivered to the one actor of its conversation, which is
/// constructed and registered first if there is none, and is then marked
/// exactly once: completed if it was delivered, failed if the actor could
/// not be constructed or the delivery failed. After a failed delivery the
/// actor is unregistered and torn down. A failure of the store ends the
/// drain.
pub open spec fn drain_spec(
    actors: Map<Seq<char>, u64>,
    next_actor: u64,
    phase: DrainPhaseView,
    event: DrainEventView,
    fresh_id: u128,
    now: i64,
) -> DrainOutcome {
    match phase {
        DrainPhaseView::Idle => match event {
            DrainEventView::Tick => claim_next(actors, next_actor, DRAIN_BATCH as int),
            _ => give_up(actors, next_actor),
        },
        DrainPhaseView::Claiming { left } => match event {
            DrainEventView::Claimed(Some(item)) => if actors.dom().contains(item.chat_guid) {
                deliver(actors, next_actor, left, item, actors[item.chat_guid], fresh_id, now)
            } else {
                DrainOutcome {
                    actors,
                    next_actor,
                    phase: DrainPhaseView::Spawning { left, item },
                    action: DrainActionView::Spawn { chat_guid: item.chat_guid },
                }
            },
            _ => give_up(actors, next_actor),
        },
        DrainPhaseView::Spawning { left, item } => match event {
            DrainEventView::Spawned => {
                let (registered, next, ensured) = ensure_spec(actors, next_actor, item.chat_guid);
                deliver(registered, next, left, item, ensured.number(), fresh_id, now)
            },
            _ => mark(actors, next_actor, left, item.queue_id, QueueStatus::Failed, None),
        },
        DrainPhaseView::Delivering { left, queue_id, chat_guid } => match event {
            DrainEventView::Delivered => mark(
                actors,
                next_actor,
                left,
                queue_id,
                QueueStatus::Completed,
                None,
            ),
            _ => mark(actors, next_actor, left, queue_id, QueueStatus::Failed, Some(chat_guid)),
        },
        DrainPhaseView::Marking { left, retire } => match event {
            DrainEventView::Marked => match retire {
                Some(chat_guid) => if actors.dom().contains(chat_guid) {
                    DrainOutcome {
                        actors: actors.remove(chat_guid),
                        next_actor,
                        phase: DrainPhaseView::Retiring { left },
                        action: DrainActionView::Retire { actor: actors[chat_guid], chat_guid },
                    }
                } else {
                    claim_next(actors, next_actor, left - 1)
                },
                None => claim_next(actors, next_actor, left - 1),
            },
            _ => give_up(actors, next_actor),
        },
        DrainPhaseView::Retiring { left } => claim_next(actors, next_actor, left - 1),
    }
}

/// Unregistering the actors of the conversations `guids`, in order: the
/// registry afterwards, and the conversations that had an actor with the
/// actor's number.
pub open spec fn retire_spec(actors: Map<Seq<char>, u64>, guids: Seq<Seq<char>>) -> (
    Map<Seq<char>, u64>,
    Seq<(Seq<char>, u64)>,
)
    decreases guids.len(),
{
    if guids.len() == 0 {
        (actors, Seq::<(Seq<char>, u64)>::empty())
    } else {
        let (rest, retired) = retire_spec(actors, guids.drop_last());
        let guid = guids.last();
        if rest.dom().contains(guid) {
            (rest.remove(guid), retired.push((guid, rest[guid])))
        } else {
            (rest, retired)
        }
    }
}

/// Unregistering the actors of some conversations leaves exactly the
/// actors of the other conversations, untouched.
pub proof fn lemma_retire_removes(actors: Map<Seq<char>, u64>, guids: Seq<Seq<char>>)
    ensures
        retire_spec(actors, guids).0 == actors.remove_keys(guids.to_set()),
    decreases guids.len(),
{
    if guids.len() == 0 {
        assert(guids.to_set() =~= Set::<Seq<char>>::empty());
        assert(actors.remove_keys(guids.to_set()) =~= actors);
    } else {
        let earlier = guids.drop_last();
        lemma_retire_removes(actors, earlier);
        assert(guids.to_set() =~= earlier.to_set().insert(guids.last())) by {
            assert forall|g: Seq<char>| guids.to_set().contains(g) implies earlier.to_set().insert(
                guids.last(),
            ).contains(g) by {
                let i = choose|i: int| 0 <= i < guids.len() && guids[i] == g;
                if i < earlier.len() {
                    assert(earlier[i] == g);
                }
            }
            assert forall|g: Seq<char>|
                earlier.to_set().insert(guids.last()).contains(g) implies guids.to_set().contains(
                g,
            ) by {
                if g == guids.last() {
                    assert(guids[guids.len() - 1] == g);
                } else {
                    let i = choose|i: int| 0 <= i < earlier.len() && earlier[i] == g;
                    assert(guids[i] == g);
                }
            }
        }
        assert(retire_spec(actors, guids).0 =~= actors.remove_keys(guids.to_set()));
    }
}

/// What cleanup deletes: turns and ledger entries from before
/// `message_cutoff`, finished queue items from before `queue_cutoff`.
#[derive(Clone, Copy, Debug, PartialEq, Eq, Structural)]
pub struct CleanupPlan {
    pub message_cutoff: i64,
    pub queue_cutoff: i64,
}

impl BotOrchestrator {
    /// What cleanup deletes at time `now`.
    pub fn cleanup_plan(now: i64) -> (r: CleanupPlan)
        ensures
            r.message_cutoff == crate::clock::cutoff_before(
                now,
                crate::database::MESSAGE_RETENTION_DAYS,
            ),
            r.queue_cutoff == crate::clock::cutoff_before(
                now,
                crate::database::QUEUE_RETENTION_DAYS,
            ),
    {
        CleanupPlan { message_cutoff: message_cutoff(now), queue_cutoff: queue_cutoff(now) }
    }

    /// Unregisters the actors of the given conversations, for the caller
    /// to tear them down: cleanup passes the conversations whose actors
    /// have terminated.
    pub fn retire(&mut self, chat_guids: &Vec<String>) -> (r: Vec<(String, u64)>)
        ensures
            final(self).same_but_actors(old(self)),
            final(self).next_actor() == old(self).next_actor(),
            (final(self).actors(), retired_views(r@)) == retire_spec(
                old(self).actors(),
                chat_guids.deep_view(),
            ),
    {
        let mut retired: Vec<(String, u64)> = Vec::new();
        let mut i: usize = 0;
        assert(chat_guids.deep_view().subrange(0, 0) =~= Seq::<Seq<char>>::empty());
        assert(retired_views(retired@) =~= Seq::<(Seq<char>, u64)>::empty());
        while i < chat_guids.len()
            invariant
                i <= chat_guids.len(),
                self.same_but_actors(old(self)),
                self.next_actor() == old(self).next_actor(),
                (self.actors(), retired_views(retired@)) == retire_spec(
                    old(self).actors(),
                    chat_guids.deep_view().subrange(0, i as int),
                ),
            decreases chat_guids.len() - i,
        {
            let ghost before = retired@;
            let ghost prefix = chat_guids.deep_view().subrange(0, i + 1);
            assert(prefix.drop_last() =~= chat_guids.deep_view().subrange(0, i as int));
            assert(prefix.last() == chat_guids[i as int]@);
            match self.chat_agents.remove(chat_guids[i].as_str()) {
                Some(actor) => {
                    retired.push((chat_guids[i].clone(), actor));
                    assert(retired_views(retired@) =~= retired_views(before).push(
                        (chat_guids[i as int]@, actor),
                    ));
                },
                None => {},
            }
            i += 1;
        }
        assert(chat_guids.deep_view().subrange(0, i as int) =~= chat_guids.deep_view());
        retired
    }

    /// Unregisters every actor, for the caller to tear them all down. The
    /// actors are retired in some order, each once.
    pub fn shutdown(&mut self) -> (r: Vec<(String, u64)>)
        ensures
            final(self).same_but_actors(old(self)),
            final(self).actors() == Map::<Seq<char>, u64>::empty(),
            exists|guids: Seq<Seq<char>>|
                guids.no_duplicates() && guids.to_set() == old(self).actors().dom() && (
                    final(self).actors(),
                    retired_views(r@),
                ) == #[trigger] retire_spec(old(self).actors(), guids),
            retired_views(r@).len() == old(self).actors().dom().len(),
    {
        let guids = self.chat_agents.chat_guids();
        proof {
            lemma_retire_removes(self.actors(), guids.deep_view());
            lemma_retire_all(self.actors(), guids.deep_view());
        }
        let r = self.retire(&guids);
        assert(self.actors() =~= Map::<Seq<char>, u64>::empty());
        r
    }
}

/// The values of a list of retired actors.
pub open spec fn retired_views(retired: Seq<(String, u64)>) -> Seq<(Seq<char>, u64)> {
    retired.map_values(|p: (String, u64)| (p.0@, p.1))
}

/// Unregistering the actors of conversations that are listed once each and
/// all have an actor retires every one of them, with its own number.
pub proof fn lemma_retire_all(actors: Map<Seq<char>, u64>, guids: Seq<Seq<char>>)
    requires
        guids.no_duplicates(),
        guids.to_set().subset_of(actors.dom()),
    ensures
        retire_spec(actors, guids).1.len() == guids.len(),
        forall|i: int|
            0 <= i < guids.len() ==> (#[trigger] retire_spec(actors, guids).1[i]) == (
                guids[i],
                actors[guids[i]],
            ),
        guids.to_set() == actors.dom() ==> guids.len() == actors.dom().len(),
    decreases guids.len(),
{
    if guids.len() > 0 {
        let earlier = guids.drop_last();
        assert(earlier.to_set().subset_of(actors.dom())) by {
            assert forall|g: Seq<char>| earlier.to_set().contains(g) implies actors.dom().contains(
                g,
            ) by {
                let i = choose|i: int| 0 <= i < earlier.len() && earlier[i] == g;
                assert(guids[i] == g);
                assert(guids.to_set().contains(g));
            }
        }
        lemma_retire_all(actors, earlier);
        lemma_retire_removes(actors, earlier);
        let guid = guids.last();
        assert(guids.to_set().contains(guids[guids.len() - 1]));
        assert(!earlier.to_set().contains(guid)) by {
            if earlier.to_set().contains(guid) {
                let i = choose|i: int| 0 <= i < earlier.len() && earlier[i] == guid;
                assert(guids[i] == guids[guids.len() - 1]);
            }
        }
    }
    if guids.to_set() == actors.dom() {
        guids.unique_seq_to_set();
    }
}

impl BotOrchestrator {
    fn claim_next(left: usize) -> (r: (DrainPhase, DrainAction))
        ensures
            r.0@ == claim_next(Map::<Seq<char>, u64>::empty(), 0, left as int).phase,
            r.1@ == claim_next(Map::<Seq<char>, u64>::empty(), 0, left as int).action,
    {
        if left > 0 {
            (DrainPhase::Claiming { left }, DrainAction::Claim)
        } else {
            (DrainPhase::Idle, DrainAction::Wait)
        }
    }

    fn deliver(left: usize, item: ClaimedItem, actor: u64, fresh_id: u128, now: i64) -> (r: (
        DrainPhase,
        DrainAction,
    ))
        ensures
            r.0@ == deliver(Map::<Seq<char>, u64>::empty(), 0, left, item@, actor, fresh_id, now).phase,
            r.1@ == deliver(
                Map::<Seq<char>, u64>::empty(),
                0,
                left,
                item@,
                actor,
                fresh_id,
                now,
            ).action,
    {
        let chat_guid = item.chat_guid.clone();
        (
            DrainPhase::Delivering { left, queue_id: item.queue_id, chat_guid },
            DrainAction::Deliver {
                actor,
                message: QueuedMessage::from_parts(fresh_id, item.chat_guid, item.text, now),
            },
        )
    }

    /// Advances a drain of the queue by one event: updates the registry
    /// and says where the drain stands and what is to be done next.
    /// `fresh_id` is the identifier for a message that gets delivered,
    /// `now` the current time in milliseconds since the Unix epoch.
    pub fn drain_step(
        &mut self,
        phase: DrainPhase,
        event: DrainEvent,
        fresh_id: u128,
        now: i64,
    ) -> (r: (DrainPhase, DrainAction))
        ensures
            final(self).same_but_actors(old(self)),
            (DrainOutcome {
                actors: final(self).actors(),
                next_actor: final(self).next_actor(),
                phase: r.0@,
                action: r.1@,
            }) == drain_spec(
                old(self).actors(),
                old(self).next_actor(),
                phase@,
                event@,
                fresh_id,
                now,
            ),
    {
        match phase {
            DrainPhase::Idle => match event {
                DrainEvent::Tick => BotOrchestrator::claim_next(DRAIN_BATCH),
                _ => (DrainPhase::Idle, DrainAction::Wait),
            },
            DrainPhase::Claiming { left } => match event {
                DrainEvent::Claimed(Some(item)) => {
                    match self.chat_agents.get(item.chat_guid.as_str()) {
                        Some(actor) => BotOrchestrator::deliver(left, item, actor, fresh_id, now),
                        None => {
                            let chat_guid = item.chat_guid.clone();
                            (DrainPhase::Spawning { left, item }, DrainAction::Spawn { chat_guid })
                        },
                    }
                },
                _ => (DrainPhase::Idle, DrainAction::Wait),
            },
            DrainPhase::Spawning { left, item } => match event {
                DrainEvent::Spawned => {
                    let ensured = self.chat_agents.ensure(item.chat_guid.as_str());
                    BotOrchestrator::deliver(left, item, ensured.actor(), fresh_id, now)
                },
                _ => (
                    DrainPhase::Marking { left, retire: None },
                    DrainAction::Mark { queue_id: item.queue_id, status: QueueStatus::Failed },
                ),
            },
            DrainPhase::Delivering { left, queue_id, chat_guid } => match event {
                DrainEvent::Delivered => (
                    DrainPhase::Marking { left, retire: None },
                    DrainAction::Mark { queue_id, status: QueueStatus::Completed },
                ),
                _ => (
                    DrainPhase::Marking { left, retire: Some(chat_guid) },
                    DrainAction::Mark { queue_id, status: QueueStatus::Failed },
                ),
            },
            DrainPhase::Marking { left, retire } => match event {
                DrainEvent::Marked => {
                    let rest: usize = if left > 0 {
                        left - 1
                    } else {
                        0
                    };
                    match retire {
                        Some(chat_guid) => match self.chat_agents.remove(chat_guid.as_str()) {
                            Some(actor) => (
                                DrainPhase::Retiring { left },
                                DrainAction::Retire { actor, chat_guid },
                            ),
                            None => {
                                assert(self.actors() =~= old(self).actors());
                                BotOrchestrator::claim_next(rest)
                            },
                        },
                        None => BotOrchestrator::claim_next(rest),
                    }
                },
                _ => (DrainPhase::Idle, DrainAction::Wait),
            },
            DrainPhase::Retiring { left } => {
                let rest: usize = if left > 0 {
                    left - 1
                } else {
                    0
                };
                BotOrchestrator::claim_next(rest)
            },
        }
    }

    /// Advances a drain of the queue by one event, with a fresh random
    /// identifier and the current time of the system clock. Whatever
    /// these are, the step taken is the one that [`drain_spec`] gives for
    /// them.
    pub fn drain(&mut self, phase: DrainPhase, event: DrainEvent) -> (r: (DrainPhase, DrainAction))
        ensures
            final(self).same_but_actors(old(self)),
            exists|fresh_id: u128, now: i64|
                (DrainOutcome {
                    actors: final(self).actors(),
                    next_actor: final(self).next_actor(),
                    phase: r.0@,
                    action: r.1@,
                }) == drain_spec(
                    old(self).actors(),
                    old(self).next_actor(),
                    phase@,
                    event@,
                    fresh_id,
                    now,
                ),
    {
        let fresh_id: u128 = crate::types::random_uuid();
        let now: i64 = crate::clock::now_millis();
        self.drain_step(phase, event, fresh_id, now)
    }
}

/// A drain marks items as completed or failed only, and as completed only
/// once the item was delivered.
pub proof fn lemma_drain_marks_final(
    actors: Map<Seq<char>, u64>,
    next_actor: u64,
    phase: DrainPhaseView,
    event: DrainEventView,
    fresh_id: u128,
    now: i64,
)
    ensures
        drain_spec(actors, next_actor, phase, event, fresh_id, now).action matches DrainActionView::Mark {
            status,
            ..
        } ==> {
            &&& status == QueueStatus::Completed || status == QueueStatus::Failed
            &&& status == QueueStatus::Completed ==> phase is Delivering && event is Delivered
        },
{
}

/// A drain hands an item only to the actor that is registered for the
/// item's conversation once the step is taken.
pub proof fn lemma_drain_delivers_to_registered(
    actors: Map<Seq<char>, u64>,
    next_actor: u64,
    phase: DrainPhaseView,
    event: DrainEventView,
    fresh_id: u128,
    now: i64,
)
    ensures
        ({
            let outcome = drain_spec(actors, next_actor, phase, event, fresh_id, now);
            outcome.action matches DrainActionView::Deliver { actor, message }
                ==> outcome.actors.dom().contains(message.chat_guid)
                && outcome.actors[message.chat_guid] == actor
        }),
{
}

} // verus!
