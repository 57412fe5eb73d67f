//! The registry of live actors: at most one per conversation.
//!
//! Each actor that is registered gets a number of its own, by which the
//! caller finds the actor's mailbox and task again.

use dashmap::DashMap;
use vstd::prelude::*;

verus! {

/// `dashmap::DashMap`, opaque: what a map holds is spoken of through
/// [`entries_of`] only.
#[verifier::external_type_specification]
#[verifier::external_body]
#[verifier::reject_recursive_types(K)]
#[verifier::reject_recursive_types(V)]
#[verifier::reject_recursive_types(S)]
pub struct ExDashMap<K, V, S>(DashMap<K, V, S>);

/// A concurrent map from conversation ids to actor numbers.
pub type ActorMap = DashMap<String, u64>;

/// What a map from conversation ids to actor numbers holds.
pub uninterp spec fn entries_of(map: ActorMap) -> Map<Seq<char>, u64>;

/// Calls `DashMap::new`: the new map holds no key.
#[verifier::external_body]
fn map_new() -> (r: ActorMap)
    ensures
        entries_of(r).dom() == Set::<Seq<char>>::empty(),
{
    DashMap::new()
}

/// Calls `DashMap::get` and copies the value out of the guard: the value
/// stored under `key`, if there is one.
#[verifier::external_body]
fn map_get(map: &ActorMap, key: &str) -> (r: Option<u64>)
    ensures
        r == if entries_of(*map).dom().contains(key@) {
            Some(entries_of(*map)[key@])
        } else {
            None
        },
{
    match map.get(key) {
        Some(entry) => Some(*entry.value()),
        None => None,
    }
}

/// Calls `DashMap::insert`: afterwards `key` maps to `value`, every other
/// key is as before, and the value that `key` had is returned.
#[verifier::external_body]
fn map_insert(map: &mut ActorMap, key: String, value: u64) -> (r: Option<u64>)
    ensures
        entries_of(*final(map)) == entries_of(*old(map)).insert(key@, value),
        r == if entries_of(*old(map)).dom().contains(key@) {
            Some(entries_of(*old(map))[key@])
        } else {
            None
        },
{
    map.insert(key, value)
}

/// Calls `DashMap::remove`: afterwards `key` is absent, every other key is
/// as before, and the value that `key` had is returned.
#[verifier::external_body]
fn map_remove(map: &mut ActorMap, key: &str) -> (r: Option<u64>)
    ensures
        entries_of(*final(map)) == entries_of(*old(map)).remove(key@),
        r == if entries_of(*old(map)).dom().contains(key@) {
            Some(entries_of(*old(map))[key@])
        } else {
            None
        },
{
    match map.remove(key) {
        Some((_, value)) => Some(value),
        None => None,
    }
}

/// Walks the map with `DashMap::iter` and copies each key. The keys come
/// in no particular order; each key of the map comes exactly once.
#[verifier::external_body]
fn map_keys(map: &ActorMap) -> (r: Vec<String>)
    ensures
        r.deep_view().no_duplicates(),
        r.deep_view().to_set() == entries_of(*map).dom(),
{
    let mut keys: Vec<String> = Vec::new();
    for entry in map.iter() {
        keys.push(entry.key().clone());
    }
    keys
}

/// The live actors, by conversation.
pub struct AgentRegistry {
    agents: ActorMap,
    next_number: u64,
}

/// What came of making sure that a conversation has an actor.
#[derive(Clone, Copy, Debug, PartialEq, Eq, Structural)]
pub enum Ensured {
    /// The conversation had an actor already, with this number.
    Existing(u64),
    /// The conversation had none: one was registered under this number.
    Created(u64),
}

impl Ensured {
    /// The number of the conversation's actor.
    pub open spec fn number(self) -> u64 {
        match self {
            Ensured::Existing(n) => n,
            Ensured::Created(n) => n,
        }
    }

    /// The number of the conversation's actor.
    pub fn actor(&self) -> (r: u64)
        ensures
            r == self.number(),
    {
        match self {
            Ensured::Existing(n) => *n,
            Ensured::Created(n) => *n,
        }
    }
}

/// The number after `n`, starting over after the last one.
pub open spec fn number_after(n: u64) -> u64 {
    if n == u64::MAX {
        0
    } else {
        (n + 1) as u64
    }
}

/// Making sure that `chat_guid` has an actor among `actors`, `next` being
/// the number for a new one: the actors and the next number afterwards,
/// and what came of it.
pub open spec fn ensure_spec(actors: Map<Seq<char>, u64>, next: u64, chat_guid: Seq<char>) -> (
    Map<Seq<char>, u64>,
    u64,
    Ensured,
) {
    if actors.dom().contains(chat_guid) {
        (actors, next, Ensured::Existing(actors[chat_guid]))
    } else {
        (actors.insert(chat_guid, next), number_after(next), Ensured::Created(next))
    }
}

impl AgentRegistry {
    /// The actors, as a map from conversation id to actor number.
    pub closed spec fn view(&self) -> Map<Seq<char>, u64> {
        entries_of(self.agents)
    }

    /// The number that the next new actor gets.
    pub closed spec fn next(&self) -> u64 {
        self.next_number
    }

    /// A registry without actors.
    pub fn new() -> (r: AgentRegistry)
        ensures
            r@ == Map::<Seq<char>, u64>::empty(),
            r.next() == 0,
    {
        let agents = map_new();
        assert(entries_of(agents) =~= Map::<Seq<char>, u64>::empty());
        AgentRegistry { agents, next_number: 0 }
    }

    /// The number of the actor of `chat_guid`, if it has one.
    pub fn get(&self, chat_guid: &str) -> (r: Option<u64>)
        ensures
            r == if self@.dom().contains(chat_guid@) {
                Some(self@[chat_guid@])
            } else {
                None
            },
    {
        map_get(&self.agents, chat_guid)
    }

    /// Whether `chat_guid` has an actor.
    pub fn contains(&self, chat_guid: &str) -> (r: bool)
        ensures
            r == self@.dom().contains(chat_guid@),
    {
        map_get(&self.agents, chat_guid).is_some()
    }

    /// Makes sure that `chat_guid` has an actor: an existing one is kept,
    /// otherwise one is registered under the next number. No other
    /// conversation is touched.
    pub fn ensure(&mut self, chat_guid: &str) -> (r: Ensured)
        ensures
            (final(self)@, final(self).next(), r) == ensure_spec(
                old(self)@,
                old(self).next(),
                chat_guid@,
            ),
    {
        match map_get(&self.agents, chat_guid) {
            Some(n) => Ensured::Existing(n),
            None => {
                let n: u64 = self.next_number;
                map_insert(&mut self.agents, chat_guid.to_owned(), n);
                self.next_number = if n == u64::MAX {
                    0
                } else {
                    n + 1
                };
                Ensured::Created(n)
            },
        }
    }

    /// Unregisters the actor of `chat_guid` and returns its number, if it
    /// has one. No other conversation is touched.
    pub fn remove(&mut self, chat_guid: &str) -> (r: Option<u64>)
        ensures
            final(self)@ == old(self)@.remove(chat_guid@),
            final(self).next() == old(self).next(),
            r == if old(self)@.dom().contains(chat_guid@) {
                Some(old(self)@[chat_guid@])
            } else {
                None
            },
    {
        map_remove(&mut self.agents, chat_guid)
    }

    /// The conversations that have an actor, each once, in no particular
    /// order.
    pub fn chat_guids(&self) -> (r: Vec<String>)
        ensures
            r.deep_view().no_duplicates(),
            r.deep_view().to_set() == self@.dom(),
    {
        map_keys(&self.agents)
    }
}

/// Making sure twice that a conversation has an actor registers one actor:
/// the second time finds the actor of the first time and changes nothing.
/// No other conversation's actor is touched.
pub proof fn lemma_ensure_is_idempotent(actors: Map<Seq<char>, u64>, next: u64, chat_guid: Seq<char>)
    ensures
        ({
            let (once, next_once, first) = ensure_spec(actors, next, chat_guid);
            let (twice, next_twice, second) = ensure_spec(once, next_once, chat_guid);
            &&& once.dom() == actors.dom().insert(chat_guid)
            &&& twice == once
            &&& next_twice == next_once
            &&& second == Ensured::Existing(first.number())
            &&& forall|other: Seq<char>|
                other != chat_guid && actors.dom().contains(other) ==> #[trigger] once[other]
                    == actors[other]
        }),
{
    let (once, next_once, first) = ensure_spec(actors, next, chat_guid);
    assert(once.dom() =~= actors.dom().insert(chat_guid));
}

} // verus!
