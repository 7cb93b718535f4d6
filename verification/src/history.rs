//! What is remembered of each conversation: one transcript per conversation
//! key, in the order in which the turns were appended.

use std::collections::HashMap;
use vstd::prelude::*;

verus! {

broadcast use vstd::std_specs::hash::group_hash_axioms;

/// Who said a turn.
#[derive(Clone, Copy, Debug, PartialEq, Eq, Structural)]
pub enum Role {
    User,
    Assistant,
}

/// One turn of a conversation. It is never changed once appended.
#[derive(Debug)]
pub struct Turn {
    pub role: Role,
    pub content: String,
}

/// A turn as a plain value: who said it, and what.
pub type TurnView = (Role, Seq<char>);

/// The store as a plain value: the transcript of each key that has one.
pub type StoreView = Map<u64, Seq<TurnView>>;

impl View for Turn {
    type V = TurnView;

    open spec fn view(&self) -> TurnView {
        (self.role, self.content@)
    }
}

/// The turns of a transcript as plain values.
pub open spec fn turn_views(turns: Seq<Turn>) -> Seq<TurnView> {
    Seq::new(turns.len(), |i: int| turns[i]@)
}

/// The store after the transcript of `key` was asked for: an empty one was
/// made where there was none.
pub open spec fn ensured(store: StoreView, key: u64) -> StoreView {
    if store.contains_key(key) {
        store
    } else {
        store.insert(key, Seq::empty())
    }
}

/// The store after `turn` was appended to the transcript of `key`.
pub open spec fn appended(store: StoreView, key: u64, turn: TurnView) -> StoreView {
    ensured(store, key).insert(key, ensured(store, key)[key].push(turn))
}

/// The store after each of `events`, a key with a turn, was appended in order.
pub open spec fn replayed(store: StoreView, events: Seq<(u64, TurnView)>) -> StoreView
    decreases events.len(),
{
    if events.len() == 0 {
        store
    } else {
        appended(replayed(store, events.drop_last()), events.last().0, events.last().1)
    }
}

/// The turns that `events` hold for `key`, in their order of arrival.
pub open spec fn turns_for(events: Seq<(u64, TurnView)>, key: u64) -> Seq<TurnView>
    decreases events.len(),
{
    if events.len() == 0 {
        Seq::empty()
    } else if events.last().0 == key {
        turns_for(events.drop_last(), key).push(events.last().1)
    } else {
        turns_for(events.drop_last(), key)
    }
}

/// The transcript of `key`, taken as empty where it has none.
pub open spec fn known(store: StoreView, key: u64) -> Seq<TurnView> {
    if store.contains_key(key) {
        store[key]
    } else {
        Seq::empty()
    }
}

/// However appends to different keys are interleaved, the transcript of a key
/// grows by exactly the turns appended to that key, in their order of arrival.
pub proof fn lemma_replay_keeps_arrival_order(
    store: StoreView,
    events: Seq<(u64, TurnView)>,
    key: u64,
)
    ensures
        replayed(store, events).contains_key(key) <==> store.contains_key(key) || turns_for(
            events,
            key,
        ).len() > 0,
        replayed(store, events).contains_key(key) ==> replayed(store, events)[key] == known(
            store,
            key,
        ) + turns_for(events, key),
    decreases events.len(),
{
    if events.len() > 0 {
        lemma_replay_keeps_arrival_order(store, events.drop_last(), key);
        let before = replayed(store, events.drop_last());
        let start = known(store, key);
        if events.last().0 == key {
            assert(start + turns_for(events.drop_last(), key).push(events.last().1) =~= (start
                + turns_for(events.drop_last(), key)).push(events.last().1));
            if !before.contains_key(key) {
                assert(turns_for(events.drop_last(), key) =~= Seq::<TurnView>::empty());
                assert(start =~= Seq::<TurnView>::empty());
            }
        }
    } else {
        if store.contains_key(key) {
            assert(store[key] + Seq::<TurnView>::empty() =~= store[key]);
        }
    }
}

/// Appends to two different keys can be made in either order.
pub proof fn lemma_appends_commute(store: StoreView, a: u64, s: TurnView, b: u64, t: TurnView)
    requires
        a != b,
    ensures
        appended(appended(store, a, s), b, t) == appended(appended(store, b, t), a, s),
        appended(store, a, s)[b] == store[b],
        appended(store, a, s).contains_key(b) == store.contains_key(b),
{
    assert(appended(appended(store, a, s), b, t) =~= appended(appended(store, b, t), a, s));
}

/// Removing a key a second time changes nothing, and after a removal the key
/// has no transcript, whether it had one before or not.
pub proof fn lemma_remove_idempotent(store: StoreView, key: u64)
    ensures
        !store.remove(key).contains_key(key),
        store.remove(key).remove(key) == store.remove(key),
        !store.contains_key(key) ==> store.remove(key) == store,
{
    assert(store.remove(key).remove(key) =~= store.remove(key));
    if !store.contains_key(key) {
        assert(store.remove(key) =~= store);
    }
}

/// In a store that was cleared, the transcript asked for under any key is
/// empty.
pub proof fn lemma_empty_after_clear(key: u64)
    ensures
        ensured(Map::<u64, Seq<TurnView>>::empty(), key).contains_key(key),
        ensured(Map::<u64, Seq<TurnView>>::empty(), key)[key] == Seq::<TurnView>::empty(),
{
}

impl Turn {
    /// A turn that the user submitted.
    pub fn user(content: String) -> (turn: Turn)
        ensures
            turn@ == (Role::User, content@),
    {
        Turn { role: Role::User, content }
    }

    /// A turn that the backend generated.
    pub fn assistant(content: String) -> (turn: Turn)
        ensures
            turn@ == (Role::Assistant, content@),
    {
        Turn { role: Role::Assistant, content }
    }

    /// A copy of the turn.
    pub fn duplicate(&self) -> (turn: Turn)
        ensures
            turn@ == self@,
    {
        Turn { role: self.role, content: self.content.clone() }
    }
}

/// A copy of a transcript.
pub fn copy_turns(turns: &Vec<Turn>) -> (copy: Vec<Turn>)
    ensures
        turn_views(copy@) == turn_views(turns@),
{
    let mut copy: Vec<Turn> = Vec::new();
    let mut i: usize = 0;
    while i < turns.len()
        invariant
            i <= turns@.len(),
            copy@.len() == i,
            forall|j: int| 0 <= j < i ==> (#[trigger] copy@[j])@ == turns@[j]@,
        decreases turns@.len() - i,
    {
        copy.push(turns[i].duplicate());
        i += 1;
    }
    assert(turn_views(copy@) =~= turn_views(turns@));
    copy
}

/// The transcripts of all conversations, by conversation key.
pub struct HistoryStore {
    transcripts: HashMap<u64, Vec<Turn>>,
}

impl View for HistoryStore {
    type V = StoreView;

    closed spec fn view(&self) -> StoreView {
        Map::new(
            |key: u64| self.transcripts@.contains_key(key),
            |key: u64| turn_views(self.transcripts@[key]@),
        )
    }
}

impl HistoryStore {
    /// A store that remembers nothing.
    pub fn new() -> (store: HistoryStore)
        ensures
            store@ == Map::<u64, Seq<TurnView>>::empty(),
    {
        let store = HistoryStore { transcripts: HashMap::new() };
        assert(store@ =~= Map::<u64, Seq<TurnView>>::empty());
        store
    }

    /// Whether `key` has a transcript.
    pub fn contains(&self, key: u64) -> (found: bool)
        ensures
            found == self@.contains_key(key),
    {
        self.transcripts.contains_key(&key)
    }

    /// How many turns the transcript of `key` holds, if it has one.
    pub fn turn_count(&self, key: u64) -> (count: Option<usize>)
        ensures
            count is Some <==> self@.contains_key(key),
            count matches Some(n) ==> n == self@[key].len(),
    {
        match self.transcripts.get(&key) {
            Some(turns) => Some(turns.len()),
            None => None,
        }
    }

    /// The transcript of `key`, as a copy; an empty one is made first where
    /// the key has none.
    pub fn get_or_create(&mut self, key: u64) -> (turns: Vec<Turn>)
        ensures
            final(self)@ == ensured(old(self)@, key),
            turn_views(turns@) == final(self)@[key],
    {
        if !self.transcripts.contains_key(&key) {
            self.transcripts.insert(key, Vec::new());
            assert(turn_views(self.transcripts@[key]@) =~= Seq::<TurnView>::empty());
            assert(self@ =~= ensured(old(self)@, key));
        }
        match self.transcripts.get(&key) {
            Some(turns) => copy_turns(turns),
            None => Vec::new(),
        }
    }

    /// Adds `turn` behind the last turn of the transcript of `key`. Every
    /// other transcript stays as it is.
    pub fn append(&mut self, key: u64, turn: Turn)
        ensures
            final(self)@ == appended(old(self)@, key, turn@),
    {
        let mut turns = match self.transcripts.remove(&key) {
            Some(turns) => turns,
            None => Vec::new(),
        };
        let ghost before = turn_views(turns@);
        assert(before =~= ensured(old(self)@, key)[key]);
        turns.push(turn);
        assert(turn_views(turns@) =~= before.push(turn@));
        self.transcripts.insert(key, turns);
        assert(self@ =~= appended(old(self)@, key, turn@));
    }

    /// Forgets the transcript of `key`. Nothing happens where it has none.
    pub fn remove(&mut self, key: u64)
        ensures
            final(self)@ == old(self)@.remove(key),
    {
        self.transcripts.remove(&key);
        assert(self@ =~= old(self)@.remove(key));
    }

    /// Forgets every transcript.
    pub fn clear_all(&mut self)
        ensures
            final(self)@ == Map::<u64, Seq<TurnView>>::empty(),
    {
        self.transcripts.clear();
        assert(self@ =~= Map::<u64, Seq<TurnView>>::empty());
    }
}

} // verus!
