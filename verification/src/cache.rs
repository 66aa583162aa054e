use crate::codec::{encode_key, key_text};
use crate::policy::ShouldCache;
use crate::store::{Backend, Flush, Store, StoreError, StoreState};
use vstd::prelude::*;

verus! {

/// What the cache knows of an input before anything is produced for it.
#[derive(Debug)]
pub enum Recall {
    /// The store holds a value for the input.
    Hit(String),
    /// Nothing is stored. `token` is the key under which a produced value
    /// would be stored, or `None` where the input has no such key.
    Miss { token: Option<String> },
}

/// The view of an optional string.
pub open spec fn text_of(token: Option<String>) -> Option<Seq<char>> {
    match token {
        Some(t) => Some(t@),
        None => None,
    }
}

/// The value of a successful outcome, as text.
pub open spec fn produced_text<E>(outcome: Result<String, E>) -> Option<Seq<char>> {
    match outcome {
        Ok(value) => Some(value@),
        Err(_) => None,
    }
}

/// A memoizing cache: it owns a store and fills it lazily with values that
/// its callers produce.
pub struct Cache {
    store: Store,
}

impl View for Cache {
    type V = StoreState;

    closed spec fn view(&self) -> StoreState {
        self.store@
    }
}

impl Cache {
    /// A cache over the snapshot that `contents` holds: the text of the
    /// cache file, empty for a new one. Text that is no mapping is refused.
    pub fn new(contents: &str) -> (made: Result<Cache, StoreError>)
        ensures
            match made {
                Ok(cache) => cache.wf() && cache@ == (StoreState {
                    map: Store::snapshot_mapping(contents@).unwrap(),
                    ..StoreState::empty(Backend::Snapshot)
                }) && Store::snapshot_mapping(contents@) is Some,
                Err(error) => Store::snapshot_mapping(contents@) is None && error is Parse,
            },
    {
        match Store::open_snapshot(contents) {
            Ok(store) => Ok(Cache { store }),
            Err(error) => Err(error),
        }
    }

    /// A cache over a store that is already open.
    pub fn over(store: Store) -> (cache: Cache)
        ensures
            cache@ == store@,
            cache.wf() == store.wf(),
    {
        Cache { store }
    }

    /// The cache is well formed: its store is.
    pub closed spec fn wf(&self) -> bool {
        self.store.wf()
    }

    /// The value stored under `key`, if there is one.
    pub fn get(&self, key: &str) -> (found: Option<&String>)
        ensures
            match found {
                Some(value) => self@.lookup(key@) == Some(value@),
                None => self@.lookup(key@) is None,
            },
    {
        self.store.lookup(key)
    }

    /// The value stored under `key`; where there is none, what `f` produces,
    /// which is then stored. `f` is called only on a miss, and its failure
    /// is handed on with nothing stored.
    pub fn get_or_insert_with<E, F: FnOnce() -> Result<String, E>>(&mut self, key: String, f: F) -> (got:
        Result<String, E>)
        requires
            old(self).wf(),
            old(self)@.lookup(key@) is None ==> f.requires(()),
        ensures
            final(self).wf(),
            match old(self)@.lookup(key@) {
                Some(stored) => produced_text(got) == Some(stored),
                None => f.ensures((), got),
            },
            final(self)@ == old(self)@.memoized(key@, produced_text(got)),
    {
        match self.store.lookup(key.as_str()) {
            Some(stored) => Ok(stored.clone()),
            None => match f() {
                Ok(value) => {
                    self.store.insert(key, value.clone());
                    Ok(value)
                },
                Err(error) => Err(error),
            },
        }
    }

    /// Looks an input up under its lookup token. An input that has no
    /// token is a miss like any other.
    pub fn recall(&self, input: &str) -> (recalled: Recall)
        ensures
            match recalled {
                Recall::Hit(value) => key_text(input@) is Some && self@.lookup(
                    key_text(input@).unwrap(),
                ) == Some(value@),
                Recall::Miss { token } => text_of(token) == key_text(input@) && (token is Some
                    ==> self@.lookup(token.unwrap()@) is None),
            },
    {
        match encode_key(input) {
            Ok(token) => match self.store.lookup(token.as_str()) {
                Some(stored) => Recall::Hit(stored.clone()),
                None => Recall::Miss { token: Some(token) },
            },
            Err(_) => Recall::Miss { token: None },
        }
    }

    /// Takes in a value that was produced after a miss and hands it back.
    /// It is stored only under a `Yes` verdict, and only where the input
    /// had a token.
    pub fn settle(&mut self, token: Option<String>, verdict: ShouldCache, value: String) -> (kept:
        String)
        requires
            old(self).wf(),
        ensures
            final(self).wf(),
            kept == value,
            final(self)@ == old(self)@.settled(text_of(token), verdict, value@),
    {
        match token {
            Some(t) => {
                if verdict.is_yes() {
                    self.store.insert(t, value.clone());
                }
            },
            None => {},
        }
        value
    }

    /// The value for `input`: the stored one on a hit; else what `produce`
    /// returns, which is stored under a `Yes` verdict. This never fails: an
    /// input without a token, or a store that keeps nothing, is a miss.
    pub fn call<F: FnOnce() -> (ShouldCache, String)>(&mut self, input: &str, produce: F) -> (value:
        String)
        requires
            old(self).wf(),
            produce.requires(()),
        ensures
            final(self).wf(),
            Self::hits(old(self)@, input@) ==> Some(value@) == old(self)@.lookup(
                key_text(input@).unwrap(),
            ) && final(self)@ == old(self)@,
            !Self::hits(old(self)@, input@) ==> exists|verdict: ShouldCache|
                produce.ensures((), (verdict, value)) && final(self)@ == old(self)@.settled(
                    key_text(input@),
                    verdict,
                    value@,
                ),
    {
        match self.recall(input) {
            Recall::Hit(value) => value,
            Recall::Miss { token } => {
                let (verdict, value) = produce();
                self.settle(token, verdict, value)
            },
        }
    }

    /// Whether the store holds a value for the input.
    pub open spec fn hits(store: StoreState, input: Seq<char>) -> bool {
        key_text(input) is Some && store.lookup(key_text(input).unwrap()) is Some
    }

    /// A durable flush: the checkpoint that survives a crash.
    pub fn flush(&mut self) -> (flushed: Result<Flush, StoreError>)
        requires
            old(self).wf(),
        ensures
            final(self).wf(),
            match flushed {
                Ok(Flush::Nothing) => !old(self)@.writes_on_flush() && final(self)@ == old(self)@,
                Ok(Flush::Write { text, sync }) => old(self)@.writes_on_flush()
                    && Store::faithful_text(old(self)@.map) == Some(text@) && sync
                    && final(self)@ == old(self)@.flushed(true),
                Err(error) => old(self)@.writes_on_flush() && Store::faithful_text(
                    old(self)@.map,
                ) is None && error is Serialize && final(self)@ == old(self)@,
            },
    {
        self.store.flush(true)
    }

    /// Hands out the entries of a per-key store that still have to be
    /// written, oldest first.
    pub fn take_writes(&mut self) -> (writes: Vec<(String, String)>)
        ensures
            old(self).wf() ==> final(self).wf(),
            crate::store::texts_of(writes@) == old(self)@.journal,
            final(self)@ == old(self)@.drained(),
    {
        self.store.take_writes()
    }

    /// Ends the cache's life: the store gets its last, best-effort flush
    /// unless a durable one has already brought the disk up to date.
    pub fn close(self) -> (flushed: Result<Flush, StoreError>)
        requires
            self.wf(),
        ensures
            match flushed {
                Ok(Flush::Nothing) => !self@.owes_final_flush(),
                Ok(Flush::Write { text, sync }) => self@.owes_final_flush()
                    && Store::faithful_text(self@.map) == Some(text@) && !sync,
                Err(error) => self@.owes_final_flush() && Store::faithful_text(self@.map)
                    is None && error is Serialize,
            },
    {
        self.store.close()
    }
}

} // verus!
