use crate::codec::{
    contents_of, describe, distinct_keys, parse_snapshot, render_snapshot, snapshot_contents,
    snapshot_text,
};
use crate::policy::ShouldCache;
use crate::laws::pairs_are_reproduced;
use vstd::prelude::*;
use vstd::string::StringExecFns;

verus! {

/// How a store reaches the disk.
#[derive(PartialEq, Eq, Structural, Clone, Copy, Debug)]
pub enum Backend {
    /// The whole mapping is one text, read at opening and written at a flush.
    Snapshot,
    /// Each entry is written by itself as soon as it is inserted.
    PerKey,
    /// The backing resource could not be opened: nothing is kept.
    Null,
}

/// Why a store could not be opened or flushed.
#[derive(Debug)]
pub enum StoreError {
    /// The snapshot holds text that is no mapping from strings to strings.
    Parse(String),
    /// The mapping could not be turned into text.
    Serialize(String),
}

impl StoreError {
    pub fn message(&self) -> (text: String)
        ensures
            text@ == match *self {
                StoreError::Parse(m) => m@,
                StoreError::Serialize(m) => m@,
            },
    {
        match self {
            StoreError::Parse(m) => m.clone(),
            StoreError::Serialize(m) => m.clone(),
        }
    }
}

/// What the caller has to do with the backing file after a flush.
#[derive(Debug)]
pub enum Flush {
    /// Nothing has to be written.
    Nothing,
    /// The file is to hold exactly `text`; with `sync` the write has to
    /// survive a crash.
    Write { text: String, sync: bool },
}

/// What a store is, to its callers.
pub ghost struct StoreState {
    pub backend: Backend,
    /// The entries that a lookup finds.
    pub map: Map<Seq<char>, Seq<char>>,
    /// The entries of a per-key store that still have to be written, oldest first.
    pub journal: Seq<(Seq<char>, Seq<char>)>,
    /// A durable flush has happened and nothing was inserted since.
    pub checkpointed: bool,
}

impl StoreState {
    pub open spec fn empty(backend: Backend) -> StoreState {
        StoreState { backend, map: Map::empty(), journal: Seq::empty(), checkpointed: false }
    }

    pub open spec fn lookup(self, key: Seq<char>) -> Option<Seq<char>> {
        if self.map.contains_key(key) {
            Some(self.map[key])
        } else {
            None
        }
    }

    pub open spec fn insert(self, key: Seq<char>, value: Seq<char>) -> StoreState {
        match self.backend {
            Backend::Snapshot => StoreState {
                map: self.map.insert(key, value),
                checkpointed: false,
                ..self
            },
            Backend::PerKey => StoreState {
                map: self.map.insert(key, value),
                journal: self.journal.push((key, value)),
                ..self
            },
            Backend::Null => self,
        }
    }

    /// The store after a get-or-compute of `key`: a hit changes nothing, a
    /// miss stores what was produced, if anything was.
    pub open spec fn memoized(self, key: Seq<char>, produced: Option<Seq<char>>) -> StoreState {
        if self.lookup(key) is Some {
            self
        } else {
            match produced {
                Some(value) => self.insert(key, value),
                None => self,
            }
        }
    }

    /// The store after a value was produced for a lookup token: the value
    /// is stored only where there is a token and the verdict permits it.
    pub open spec fn settled(
        self,
        token: Option<Seq<char>>,
        verdict: ShouldCache,
        value: Seq<char>,
    ) -> StoreState {
        match token {
            Some(t) => if verdict.permits() {
                self.insert(t, value)
            } else {
                self
            },
            None => self,
        }
    }

    /// Whether a flush has anything to write: only a snapshot is written as a whole.
    pub open spec fn writes_on_flush(self) -> bool {
        self.backend == Backend::Snapshot
    }

    /// The store after a flush that succeeded.
    pub open spec fn flushed(self, durable: bool) -> StoreState {
        if self.writes_on_flush() {
            StoreState { checkpointed: self.checkpointed || durable, ..self }
        } else {
            self
        }
    }

    /// The store after its pending per-key writes were handed out.
    pub open spec fn drained(self) -> StoreState {
        StoreState { journal: Seq::empty(), ..self }
    }

    /// Whether the store still owes the disk a write when its owner lets go of it.
    pub open spec fn owes_final_flush(self) -> bool {
        self.writes_on_flush() && !self.checkpointed
    }
}

/// The pairs of texts that a list of pairs of strings holds.
pub open spec fn texts_of(pairs: Seq<(String, String)>) -> Seq<(Seq<char>, Seq<char>)> {
    pairs.map_values(|p: (String, String)| (p.0@, p.1@))
}

/// No pair from index `from` on has the key.
spec fn absent_from(pairs: Seq<(String, String)>, key: Seq<char>, from: int) -> bool {
    forall|j: int| from <= j < pairs.len() ==> (#[trigger] pairs[j]).0@ != key
}

proof fn lemma_absent(pairs: Seq<(String, String)>, key: Seq<char>)
    requires
        absent_from(pairs, key, 0),
    ensures
        !contents_of(pairs).contains_key(key),
    decreases pairs.len(),
{
    if pairs.len() > 0 {
        lemma_absent(pairs.drop_last(), key);
    }
}

proof fn lemma_found(pairs: Seq<(String, String)>, key: Seq<char>, i: int)
    requires
        0 <= i < pairs.len(),
        pairs[i].0@ == key,
        absent_from(pairs, key, i + 1),
    ensures
        contents_of(pairs).contains_key(key),
        contents_of(pairs)[key] == pairs[i].1@,
    decreases pairs.len(),
{
    if i < pairs.len() - 1 {
        lemma_found(pairs.drop_last(), key, i);
    }
}

proof fn lemma_replaced(pairs: Seq<(String, String)>, i: int, key: String, value: String)
    requires
        0 <= i < pairs.len(),
        pairs[i].0@ == key@,
        absent_from(pairs, key@, i + 1),
    ensures
        contents_of(pairs.update(i, (key, value))) =~= contents_of(pairs).insert(key@, value@),
    decreases pairs.len(),
{
    let changed = pairs.update(i, (key, value));
    if i == pairs.len() - 1 {
        assert(changed.drop_last() =~= pairs.drop_last());
    } else {
        assert(changed.drop_last() =~= pairs.drop_last().update(i, (key, value)));
        lemma_replaced(pairs.drop_last(), i, key, value);
    }
}

proof fn lemma_pushed(pairs: Seq<(String, String)>, pair: (String, String))
    ensures
        contents_of(pairs.push(pair)) == contents_of(pairs).insert(pair.0@, pair.1@),
        texts_of(pairs.push(pair)) == texts_of(pairs).push((pair.0@, pair.1@)),
{
    assert(pairs.push(pair).drop_last() =~= pairs);
}

/// The pair is found in the mapping: its key is there, with its value.
spec fn holds(contents: Map<Seq<char>, Seq<char>>, pair: (String, String)) -> bool {
    contents.contains_key(pair.0@) && contents[pair.0@] == pair.1@
}

/// Each of the pairs is found in the mapping.
spec fn holds_each(contents: Map<Seq<char>, Seq<char>>, pairs: Seq<(String, String)>) -> bool {
    forall|i: int| 0 <= i < pairs.len() ==> holds(contents, #[trigger] pairs[i])
}

proof fn lemma_same_mapping(a: Seq<(String, String)>, b: Seq<(String, String)>)
    requires
        distinct_keys(a),
        distinct_keys(b),
    ensures
        (holds_each(contents_of(b), a) && holds_each(contents_of(a), b)) <==> contents_of(a)
            == contents_of(b),
{
    pairs_are_reproduced(a);
    pairs_are_reproduced(b);
    if holds_each(contents_of(b), a) && holds_each(contents_of(a), b) {
        assert forall|key: Seq<char>| contents_of(a).contains_key(key) implies contents_of(
            b,
        ).contains_key(key) && contents_of(b)[key] == contents_of(a)[key] by {
            let i = choose|i: int| 0 <= i < a.len() && (#[trigger] a[i]).0@ == key;
            assert(holds(contents_of(b), a[i]));
        }
        assert forall|key: Seq<char>| contents_of(b).contains_key(key) implies contents_of(
            a,
        ).contains_key(key) by {
            let j = choose|j: int| 0 <= j < b.len() && (#[trigger] b[j]).0@ == key;
            assert(holds(contents_of(a), b[j]));
        }
        assert(contents_of(a) =~= contents_of(b));
    }
    if contents_of(a) == contents_of(b) {
        assert forall|i: int| 0 <= i < a.len() implies holds(contents_of(b), #[trigger] a[i]) by {}
        assert forall|j: int| 0 <= j < b.len() implies holds(contents_of(a), #[trigger] b[j]) by {}
    }
}

/// The index of the last pair with the key, if there is one.
fn last_index_of(pairs: &Vec<(String, String)>, key: &String) -> (r: Option<usize>)
    ensures
        match r {
            Some(i) => i < pairs.len() && pairs[i as int].0@ == key@ && absent_from(
                pairs@,
                key@,
                i + 1,
            ),
            None => absent_from(pairs@, key@, 0),
        },
{
    let mut i: usize = pairs.len();
    while i > 0
        invariant
            i <= pairs.len(),
            absent_from(pairs@, key@, i as int),
        decreases i,
    {
        i -= 1;
        if pairs[i].0 == *key {
            return Some(i);
        }
    }
    None
}

/// The durable mapping from keys to values, and what of it still has to
/// reach the disk.
pub struct Store {
    backend: Backend,
    entries: Vec<(String, String)>,
    journal: Vec<(String, String)>,
    checkpointed: bool,
}

impl View for Store {
    type V = StoreState;

    closed spec fn view(&self) -> StoreState {
        StoreState {
            backend: self.backend,
            map: if self.backend == Backend::Null {
                Map::empty()
            } else {
                contents_of(self.entries@)
            },
            journal: if self.backend == Backend::Null {
                Seq::empty()
            } else {
                texts_of(self.journal@)
            },
            checkpointed: self.checkpointed,
        }
    }
}

impl Store {
    /// The store is well formed: its entries hold each key once.
    pub closed spec fn wf(&self) -> bool {
        distinct_keys(self.entries@)
    }

    /// A store that holds nothing yet.
    pub fn empty(backend: Backend) -> (store: Store)
        ensures
            store@ == StoreState::empty(backend),
            store.wf(),
    {
        let store = Store { backend, entries: Vec::new(), journal: Vec::new(), checkpointed: false };
        assert(texts_of(store.journal@) =~= Seq::empty());
        store
    }

    pub fn backend(&self) -> (backend: Backend)
        ensures
            backend == self@.backend,
    {
        self.backend
    }

    /// The value stored under `key`; absence is an ordinary outcome.
    pub fn lookup(&self, key: &str) -> (found: Option<&String>)
        ensures
            match found {
                Some(value) => self@.lookup(key@) == Some(value@),
                None => self@.lookup(key@) is None,
            },
    {
        if self.backend == Backend::Null {
            return None;
        }
        let owned = key.to_owned();
        match last_index_of(&self.entries, &owned) {
            Some(i) => {
                proof {
                    lemma_found(self.entries@, key@, i as int);
                }
                Some(&self.entries[i].1)
            },
            None => {
                proof {
                    lemma_absent(self.entries@, key@);
                }
                None
            },
        }
    }

    /// Writes or overwrites one entry.
    pub fn insert(&mut self, key: String, value: String)
        requires
            old(self).wf(),
        ensures
            final(self).wf(),
            final(self)@ == old(self)@.insert(key@, value@),
    {
        match self.backend {
            Backend::Null => {},
            Backend::Snapshot => {
                self.put(key, value);
                self.checkpointed = false;
            },
            Backend::PerKey => {
                let ghost journal = self.journal@;
                let record = (key.clone(), value.clone());
                self.put(key, value);
                self.journal.push(record);
                proof {
                    lemma_pushed(journal, record);
                }
            },
        }
    }

    /// A store that holds what the pairs stand for, a later pair replacing
    /// an earlier one with the same key. Nothing of it is owed to the disk.
    pub fn from_pairs(backend: Backend, pairs: &Vec<(String, String)>) -> (store: Store)
        ensures
            store.wf(),
            store@ == (StoreState {
                map: if backend == Backend::Null {
                    Map::empty()
                } else {
                    contents_of(pairs@)
                },
                ..StoreState::empty(backend)
            }),
    {
        let mut store = Store { backend, entries: Vec::new(), journal: Vec::new(), checkpointed: false };
        let mut i: usize = 0;
        while i < pairs.len()
            invariant
                i <= pairs.len(),
                store.wf(),
                store.backend == backend,
                store.journal@.len() == 0,
                !store.checkpointed,
                contents_of(store.entries@) == contents_of(pairs@.take(i as int)),
            decreases pairs.len() - i,
        {
            proof {
                assert(pairs@.take(i + 1).drop_last() =~= pairs@.take(i as int));
            }
            store.put(pairs[i].0.clone(), pairs[i].1.clone());
            i += 1;
        }
        proof {
            assert(pairs@.take(i as int) =~= pairs@);
            assert(texts_of(store.journal@) =~= Seq::empty());
        }
        store
    }

    /// Opens a snapshot store on the text that its file holds. An empty text
    /// (a new or missing file) is the empty mapping; any other text has to
    /// be a mapping from strings to strings, or the store is refused.
    pub fn open_snapshot(contents: &str) -> (opened: Result<Store, StoreError>)
        ensures
            match opened {
                Ok(store) => store.wf() && store@ == (StoreState {
                    map: Self::snapshot_mapping(contents@).unwrap(),
                    ..StoreState::empty(Backend::Snapshot)
                }) && Self::snapshot_mapping(contents@) is Some,
                Err(error) => Self::snapshot_mapping(contents@) is None && error is Parse,
            },
    {
        if contents.is_empty() {
            return Ok(Store::empty(Backend::Snapshot));
        }
        match parse_snapshot(contents) {
            Ok(pairs) => Ok(Store::from_pairs(Backend::Snapshot, &pairs)),
            Err(error) => Err(StoreError::Parse(describe(&error))),
        }
    }

    /// The mapping that a snapshot text holds, if it holds one.
    pub open spec fn snapshot_mapping(contents: Seq<char>) -> Option<Map<Seq<char>, Seq<char>>> {
        if contents.len() == 0 {
            Some(Map::empty())
        } else {
            snapshot_contents(contents)
        }
    }

    /// Opens a per-key store on what the backing resource gave: its
    /// entries, or the reason why it could not be opened. In the second case
    /// the store keeps nothing, and every lookup misses.
    pub fn open_per_key(loaded: Result<Vec<(String, String)>, String>) -> (store: Store)
        ensures
            store.wf(),
            store@ == match loaded {
                Ok(pairs) => (StoreState {
                    map: contents_of(pairs@),
                    ..StoreState::empty(Backend::PerKey)
                }),
                Err(_) => StoreState::empty(Backend::Null),
            },
    {
        match loaded {
            Ok(pairs) => Store::from_pairs(Backend::PerKey, &pairs),
            Err(_) => Store::empty(Backend::Null),
        }
    }

    /// The entries of the store as pairs, each key once.
    pub fn entries(&self) -> (pairs: Vec<(String, String)>)
        requires
            self.wf(),
        ensures
            contents_of(pairs@) == self@.map,
            distinct_keys(pairs@),
    {
        let mut pairs: Vec<(String, String)> = Vec::new();
        if self.backend == Backend::Null {
            return pairs;
        }
        let mut i: usize = 0;
        while i < self.entries.len()
            invariant
                i <= self.entries.len(),
                distinct_keys(self.entries@),
                pairs@.len() == i,
                forall|k: int| 0 <= k < i ==> (#[trigger] pairs@[k]).0@ == self.entries@[k].0@,
                contents_of(pairs@) == contents_of(self.entries@.take(i as int)),
            decreases self.entries.len() - i,
        {
            let pair = (self.entries[i].0.clone(), self.entries[i].1.clone());
            proof {
                assert(self.entries@.take(i + 1).drop_last() =~= self.entries@.take(i as int));
                lemma_pushed(pairs@, pair);
            }
            pairs.push(pair);
            i += 1;
        }
        proof {
            assert(self.entries@.take(i as int) =~= self.entries@);
        }
        pairs
    }

    /// The text that a flush writes for a mapping: its snapshot, where there
    /// is one and it reads back as that same mapping.
    pub open spec fn faithful_text(contents: Map<Seq<char>, Seq<char>>) -> Option<Seq<char>> {
        match snapshot_text(contents) {
            Some(text) => if Self::snapshot_mapping(text) == Some(contents) {
                Some(text)
            } else {
                None
            },
            None => None,
        }
    }

    /// Whether each of the pairs is found in the store.
    fn holds_all(&self, pairs: &Vec<(String, String)>) -> (all: bool)
        ensures
            all == holds_each(self@.map, pairs@),
    {
        let mut i: usize = 0;
        while i < pairs.len()
            invariant
                i <= pairs.len(),
                forall|k: int| 0 <= k < i ==> holds(self@.map, #[trigger] pairs[k]),
            decreases pairs.len() - i,
        {
            match self.lookup(pairs[i].0.as_str()) {
                Some(value) => {
                    if !(*value == pairs[i].1) {
                        return false;
                    }
                },
                None => {
                    return false;
                },
            }
            i += 1;
        }
        true
    }

    /// Whether the pairs stand for exactly the mapping that the store holds.
    pub fn same_entries(&self, pairs: &Vec<(String, String)>) -> (same: bool)
        requires
            self.wf(),
        ensures
            same == (self@.map == contents_of(pairs@)),
    {
        if self.backend == Backend::Null {
            proof {
                if pairs.len() > 0 {
                    assert(contents_of(pairs@).contains_key(pairs@.last().0@));
                }
            }
            return pairs.len() == 0;
        }
        let other = Store::from_pairs(self.backend, pairs);
        let forth = other.holds_all(&self.entries);
        let back = self.holds_all(&other.entries);
        proof {
            lemma_same_mapping(self.entries@, other.entries@);
        }
        forth && back
    }

    /// Whether the text, read as a snapshot, holds exactly what the store holds.
    fn reads_back(&self, text: &str) -> (same: bool)
        requires
            self.wf(),
            self.backend == Backend::Snapshot,
        ensures
            same == (Self::snapshot_mapping(text@) == Some(self@.map)),
    {
        if text.is_empty() {
            self.same_entries(&Vec::new())
        } else {
            match parse_snapshot(text) {
                Ok(pairs) => self.same_entries(&pairs),
                Err(_) => false,
            }
        }
    }

    /// Writes the mapping back. A snapshot store hands out the text that its
    /// file has to hold, to be synced where `durable` is set; a store of
    /// another kind has nothing to write. No text is handed out that would
    /// not be read back as the mapping it was written for: where there is no
    /// such text the flush fails, and the store stays as it was.
    pub fn flush(&mut self, durable: bool) -> (flushed: Result<Flush, StoreError>)
        requires
            old(self).wf(),
        ensures
            final(self).wf(),
            match flushed {
                Ok(Flush::Nothing) => !old(self)@.writes_on_flush() && final(self)@ == old(self)@,
                Ok(Flush::Write { text, sync }) => old(self)@.writes_on_flush()
                    && Self::faithful_text(old(self)@.map) == Some(text@) && sync == durable
                    && final(self)@ == old(self)@.flushed(durable),
                Err(error) => old(self)@.writes_on_flush() && Self::faithful_text(old(self)@.map)
                    is None && error is Serialize && final(self)@ == old(self)@,
            },
    {
        match self.backend {
            Backend::Snapshot => match render_snapshot(&self.entries) {
                Ok(text) => {
                    if self.reads_back(text.as_str()) {
                        if durable {
                            self.checkpointed = true;
                        }
                        Ok(Flush::Write { text, sync: durable })
                    } else {
                        Err(
                            StoreError::Serialize(
                                String::from_str("the snapshot does not read back as it was written"),
                            ),
                        )
                    }
                },
                Err(error) => Err(StoreError::Serialize(describe(&error))),
            },
            _ => Ok(Flush::Nothing),
        }
    }

    /// The last flush of a store, when its owner lets go of it: a best-effort
    /// write, unless a durable flush has already brought the disk up to date.
    pub fn close(self) -> (flushed: Result<Flush, StoreError>)
        requires
            self.wf(),
        ensures
            match flushed {
                Ok(Flush::Nothing) => !self@.owes_final_flush(),
                Ok(Flush::Write { text, sync }) => self@.owes_final_flush() && Self::faithful_text(
                    self@.map,
                ) == Some(text@) && !sync,
                Err(error) => self@.owes_final_flush() && Self::faithful_text(self@.map) is None
                    && error is Serialize,
            },
    {
        let mut store = self;
        if store.backend == Backend::Snapshot && !store.checkpointed {
            store.flush(false)
        } else {
            Ok(Flush::Nothing)
        }
    }

    /// Hands out the entries of a per-key store that still have to be
    /// written, oldest first, and forgets them.
    pub fn take_writes(&mut self) -> (writes: Vec<(String, String)>)
        ensures
            old(self).wf() ==> final(self).wf(),
            texts_of(writes@) == old(self)@.journal,
            final(self)@ == old(self)@.drained(),
    {
        let mut writes: Vec<(String, String)> = Vec::new();
        if self.backend != Backend::Null {
            std::mem::swap(&mut writes, &mut self.journal);
        }
        proof {
            assert(texts_of(Seq::<(String, String)>::empty()) =~= Seq::empty());
        }
        writes
    }

    fn put(&mut self, key: String, value: String)
        requires
            old(self).wf(),
        ensures
            final(self).wf(),
            contents_of(final(self).entries@) == contents_of(old(self).entries@).insert(
                key@,
                value@,
            ),
            final(self).backend == old(self).backend,
            final(self).journal == old(self).journal,
            final(self).checkpointed == old(self).checkpointed,
    {
        let ghost before = self.entries@;
        match last_index_of(&self.entries, &key) {
            Some(i) => {
                proof {
                    lemma_replaced(before, i as int, key, value);
                }
                self.entries.set(i, (key, value));
            },
            None => {
                proof {
                    lemma_pushed(before, (key, value));
                }
                self.entries.push((key, value));
            },
        }
    }
}

} // verus!
