use crate::codec::{contents_of, distinct_keys};
use crate::policy::ShouldCache;
use crate::store::{Backend, Store, StoreState};
use vstd::prelude::*;

verus! {

/// Getting or computing twice under one key computes at most once: after a
/// first call that returned a value, a second call is a hit, returns that
/// same value whatever its own production would give, and changes nothing.
pub proof fn idempotence(
    store: StoreState,
    key: Seq<char>,
    first: Seq<char>,
    second: Option<Seq<char>>,
)
    requires
        store.backend != Backend::Null,
    ensures
        ({
            let returned = if store.lookup(key) is Some {
                store.lookup(key)
            } else {
                Some(first)
            };
            let after = store.memoized(key, Some(first));
            &&& after.lookup(key) == returned
            &&& after.memoized(key, second) == after
        }),
{
}

/// In a fresh store a key is absent; once it is inserted, a lookup gives
/// the inserted value, and every other key is found as before.
pub proof fn miss_then_hit(backend: Backend, key: Seq<char>, value: Seq<char>, other: Seq<char>)
    requires
        backend != Backend::Null,
        other != key,
    ensures
        StoreState::empty(backend).lookup(key) is None,
        StoreState::empty(backend).insert(key, value).lookup(key) == Some(value),
        StoreState::empty(backend).insert(key, value).lookup(other) is None,
{
}

/// Inserting into any store that keeps its entries makes the value found
/// under its key and leaves the other keys alone.
pub proof fn insert_then_lookup(store: StoreState, key: Seq<char>, value: Seq<char>, other: Seq<char>)
    requires
        store.backend != Backend::Null,
        other != key,
    ensures
        store.insert(key, value).lookup(key) == Some(value),
        store.insert(key, value).lookup(other) == store.lookup(other),
{
}

/// A production that failed, or whose value came with a `No` verdict,
/// leaves the store as it was: the key is still absent, so the next call
/// has to produce again.
pub proof fn no_cache_on_failure(store: StoreState, key: Seq<char>, value: Seq<char>)
    requires
        store.lookup(key) is None,
    ensures
        store.memoized(key, None) == store,
        store.memoized(key, None).lookup(key) is None,
        store.settled(Some(key), ShouldCache::No, value) == store,
        store.settled(Some(key), ShouldCache::No, value).lookup(key) is None,
{
}

/// A value that came with a `Yes` verdict is found under its token
/// afterwards, in every store that keeps its entries.
pub proof fn cache_on_yes(store: StoreState, token: Seq<char>, value: Seq<char>)
    requires
        store.backend != Backend::Null,
    ensures
        store.settled(Some(token), ShouldCache::Yes, value).lookup(token) == Some(value),
{
}

/// The two ways of saying whether a result may be kept agree: a success
/// that is stored by a get-or-compute is what a `Yes` verdict stores, and a
/// failure leaves the store as a `No` verdict does.
pub proof fn policies_agree(store: StoreState, key: Seq<char>, value: Seq<char>)
    requires
        store.lookup(key) is None,
    ensures
        store.memoized(key, Some(value)) == store.settled(Some(key), ShouldCache::Yes, value),
        store.memoized(key, None) == store.settled(Some(key), ShouldCache::No, value),
{
}

/// A store that could not be opened keeps nothing: every lookup misses,
/// whatever was settled before, so every call falls through to production.
pub proof fn degraded_store_always_misses(
    token: Option<Seq<char>>,
    verdict: ShouldCache,
    value: Seq<char>,
    key: Seq<char>,
)
    ensures
        StoreState::empty(Backend::Null).settled(token, verdict, value) == StoreState::empty(
            Backend::Null,
        ),
        StoreState::empty(Backend::Null).lookup(key) is None,
{
}

/// The text that a flush hands out is read back, when a store is opened on
/// it again, as exactly the mapping that it was written for.
pub proof fn snapshot_is_read_back(contents: Map<Seq<char>, Seq<char>>, text: Seq<char>)
    requires
        Store::faithful_text(contents) == Some(text),
    ensures
        Store::snapshot_mapping(text) == Some(contents),
{
}

/// A list of pairs with distinct keys stands for exactly those pairs: each
/// key maps to its value, and no other key is present. So a store that is
/// opened again on the entries that another one gave holds the same entries.
pub proof fn pairs_are_reproduced(pairs: Seq<(String, String)>)
    requires
        distinct_keys(pairs),
    ensures
        forall|i: int|
            0 <= i < pairs.len() ==> contents_of(pairs).contains_key((#[trigger] pairs[i]).0@)
                && contents_of(pairs)[pairs[i].0@] == pairs[i].1@,
        forall|key: Seq<char>| #[trigger]
            contents_of(pairs).contains_key(key) ==> exists|i: int|
                0 <= i < pairs.len() && (#[trigger] pairs[i]).0@ == key,
    decreases pairs.len(),
{
    if pairs.len() > 0 {
        let front = pairs.drop_last();
        assert(distinct_keys(front)) by {
            assert forall|i: int, j: int| 0 <= i < j < front.len() implies (#[trigger] front[i]).0@
                != (#[trigger] front[j]).0@ by {
                assert(front[i] == pairs[i] && front[j] == pairs[j]);
            }
        }
        pairs_are_reproduced(front);
        assert forall|i: int| 0 <= i < pairs.len() implies contents_of(pairs).contains_key(
            (#[trigger] pairs[i]).0@,
        ) && contents_of(pairs)[pairs[i].0@] == pairs[i].1@ by {
            if i < pairs.len() - 1 {
                assert(front[i] == pairs[i]);
            }
        }
        assert forall|key: Seq<char>| #[trigger]
            contents_of(pairs).contains_key(key) implies exists|i: int|
            0 <= i < pairs.len() && (#[trigger] pairs[i]).0@ == key by {
            if key != pairs.last().0@ {
                assert(contents_of(front).contains_key(key));
                let i = choose|i: int| 0 <= i < front.len() && (#[trigger] front[i]).0@ == key;
                assert(pairs[i] == front[i]);
            }
        }
    }
}

} // verus!
