use std::cell::Cell;
use yabai_get_windows::cache::{Cache, Recall};
use yabai_get_windows::policy::ShouldCache;
use yabai_get_windows::store::{Backend, Flush, Store, StoreError};

fn owned(text: &str) -> String {
    text.to_string()
}

#[test]
fn new_cache_on_empty_text_holds_nothing() {
    let cache = Cache::new("").unwrap();
    assert_eq!(cache.get("Finder"), None);
}

#[test]
fn new_cache_reads_its_snapshot() {
    let cache = Cache::new("{\"Finder\":\"/F.app\"}").unwrap();
    assert_eq!(cache.get("Finder"), Some(&owned("/F.app")));
}

#[test]
fn new_cache_rejects_a_corrupt_snapshot() {
    assert!(matches!(Cache::new("{\"Finder\":"), Err(StoreError::Parse(_))));
    assert!(matches!(Cache::new("garbage"), Err(StoreError::Parse(_))));
}

#[test]
fn get_or_insert_with_produces_at_most_once() {
    let calls = Cell::new(0);
    let mut cache = Cache::new("").unwrap();
    let first: Result<String, String> = cache.get_or_insert_with(owned("k"), || {
        calls.set(calls.get() + 1);
        Ok(owned("one"))
    });
    let second: Result<String, String> = cache.get_or_insert_with(owned("k"), || {
        calls.set(calls.get() + 1);
        Ok(owned("two"))
    });
    assert_eq!(first, Ok(owned("one")));
    assert_eq!(second, Ok(owned("one")));
    assert_eq!(calls.get(), 1);
    assert_eq!(cache.get("k"), Some(&owned("one")));
}

#[test]
fn get_or_insert_with_does_not_produce_on_a_hit() {
    let mut cache = Cache::new("{\"k\":\"stored\"}").unwrap();
    let got: Result<String, String> =
        cache.get_or_insert_with(owned("k"), || panic!("production ran on a hit"));
    assert_eq!(got, Ok(owned("stored")));
}

#[test]
fn get_or_insert_with_hands_a_failure_on_and_stores_nothing() {
    let calls = Cell::new(0);
    let mut cache = Cache::new("").unwrap();
    let first: Result<String, String> = cache.get_or_insert_with(owned("k"), || {
        calls.set(calls.get() + 1);
        Err(owned("tool failed"))
    });
    assert_eq!(first, Err(owned("tool failed")));
    assert_eq!(cache.get("k"), None);
    let second: Result<String, String> = cache.get_or_insert_with(owned("k"), || {
        calls.set(calls.get() + 1);
        Ok(owned("value"))
    });
    assert_eq!(second, Ok(owned("value")));
    assert_eq!(calls.get(), 2);
}

#[test]
fn recall_gives_the_token_of_a_miss() {
    let cache = Cache::new("").unwrap();
    match cache.recall("Finder") {
        Recall::Miss { token } => assert_eq!(token, Some(owned("\"Finder\""))),
        other => panic!("expected a miss, got {:?}", other),
    }
}

#[test]
fn recall_escapes_the_input_in_its_token() {
    let cache = Cache::new("").unwrap();
    match cache.recall("a\"b") {
        Recall::Miss { token } => assert_eq!(token, Some(owned("\"a\\\"b\""))),
        other => panic!("expected a miss, got {:?}", other),
    }
}

#[test]
fn settle_stores_only_under_yes() {
    let mut cache = Cache::over(Store::empty(Backend::PerKey));
    assert_eq!(cache.settle(Some(owned("t")), ShouldCache::No, owned("v")), "v");
    assert_eq!(cache.get("t"), None);
    assert_eq!(cache.settle(None, ShouldCache::Yes, owned("v")), "v");
    assert!(cache.take_writes().is_empty());
    assert_eq!(cache.settle(Some(owned("t")), ShouldCache::Yes, owned("v")), "v");
    assert_eq!(cache.get("t"), Some(&owned("v")));
    assert_eq!(cache.take_writes(), vec![(owned("t"), owned("v"))]);
}

#[test]
fn call_stores_a_yes_and_hits_afterwards() {
    let calls = Cell::new(0);
    let mut cache = Cache::over(Store::empty(Backend::PerKey));
    let first = cache.call("Finder", || {
        calls.set(calls.get() + 1);
        (ShouldCache::Yes, owned("/System/Library/CoreServices/Finder.app"))
    });
    let second = cache.call("Finder", || {
        calls.set(calls.get() + 1);
        (ShouldCache::Yes, owned("/elsewhere"))
    });
    assert_eq!(first, "/System/Library/CoreServices/Finder.app");
    assert_eq!(second, "/System/Library/CoreServices/Finder.app");
    assert_eq!(calls.get(), 1);
}

#[test]
fn call_does_not_store_a_no() {
    let calls = Cell::new(0);
    let mut cache = Cache::over(Store::empty(Backend::PerKey));
    let first = cache.call("Finder", || {
        calls.set(calls.get() + 1);
        (ShouldCache::No, owned("guess"))
    });
    assert_eq!(first, "guess");
    assert!(cache.take_writes().is_empty());
    assert!(matches!(cache.recall("Finder"), Recall::Miss { .. }));
    let second = cache.call("Finder", || {
        calls.set(calls.get() + 1);
        (ShouldCache::Yes, owned("/F.app"))
    });
    assert_eq!(second, "/F.app");
    assert_eq!(calls.get(), 2);
}

#[test]
fn call_on_a_store_that_could_not_be_opened_still_answers() {
    let calls = Cell::new(0);
    let mut cache = Cache::over(Store::open_per_key(Err(owned("permission denied"))));
    for _ in 0..3 {
        let value = cache.call("Finder", || {
            calls.set(calls.get() + 1);
            (ShouldCache::Yes, owned("/F.app"))
        });
        assert_eq!(value, "/F.app");
    }
    assert_eq!(calls.get(), 3);
    assert!(cache.take_writes().is_empty());
}

#[test]
fn finder_is_persisted_and_found_by_the_next_run() {
    let mut cache = Cache::over(Store::open_per_key(Ok(Vec::new())));
    let value = cache.call("Finder", || {
        (ShouldCache::Yes, owned("/System/Library/CoreServices/Finder.app"))
    });
    assert_eq!(value, "/System/Library/CoreServices/Finder.app");
    let on_disk = cache.take_writes();
    assert_eq!(
        on_disk,
        vec![(owned("\"Finder\""), owned("/System/Library/CoreServices/Finder.app"))]
    );

    let mut next_run = Cache::over(Store::open_per_key(Ok(on_disk)));
    let value = next_run.call("Finder", || panic!("production ran on a hit"));
    assert_eq!(value, "/System/Library/CoreServices/Finder.app");
}

#[test]
fn finder_survives_a_snapshot_as_well() {
    let mut cache = Cache::new("").unwrap();
    let value = cache.call("Finder", || {
        (ShouldCache::Yes, owned("/System/Library/CoreServices/Finder.app"))
    });
    assert_eq!(value, "/System/Library/CoreServices/Finder.app");
    let text = match cache.close() {
        Ok(Flush::Write { text, sync }) => {
            assert!(!sync);
            text
        }
        other => panic!("expected a write, got {:?}", other),
    };
    assert_eq!(
        text,
        "{\"\\\"Finder\\\"\":\"/System/Library/CoreServices/Finder.app\"}"
    );
    let mut next_run = Cache::new(&text).unwrap();
    let value = next_run.call("Finder", || panic!("production ran on a hit"));
    assert_eq!(value, "/System/Library/CoreServices/Finder.app");
}

#[test]
fn durable_flush_asks_for_a_sync() {
    let mut cache = Cache::new("").unwrap();
    let _: Result<String, String> = cache.get_or_insert_with(owned("a"), || Ok(owned("1")));
    match cache.flush() {
        Ok(Flush::Write { text, sync }) => {
            assert_eq!(text, "{\"a\":\"1\"}");
            assert!(sync);
        }
        other => panic!("expected a write, got {:?}", other),
    }
    assert!(matches!(cache.close(), Ok(Flush::Nothing)));
}

#[test]
fn many_pairs_survive_flush_and_reopen() {
    let mut cache = Cache::new("").unwrap();
    for i in 0..50 {
        let got: Result<String, String> =
            cache.get_or_insert_with(format!("key{}", i), || Ok(format!("value{}", i)));
        assert_eq!(got, Ok(format!("value{}", i)));
    }
    let text = match cache.flush() {
        Ok(Flush::Write { text, .. }) => text,
        other => panic!("expected a write, got {:?}", other),
    };
    let reopened = Cache::new(&text).unwrap();
    for i in 0..50 {
        assert_eq!(reopened.get(&format!("key{}", i)), Some(&format!("value{}", i)));
    }
    assert_eq!(reopened.get("key50"), None);
}
