use std::collections::BTreeMap;
use vstd::prelude::*;

verus! {

/// The error of `serde_json`, carried through as it is: nothing is known
/// of what it holds.
#[verifier::external_type_specification]
#[verifier::external_body]
pub struct ExJsonError(serde_json::Error);

/// The mapping that a list of pairs stands for. A later pair replaces an
/// earlier one with the same key.
pub open spec fn contents_of(pairs: Seq<(String, String)>) -> Map<Seq<char>, Seq<char>>
    decreases pairs.len(),
{
    if pairs.len() == 0 {
        Map::empty()
    } else {
        contents_of(pairs.drop_last()).insert(pairs.last().0@, pairs.last().1@)
    }
}

/// No two pairs of the list share a key.
pub open spec fn distinct_keys(pairs: Seq<(String, String)>) -> bool {
    forall|i: int, j: int|
        0 <= i < j < pairs.len() ==> (#[trigger] pairs[i]).0@ != (#[trigger] pairs[j]).0@
}

/// The mapping that `serde_json::from_str` reads out of a snapshot text, as a
/// map from strings to strings; `None` where it rejects the text.
pub uninterp spec fn snapshot_contents(text: Seq<char>) -> Option<Map<Seq<char>, Seq<char>>>;

/// The text that `serde_json::to_string` writes for a mapping from strings to
/// strings held in key order; `None` where it reports an error.
pub uninterp spec fn snapshot_text(contents: Map<Seq<char>, Seq<char>>) -> Option<Seq<char>>;

/// The text that `serde_json::to_string` writes for one string; `None` where
/// it reports an error.
pub uninterp spec fn key_text(input: Seq<char>) -> Option<Seq<char>>;

/// Calls `serde_json::from_str` for a `BTreeMap<String, String>` and hands the
/// map's pairs out in key order. Trusted: the outcome depends on the text alone,
/// and the pairs of a success stand for the mapping that was read.
#[verifier::external_body]
pub(crate) fn parse_snapshot(text: &str) -> (r: Result<Vec<(String, String)>, serde_json::Error>)
    ensures
        match r {
            Ok(pairs) => snapshot_contents(text@) == Some(contents_of(pairs@)),
            Err(_) => snapshot_contents(text@) is None,
        },
{
    serde_json::from_str::<BTreeMap<String, String>>(text).map(|m| m.into_iter().collect())
}

/// Calls `serde_json::to_string` on a `BTreeMap` that holds the pairs, each
/// under its own key. Trusted: the outcome depends only on the mapping that
/// the pairs stand for.
#[verifier::external_body]
pub(crate) fn render_snapshot(pairs: &Vec<(String, String)>) -> (r: Result<
    String,
    serde_json::Error,
>)
    requires
        distinct_keys(pairs@),
    ensures
        match r {
            Ok(text) => snapshot_text(contents_of(pairs@)) == Some(text@),
            Err(_) => snapshot_text(contents_of(pairs@)) is None,
        },
{
    let map: BTreeMap<&String, &String> = pairs.iter().map(|p| (&p.0, &p.1)).collect();
    serde_json::to_string(&map)
}

/// Calls `serde_json::to_string` on one string. Trusted: the outcome depends on
/// the string alone.
#[verifier::external_body]
pub(crate) fn encode_key(input: &str) -> (r: Result<String, serde_json::Error>)
    ensures
        match r {
            Ok(token) => key_text(input@) == Some(token@),
            Err(_) => key_text(input@) is None,
        },
{
    serde_json::to_string(input)
}

/// The message of a `serde_json::Error`, as its `Display` writes it. Nothing is
/// claimed of the text.
#[verifier::external_body]
pub(crate) fn describe(error: &serde_json::Error) -> (message: String) {
    error.to_string()
}

} // verus!
